//! Coins and what they are worth.

use vstd::prelude::*;

verus! {

/// A coin, by its denomination.
#[derive(Clone, Copy, Debug, PartialEq, Eq, Structural)]
pub enum Coin {
    Penny,
    Nickel,
    Dime,
    Quarter,
}

/// What `coin` is worth, in cents.
pub open spec fn cents(coin: Coin) -> nat {
    match coin {
        Coin::Penny => 1,
        Coin::Nickel => 5,
        Coin::Dime => 10,
        Coin::Quarter => 25,
    }
}

/// What `coin` is worth, in cents.
pub fn value_in_cents(coin: Coin) -> (value: u8)
    ensures
        value == cents(coin),
{
    match coin {
        Coin::Penny => 1,
        Coin::Nickel => 5,
        Coin::Dime => 10,
        Coin::Quarter => 25,
    }
}

/// Coins of different denominations differ in worth, and every coin is
/// worth at least a cent and at most a quarter.
pub proof fn lemma_worth_tells_coins_apart(a: Coin, b: Coin)
    ensures
        cents(a) == cents(b) <==> a == b,
        1 <= cents(a) <= 25,
{
}

} // verus!
