//! Decisions made by matching on a value.

use vstd::prelude::*;

verus! {

/// The number after `x`, where there is a number.
pub open spec fn successor(x: Option<i32>) -> Option<int> {
    match x {
        None => None,
        Some(i) => Some(i + 1),
    }
}

/// Adds one to the number in `x`, if there is one. The number must have a
/// successor in `i32`.
pub fn plus_one(x: Option<i32>) -> (y: Option<i32>)
    requires
        x != Some(i32::MAX),
    ensures
        y is Some <==> x is Some,
        y matches Some(j) ==> successor(x) == Some(j as int),
{
    match x {
        None => None,
        Some(i) => Some(i + 1),
    }
}

/// Adds one to five and to nothing, and returns both results: six, and
/// nothing.
pub fn matching_with_option() -> (results: (Option<i32>, Option<i32>))
    ensures
        results.0 == Some(6i32),
        results.1 is None,
{
    let five: Option<i32> = Some(5);
    let six = plus_one(five);
    let none = plus_one(None);
    (six, none)
}

/// What a roll of the dice lets a player do.
#[derive(Clone, Copy, Debug, PartialEq, Eq, Structural)]
pub enum Move {
    /// The player gets a fancy hat.
    AddFancyHat,
    /// The player loses a fancy hat.
    RemoveFancyHat,
    /// The player rolls again.
    Reroll,
}

/// The move that `dice_roll` stands for: a three wins a hat, a seven loses
/// one, and every other roll is rolled again.
pub open spec fn move_of(dice_roll: i32) -> Move {
    if dice_roll == 3 {
        Move::AddFancyHat
    } else if dice_roll == 7 {
        Move::RemoveFancyHat
    } else {
        Move::Reroll
    }
}

/// The move that `dice_roll` stands for.
pub fn move_for(dice_roll: i32) -> (m: Move)
    ensures
        m == move_of(dice_roll),
{
    match dice_roll {
        3 => Move::AddFancyHat,
        7 => Move::RemoveFancyHat,
        _ => Move::Reroll,
    }
}

/// The move for a roll of nine, which no arm names: it falls to the
/// catch-all, and the player rolls again.
pub fn matching_with_ocatch_all() -> (m: Move)
    ensures
        m == Move::Reroll,
{
    let dice_roll: i32 = 9;
    move_for(dice_roll)
}

} // verus!
