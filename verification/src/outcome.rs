//! How a guess stands against the target.

use vstd::prelude::*;

verus! {

/// The result of holding a guess against the target.
#[derive(Clone, Copy, Debug, PartialEq, Eq, Structural)]
pub enum Outcome {
    /// The guess is below the target.
    Less,
    /// The guess is above the target.
    Greater,
    /// The guess is the target.
    Equal,
}

/// The outcome of `guess` against `target`.
pub open spec fn outcome_of(guess: u32, target: u32) -> Outcome {
    if guess < target {
        Outcome::Less
    } else if guess > target {
        Outcome::Greater
    } else {
        Outcome::Equal
    }
}

/// Holds `guess` against `target`. Any `u32` is a guess: one outside the
/// range that targets are drawn from is judged like every other.
pub fn judge(guess: u32, target: u32) -> (outcome: Outcome)
    ensures
        outcome == outcome_of(guess, target),
        outcome is Less <==> guess < target,
        outcome is Greater <==> guess > target,
        outcome is Equal <==> guess == target,
{
    if guess < target {
        Outcome::Less
    } else if guess > target {
        Outcome::Greater
    } else {
        Outcome::Equal
    }
}

impl Outcome {
    /// Whether this outcome ends the session: only a guess equal to the
    /// target does.
    pub open spec fn wins(self) -> bool {
        self is Equal
    }

    /// The text that reports this outcome to the player.
    pub open spec fn text(self) -> Seq<char> {
        match self {
            Outcome::Less => "Too small!"@,
            Outcome::Greater => "Too big!"@,
            Outcome::Equal => "You win!"@,
        }
    }

    /// Whether this outcome ends the session.
    pub fn is_win(&self) -> (b: bool)
        ensures
            b == self.wins(),
    {
        match self {
            Outcome::Equal => true,
            _ => false,
        }
    }

    /// The text that reports this outcome to the player.
    pub fn message(&self) -> (text: &'static str)
        ensures
            text@ == self.text(),
    {
        match self {
            Outcome::Less => "Too small!",
            Outcome::Greater => "Too big!",
            Outcome::Equal => "You win!",
        }
    }
}

} // verus!
