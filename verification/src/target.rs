//! The secret number of a session and where it comes from.

use rand::Rng;
use vstd::prelude::*;

verus! {

/// The least number that can be a session's target.
pub const LOWEST_TARGET: u32 = 1;

/// The greatest number that can be a session's target.
pub const HIGHEST_TARGET: u32 = 100;

/// Whether `n` lies in the range that targets are drawn from, both ends
/// included.
pub open spec fn in_target_range(n: u32) -> bool {
    LOWEST_TARGET <= n <= HIGHEST_TARGET
}

/// Whether `n` can be a session's target.
pub fn is_target(n: u32) -> (b: bool)
    ensures
        b == in_target_range(n),
{
    LOWEST_TARGET <= n && n <= HIGHEST_TARGET
}

/// Draws one number from `low..=high` with `rand`'s thread-local generator:
/// `rand::thread_rng()` and, on it, `Rng::gen_range`.
///
/// Trusted, not proved: that the number drawn lies in the range asked for,
/// both ends included. `gen_range` panics on an empty range, so the range
/// must hold at least one number. Nothing is claimed of which number comes:
/// two calls on one range may differ. `thread_rng` panics where the system
/// gives it no entropy to seed itself with; no argument decides that.
#[verifier::external_body]
fn draw_inclusive(low: u32, high: u32) -> (drawn: u32)
    requires
        low <= high,
    ensures
        low <= drawn <= high,
{
    rand::thread_rng().gen_range(low..=high)
}

/// Draws the target of a new session at random. Whatever is drawn lies
/// between [`LOWEST_TARGET`] and [`HIGHEST_TARGET`].
pub fn generate_target() -> (target: u32)
    ensures
        in_target_range(target),
{
    draw_inclusive(LOWEST_TARGET, HIGHEST_TARGET)
}

} // verus!
