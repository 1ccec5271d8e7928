//! Functions that return a value.

use vstd::prelude::*;

verus! {

/// Returns five.
pub fn function_with_return_value() -> (five: i32)
    ensures
        five == 5,
{
    5
}

/// Returns the value of a block: one more than the three that the block
/// binds, so four.
pub fn another_function() -> (y: i32)
    ensures
        y == 4,
{
    let y: i32 = {
        let x: i32 = 3;
        x + 1
    };
    y
}

} // verus!
