//! Functions that hand a value back to their caller.

use vstd::prelude::*;

verus! {

/// Returns the value of its final expression: five.
pub fn five() -> (result: i32)
    ensures
        result == 5,
{
    5
}

/// Returns the successor of `x`.
///
/// The largest `i32` has no successor, so it is not accepted.
pub fn plus_one(x: i32) -> (result: i32)
    requires
        x < i32::MAX,
    ensures
        result == x + 1,
{
    x + 1
}

} // verus!
