//! Two small functions with return values.
use vstd::prelude::*;

verus! {

/// The constant five.
pub fn function_with_return_values() -> (r: i32)
    ensures
        r == 5,
{
    5
}

/// The successor of `x`; `x` must leave room for one more.
pub fn plus_one(x: i32) -> (r: i32)
    requires
        x < i32::MAX,
    ensures
        r == x + 1,
{
    x + 1
}

} // verus!
