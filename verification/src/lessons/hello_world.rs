//! Hello-world lesson: the smallest function with a contract.

use vstd::prelude::*;

verus! {

/// Adds two numbers; the sum must fit the machine type.
pub fn add(a: i32, b: i32) -> (r: i32)
    requires
        i32::MIN <= a + b <= i32::MAX,
    ensures
        r == a + b,
{
    a + b
}

} // verus!
