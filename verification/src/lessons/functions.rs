//! Functions lesson: parameters, return values, and a small loop.

use vstd::prelude::*;
use vstd::arithmetic::power::pow;

verus! {

/// Adds two numbers; the sum must fit the machine type.
pub fn add(a: i32, b: i32) -> (r: i32)
    requires
        i32::MIN <= a + b <= i32::MAX,
    ensures
        r == a + b,
{
    a + b
}

/// Multiplies two numbers; the product must fit the machine type.
pub fn multiply(x: i32, y: i32) -> (r: i32)
    requires
        i32::MIN <= x * y <= i32::MAX,
    ensures
        r == x * y,
{
    return x * y;
}

/// Raises `base` to the power `exp` by repeated multiplication. Every
/// intermediate power must fit the machine type.
pub fn power(base: i32, exp: u32) -> (r: i32)
    requires
        forall|k: nat| k <= exp ==> i32::MIN <= #[trigger] pow(base as int, k) <= i32::MAX,
    ensures
        r == pow(base as int, exp as nat),
{
    let mut result: i32 = 1;
    proof {
        vstd::arithmetic::power::lemma_pow0(base as int);
    }
    let mut i: u32 = 0;
    while i < exp
        invariant
            0 <= i <= exp,
            result == pow(base as int, i as nat),
            forall|k: nat| k <= exp ==> i32::MIN <= #[trigger] pow(base as int, k) <= i32::MAX,
        decreases exp - i,
    {
        proof {
            reveal(vstd::arithmetic::power::pow);
            assert(pow(base as int, (i + 1) as nat) == base * pow(base as int, i as nat));
            assert(i32::MIN <= pow(base as int, (i + 1) as nat) <= i32::MAX);
        }
        result = base * result;
        i = i + 1;
    }
    result
}

/// Area of a rectangle; the product must fit the machine type.
pub fn rectangle_area(width: u32, height: u32) -> (r: u32)
    requires
        width * height <= u32::MAX,
    ensures
        r == width * height,
{
    width * height
}

} // verus!
