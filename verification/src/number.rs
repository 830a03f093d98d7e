//! Numbers of number properties. A number is an IEEE-754 binary64 value; the
//! library holds it as its 64-bit pattern (what `f64::to_bits` gives) and
//! decides finiteness, zero, equality, order and `f64::total_cmp` on that
//! pattern.

use vstd::prelude::*;

verus! {

/// 2^52, the weight of the lowest exponent bit.
pub const EXP_UNIT: u64 = 0x10_0000_0000_0000;

/// 2^63, the sign bit.
pub const SIGN_BIT: u64 = 0x8000_0000_0000_0000;

/// The biased exponent field of the pattern.
pub open spec fn f64_exponent(b: u64) -> int {
    (b as int / EXP_UNIT as int) % 2048
}

/// The fraction field of the pattern.
pub open spec fn f64_fraction(b: u64) -> int {
    b as int % EXP_UNIT as int
}

/// Whether the pattern is a NaN.
pub open spec fn f64_nan(b: u64) -> bool {
    f64_exponent(b) == 2047 && f64_fraction(b) != 0
}

/// Whether the pattern is finite (neither infinite nor NaN).
pub open spec fn f64_finite(b: u64) -> bool {
    f64_exponent(b) != 2047
}

/// Whether the pattern is +0.0 or -0.0.
pub open spec fn f64_zero(b: u64) -> bool {
    b as int % SIGN_BIT as int == 0
}

/// The integer by which `f64::total_cmp` orders patterns: the pattern itself
/// for a clear sign bit, and the pattern with its other bits inverted,
/// read as a negative `i64`, for a set sign bit.
pub open spec fn f64_key(b: u64) -> int {
    if b < SIGN_BIT {
        b as int
    } else {
        (SIGN_BIT as int - 1) - b as int
    }
}

/// IEEE equality (`==` on `f64`): NaN equals nothing, and the two zeros are
/// equal.
pub open spec fn f64_eq(a: u64, b: u64) -> bool {
    !f64_nan(a) && !f64_nan(b) && (a == b || (f64_zero(a) && f64_zero(b)))
}

/// IEEE less-than (`<` on `f64`).
pub open spec fn f64_lt(a: u64, b: u64) -> bool {
    !f64_nan(a) && !f64_nan(b) && !(f64_zero(a) && f64_zero(b)) && f64_key(a) < f64_key(b)
}

/// Whether the pattern is NaN.
pub fn is_nan(b: u64) -> (r: bool)
    ensures
        r == f64_nan(b),
{
    (b / EXP_UNIT) % 2048 == 2047 && b % EXP_UNIT != 0
}

/// Whether the pattern is finite.
pub fn is_finite(b: u64) -> (r: bool)
    ensures
        r == f64_finite(b),
{
    (b / EXP_UNIT) % 2048 != 2047
}

/// Whether the pattern is a zero of either sign.
pub fn is_zero(b: u64) -> (r: bool)
    ensures
        r == f64_zero(b),
{
    b % SIGN_BIT == 0
}

/// The `f64::total_cmp` key of the pattern.
pub fn total_key(b: u64) -> (r: i128)
    ensures
        r == f64_key(b),
{
    if b < SIGN_BIT {
        b as i128
    } else {
        (SIGN_BIT - 1) as i128 - b as i128
    }
}

/// IEEE equality of two numbers.
pub fn num_eq(a: u64, b: u64) -> (r: bool)
    ensures
        r == f64_eq(a, b),
{
    !is_nan(a) && !is_nan(b) && (a == b || (is_zero(a) && is_zero(b)))
}

/// IEEE less-than of two numbers.
pub fn num_lt(a: u64, b: u64) -> (r: bool)
    ensures
        r == f64_lt(a, b),
{
    !is_nan(a) && !is_nan(b) && !(is_zero(a) && is_zero(b)) && total_key(a) < total_key(b)
}

/// The key of a pattern determines the pattern.
pub proof fn lemma_key_injective(a: u64, b: u64)
    ensures
        f64_key(a) == f64_key(b) ==> a == b,
{
}

} // verus!
