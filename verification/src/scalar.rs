//! Single-precision numbers by their bit patterns.

use vstd::prelude::*;

verus! {

/// The bits of positive zero.
pub const ZERO: u32 = 0;

/// The bits of a full turn in radians, twice the single-precision value of pi.
pub const FULL_TURN: u32 = 0x40C9_0FDB;

/// Mask of everything but the sign bit.
pub const MAGNITUDE: u32 = 0x7FFF_FFFF;

/// The bits of positive infinity; any greater magnitude is not a number.
pub const INFINITY: u32 = 0x7F80_0000;

/// Whether the bits stand for no number at all.
pub open spec fn is_nan_spec(bits: u32) -> bool {
    (bits & MAGNITUDE) > INFINITY
}

/// Whether the bits stand for zero of either sign.
pub open spec fn is_zero_spec(bits: u32) -> bool {
    (bits & MAGNITUDE) == 0
}

/// Numeric equality of two bit patterns: nothing equals a value that is not a
/// number, the two zeros are equal, and otherwise the bits decide.
pub open spec fn same_value_spec(a: u32, b: u32) -> bool {
    !is_nan_spec(a) && !is_nan_spec(b) && (a == b || (is_zero_spec(a) && is_zero_spec(b)))
}

#[verifier::when_used_as_spec(is_nan_spec)]
pub fn is_nan(bits: u32) -> (r: bool)
    ensures
        r == is_nan_spec(bits),
{
    (bits & MAGNITUDE) > INFINITY
}

#[verifier::when_used_as_spec(is_zero_spec)]
pub fn is_zero(bits: u32) -> (r: bool)
    ensures
        r == is_zero_spec(bits),
{
    (bits & MAGNITUDE) == 0
}

#[verifier::when_used_as_spec(same_value_spec)]
pub fn same_value(a: u32, b: u32) -> (r: bool)
    ensures
        r == same_value_spec(a, b),
{
    !is_nan(a) && !is_nan(b) && (a == b || (is_zero(a) && is_zero(b)))
}

/// Numeric equality is symmetric.
pub proof fn same_value_symmetric(a: u32, b: u32)
    ensures
        same_value_spec(a, b) == same_value_spec(b, a),
{
}

/// A value equals itself exactly when it is a number.
pub proof fn same_value_reflexive(a: u32)
    ensures
        same_value_spec(a, a) == !is_nan_spec(a),
{
}

} // verus!
