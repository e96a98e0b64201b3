use vstd::prelude::*;

verus! {

/// IEEE-754 binary64 bit layout: one sign bit, an eleven-bit exponent field,
/// and a fifty-two-bit fraction field.  A pattern whose exponent field is all
/// ones encodes an infinity (zero fraction) or a NaN (non-zero fraction);
/// every other pattern encodes a finite number.  Apart from the two zeros
/// (the all-zero pattern and the sign-only pattern, which compare equal),
/// distinct patterns encode distinct values.
pub const EXPONENT_MASK: u64 = 0x7FF0_0000_0000_0000;

/// The fraction field of an IEEE-754 binary64 bit pattern.
pub const FRACTION_MASK: u64 = 0x000F_FFFF_FFFF_FFFF;

/// Everything but the sign bit of an IEEE-754 binary64 bit pattern.
pub const MAGNITUDE_MASK: u64 = 0x7FFF_FFFF_FFFF_FFFF;

/// Bit pattern of the double 1.0.
pub const ONE_BITS: u64 = 0x3FF0_0000_0000_0000;

/// True when the bit pattern encodes a finite double, that is, neither a NaN
/// nor an infinity: the exponent field is not all ones.
pub open spec fn is_finite_bits(b: u64) -> bool {
    b & EXPONENT_MASK != EXPONENT_MASK
}

/// True when the bit pattern encodes a NaN: exponent field all ones and a
/// non-zero fraction field.
pub open spec fn is_nan_bits(b: u64) -> bool {
    b & EXPONENT_MASK == EXPONENT_MASK && b & FRACTION_MASK != 0
}

/// True when the bit pattern encodes a zero, of either sign.
pub open spec fn is_zero_bits(b: u64) -> bool {
    b & MAGNITUDE_MASK == 0
}

/// IEEE-754 `==` on doubles given as bit patterns: a NaN equals nothing, the
/// two zeros equal each other, and any other value equals exactly the value
/// with its own bit pattern.
pub open spec fn eq_bits(a: u64, b: u64) -> bool {
    &&& !is_nan_bits(a)
    &&& !is_nan_bits(b)
    &&& (a == b || (is_zero_bits(a) && is_zero_bits(b)))
}

/// Decide finiteness of a double given as its bit pattern.
pub fn finite_bits(b: u64) -> (r: bool)
    ensures
        r == is_finite_bits(b),
{
    b & EXPONENT_MASK != EXPONENT_MASK
}

/// Decide whether a double given as its bit pattern is a zero.
pub fn zero_bits(b: u64) -> (r: bool)
    ensures
        r == is_zero_bits(b),
{
    b & MAGNITUDE_MASK == 0
}

/// Decide whether a double given as its bit pattern is a NaN.
pub fn nan_bits(b: u64) -> (r: bool)
    ensures
        r == is_nan_bits(b),
{
    b & EXPONENT_MASK == EXPONENT_MASK && b & FRACTION_MASK != 0
}

/// Decide IEEE-754 `==` of two doubles given as bit patterns.
pub fn eq_double(a: u64, b: u64) -> (r: bool)
    ensures
        r == eq_bits(a, b),
{
    !nan_bits(a) && !nan_bits(b) && (a == b || (zero_bits(a) && zero_bits(b)))
}

} // verus!
