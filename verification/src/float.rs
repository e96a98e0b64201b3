use vstd::prelude::*;
use const_soft_float::soft_f64::SoftF64;

verus! {

// The verified code holds every double as its IEEE-754 binary64 bit pattern
// in a `u64`; the arithmetic below is carried out by const_soft_float, a
// software implementation of the same arithmetic the hardware performs.
// Each operation is a pure function of the argument bit patterns, so each
// result is given a name that the callers' contracts compose.

/// Bit pattern of the IEEE-754 binary64 sum of the two doubles encoded by
/// the argument bit patterns.
pub uninterp spec fn add_bits(a: u64, b: u64) -> u64;

/// Bit pattern of the IEEE-754 binary64 product of the two doubles encoded
/// by the argument bit patterns.
pub uninterp spec fn mul_bits(a: u64, b: u64) -> u64;

/// Bit pattern of the IEEE-754 binary64 quotient of the doubles encoded by
/// the argument bit patterns.
pub uninterp spec fn div_bits(a: u64, b: u64) -> u64;

/// Bit pattern of the IEEE-754 binary64 square root of the double encoded by
/// the argument bit pattern.
pub uninterp spec fn sqrt_bits(a: u64) -> u64;

/// Bit pattern of the sine, in radians, of the double encoded by the
/// argument bit pattern.
pub uninterp spec fn sin_bits(a: u64) -> u64;

/// Bit pattern of the cosine, in radians, of the double encoded by the
/// argument bit pattern.
pub uninterp spec fn cos_bits(a: u64) -> u64;

/// Relies on const_soft_float's SoftF64::add: IEEE-754 binary64 addition,
/// rounded to nearest with ties to even, carried on bit patterns; the result
/// depends on the argument bit patterns alone.
#[verifier::external_body]
pub(crate) fn add_double(a: u64, b: u64) -> (r: u64)
    ensures
        r == add_bits(a, b),
{
    SoftF64::add(SoftF64::from_bits(a), SoftF64::from_bits(b)).to_bits()
}

/// Relies on const_soft_float's SoftF64::mul: IEEE-754 binary64
/// multiplication, rounded to nearest with ties to even, carried on bit
/// patterns; the result depends on the argument bit patterns alone.
#[verifier::external_body]
pub(crate) fn mul_double(a: u64, b: u64) -> (r: u64)
    ensures
        r == mul_bits(a, b),
{
    SoftF64::mul(SoftF64::from_bits(a), SoftF64::from_bits(b)).to_bits()
}

/// Relies on const_soft_float's SoftF64::div: IEEE-754 binary64 division,
/// rounded to nearest with ties to even, carried on bit patterns; the result
/// depends on the argument bit patterns alone.
#[verifier::external_body]
pub(crate) fn div_double(a: u64, b: u64) -> (r: u64)
    ensures
        r == div_bits(a, b),
{
    SoftF64::div(SoftF64::from_bits(a), SoftF64::from_bits(b)).to_bits()
}

/// Relies on const_soft_float's SoftF64::sqrt: the IEEE-754 binary64 square
/// root, correctly rounded, carried on bit patterns; the result depends on
/// the argument bit pattern alone.
#[verifier::external_body]
pub(crate) fn sqrt_double(a: u64) -> (r: u64)
    ensures
        r == sqrt_bits(a),
{
    SoftF64::sqrt(SoftF64::from_bits(a)).to_bits()
}

/// Relies on const_soft_float's SoftF64::sin, a port of the musl libm sine:
/// a deterministic function of the argument bit pattern alone.
#[verifier::external_body]
pub(crate) fn sin_double(a: u64) -> (r: u64)
    ensures
        r == sin_bits(a),
{
    SoftF64::sin(SoftF64::from_bits(a)).to_bits()
}

/// Relies on const_soft_float's SoftF64::cos, a port of the musl libm
/// cosine: a deterministic function of the argument bit pattern alone.
#[verifier::external_body]
pub(crate) fn cos_double(a: u64) -> (r: u64)
    ensures
        r == cos_bits(a),
{
    SoftF64::cos(SoftF64::from_bits(a)).to_bits()
}

} // verus!
