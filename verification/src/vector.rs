use vstd::prelude::*;
use crate::bits::{
    is_finite_bits, is_zero_bits, eq_bits, finite_bits, zero_bits, eq_double, ONE_BITS,
};
use crate::float::{
    add_bits, mul_bits, div_bits, sqrt_bits, sin_bits, cos_bits, add_double, mul_double,
    div_double, sqrt_double, sin_double, cos_double,
};

verus! {

/// An immutable two-dimensional Cartesian vector.  Each coordinate is a
/// double-precision value held as its IEEE-754 binary64 bit pattern, and no
/// operation ever changes a constructed vector: everything derived is a new
/// value.
#[derive(Clone, Copy, Debug)]
pub struct Vector2 {
    pub x: u64,
    pub y: u64,
}

/// The one construction failure: a coordinate that is NaN or infinite.
#[derive(Clone, Copy, PartialEq, Eq, Structural, Debug)]
pub enum VectorError {
    NonFiniteCoordinate,
}

impl VectorError {
    /// The fixed message that the construction gate reports.
    pub fn message(&self) -> (m: &'static str)
        ensures
            m@ == "x/y values may not be NaN/inf"@,
    {
        "x/y values may not be NaN/inf"
    }
}

/// True when both coordinates are zeros, of either sign.
pub open spec fn is_zero_spec(v: Vector2) -> bool {
    is_zero_bits(v.x) && is_zero_bits(v.y)
}

/// The inner product of two vectors: the products of the paired coordinates,
/// summed, each step in IEEE-754 binary64 arithmetic.
pub open spec fn dot_spec(a: Vector2, b: Vector2) -> u64 {
    add_bits(mul_bits(a.x, b.x), mul_bits(a.y, b.y))
}

/// The squared length of a vector: its inner product with itself.
pub open spec fn length_sq_spec(v: Vector2) -> u64 {
    dot_spec(v, v)
}

/// The length of a vector: the square root of its squared length.
pub open spec fn length_spec(v: Vector2) -> u64 {
    sqrt_bits(length_sq_spec(v))
}

/// The canonical unit vector along the positive x axis.
pub open spec fn unit_x() -> Vector2 {
    Vector2 { x: ONE_BITS, y: 0 }
}

/// What normalizing returns: the canonical unit vector for a zero vector,
/// and otherwise each coordinate divided by the vector's length.
pub open spec fn normalized_spec(v: Vector2) -> Vector2 {
    if is_zero_spec(v) {
        unit_x()
    } else {
        Vector2 { x: div_bits(v.x, length_spec(v)), y: div_bits(v.y, length_spec(v)) }
    }
}

/// The component-wise sum of two vectors.
pub open spec fn sum_spec(a: Vector2, b: Vector2) -> Vector2 {
    Vector2 { x: add_bits(a.x, b.x), y: add_bits(a.y, b.y) }
}

/// A vector scaled by a double given as its bit pattern.
pub open spec fn scaled_spec(v: Vector2, s: u64) -> Vector2 {
    Vector2 { x: mul_bits(v.x, s), y: mul_bits(v.y, s) }
}

/// The Cartesian vector with polar coordinates `r` and `theta`: the radius
/// times the cosine and the sine of the angle.  No finiteness gate is
/// applied on this path, matching the construction asymmetry the interface
/// documents.
pub open spec fn from_polar_spec(r: u64, theta: u64) -> Vector2 {
    Vector2 { x: mul_bits(r, cos_bits(theta)), y: mul_bits(r, sin_bits(theta)) }
}

/// Structural equality of two vectors: both coordinate pairs equal by
/// IEEE-754 `==`, so the two zeros compare equal and a NaN coordinate
/// compares equal to nothing.
pub open spec fn vectors_equal(a: Vector2, b: Vector2) -> bool {
    eq_bits(a.x, b.x) && eq_bits(a.y, b.y)
}

impl Vector2 {
    /// The single validation gate: construction succeeds exactly when both
    /// coordinates are finite, and otherwise reports the fixed value error.
    pub fn new(x: u64, y: u64) -> (r: Result<Vector2, VectorError>)
        ensures
            r is Ok <==> is_finite_bits(x) && is_finite_bits(y),
            r matches Ok(v) ==> v.x == x && v.y == y,
            r matches Err(e) ==> e == VectorError::NonFiniteCoordinate,
    {
        if finite_bits(x) && finite_bits(y) {
            Ok(Vector2 { x, y })
        } else {
            Err(VectorError::NonFiniteCoordinate)
        }
    }

    /// Construct a vector from a radius and an angle in radians.  Total: a
    /// non-finite input flows through the arithmetic unchecked.
    pub fn from_polar(r: u64, theta: u64) -> (v: Vector2)
        ensures
            v == from_polar_spec(r, theta),
    {
        let c = cos_double(theta);
        let s = sin_double(theta);
        Vector2 { x: mul_double(r, c), y: mul_double(r, s) }
    }

    /// True when this is a zero vector, by exact comparison with zero.
    pub fn is_zero(&self) -> (r: bool)
        ensures
            r == is_zero_spec(*self),
    {
        zero_bits(self.x) && zero_bits(self.y)
    }

    /// The inner product with another vector.
    pub fn dot(&self, other: &Vector2) -> (r: u64)
        ensures
            r == dot_spec(*self, *other),
    {
        add_double(mul_double(self.x, other.x), mul_double(self.y, other.y))
    }

    /// The squared length: the inner product of the vector with itself.
    pub fn length_squared(&self) -> (r: u64)
        ensures
            r == length_sq_spec(*self),
    {
        self.dot(self)
    }

    /// The length of the vector.
    pub fn length(&self) -> (r: u64)
        ensures
            r == length_spec(*self),
    {
        sqrt_double(self.length_squared())
    }

    /// A normalized copy: total, with no error path.  A zero vector has no
    /// direction, so the canonical unit vector along the x axis is returned
    /// for it; every other vector is divided by its length.
    pub fn normalized(&self) -> (r: Vector2)
        ensures
            r == normalized_spec(*self),
    {
        if self.is_zero() {
            return Vector2 { x: ONE_BITS, y: 0 };
        }
        let mag = self.length();
        Vector2 { x: div_double(self.x, mag), y: div_double(self.y, mag) }
    }

    /// The component-wise sum with another vector: total, never fails.
    pub fn add(&self, rhs: &Vector2) -> (r: Vector2)
        ensures
            r == sum_spec(*self, *rhs),
    {
        Vector2 { x: add_double(self.x, rhs.x), y: add_double(self.y, rhs.y) }
    }

    /// This vector scaled by a double given as its bit pattern: total, and
    /// the product is not re-validated, so a non-finite scalar may give a
    /// non-finite vector.
    pub fn mul(&self, scalar: u64) -> (r: Vector2)
        ensures
            r == scaled_spec(*self, scalar),
    {
        Vector2 { x: mul_double(self.x, scalar), y: mul_double(self.y, scalar) }
    }

    /// A vector reads as a sequence of fixed length 2, whatever its
    /// coordinates hold.
    pub fn len(&self) -> (r: usize)
        ensures
            r == 2,
    {
        2
    }
}

impl PartialEq for Vector2 {
    fn eq(&self, other: &Vector2) -> (r: bool) {
        eq_double(self.x, other.x) && eq_double(self.y, other.y)
    }
}

impl vstd::std_specs::cmp::PartialEqSpecImpl for Vector2 {
    open spec fn obeys_eq_spec() -> bool {
        true
    }

    open spec fn eq_spec(&self, other: &Vector2) -> bool {
        vectors_equal(*self, *other)
    }
}

/// The inner product of a vector with itself is exactly its squared length:
/// the two operations name the same IEEE-754 computation.
pub proof fn lemma_dot_self_is_length_squared(v: Vector2)
    ensures
        dot_spec(v, v) == length_sq_spec(v),
{
}

/// Normalizing a zero vector, of either zero sign in either coordinate,
/// yields the canonical unit vector along the x axis; together with
/// `normalized` being total, normalization never fails.
pub proof fn lemma_normalized_zero(v: Vector2)
    requires
        is_zero_spec(v),
    ensures
        normalized_spec(v) == unit_x(),
{
}

} // verus!
