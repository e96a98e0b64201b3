use vstd::prelude::*;
use crate::bits::{eq_bits, eq_double};
use crate::vector::{Vector2, vectors_equal};

verus! {

/// The comparison operators a host may apply to a vector.
#[derive(Clone, Copy, Debug)]
pub enum CmpOp {
    Less,
    LessOrEqual,
    Equal,
    NotEqual,
    Greater,
    GreaterOrEqual,
}

/// What a vector may be compared against: another vector, a sequence of
/// doubles given as bit patterns, or a value of some foreign kind that a
/// vector cannot be compared with.
pub enum Operand {
    Vector(Vector2),
    Numbers(Vec<u64>),
    Foreign,
}

/// A comparison either decides a boolean or signals that the operation is
/// unsupported, leaving the host to fall back rather than fail.
#[derive(Clone, Copy, PartialEq, Eq, Structural, Debug)]
pub enum CmpOutcome {
    Decided(bool),
    NotImplemented,
}

/// Only equality and inequality are ever decided; ordering is unsupported.
pub open spec fn decides(op: CmpOp) -> bool {
    op == CmpOp::Equal || op == CmpOp::NotEqual
}

/// A sequence of doubles matches a vector when it has exactly two elements
/// and they equal the x and the y coordinate, in order, by IEEE-754 `==`.
pub open spec fn seq_matches(s: Seq<u64>, v: Vector2) -> bool {
    s.len() == 2 && eq_bits(s[0], v.x) && eq_bits(s[1], v.y)
}

/// What a rich comparison of `v` against `other` under `op` decides: an
/// ordering operator or a foreign operand is answered `NotImplemented`;
/// equality against a vector or a sequence is decided structurally, and
/// inequality is its negation.
pub open spec fn richcmp_spec(v: Vector2, other: Operand, op: CmpOp) -> CmpOutcome {
    if !decides(op) {
        CmpOutcome::NotImplemented
    } else {
        match other {
            Operand::Vector(w) => CmpOutcome::Decided(
                vectors_equal(w, v) == (op == CmpOp::Equal),
            ),
            Operand::Numbers(vals) => CmpOutcome::Decided(
                seq_matches(vals@, v) == (op == CmpOp::Equal),
            ),
            Operand::Foreign => CmpOutcome::NotImplemented,
        }
    }
}

impl Vector2 {
    /// Rich comparison against a host value.  Equality and inequality are
    /// decided against another vector or against a two-element sequence of
    /// doubles; every ordering operator, and any operand of a foreign kind,
    /// is answered with the unsupported-operation signal.
    pub fn richcmp(&self, other: &Operand, op: CmpOp) -> (r: CmpOutcome)
        ensures
            r == richcmp_spec(*self, *other, op),
    {
        let wants_equal: bool = match op {
            CmpOp::Equal => true,
            CmpOp::NotEqual => false,
            _ => {
                return CmpOutcome::NotImplemented;
            },
        };
        match other {
            Operand::Vector(w) => {
                let eq = eq_double(w.x, self.x) && eq_double(w.y, self.y);
                CmpOutcome::Decided(eq == wants_equal)
            },
            Operand::Numbers(vals) => {
                let eq = vals.len() == 2 && eq_double(vals[0], self.x) && eq_double(
                    vals[1],
                    self.y,
                );
                CmpOutcome::Decided(eq == wants_equal)
            },
            Operand::Foreign => CmpOutcome::NotImplemented,
        }
    }
}

} // verus!
