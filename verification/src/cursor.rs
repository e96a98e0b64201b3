use vstd::prelude::*;
use crate::vector::Vector2;

verus! {

/// A transient cursor over the two coordinates of a vector.  It owns a copy
/// of the vector, so it stays valid whatever happens to the source, and a
/// position counter that only ever holds 0, 1 or 2: before the x coordinate,
/// before the y coordinate, exhausted.
pub struct VecIter {
    pub v: Vector2,
    pub pos: usize,
}

/// The fresh cursor over `v` that a request to iterate hands out.
pub open spec fn cursor_of(v: Vector2) -> VecIter {
    VecIter { v: v, pos: 0 }
}

impl VecIter {
    /// A cursor is well formed when its position counter is at most 2.
    pub open spec fn wf(&self) -> bool {
        self.pos <= 2
    }

    /// The coordinates the cursor has still to yield, in order.
    pub open spec fn remaining(&self) -> Seq<u64> {
        if self.pos == 0 {
            seq![self.v.x, self.v.y]
        } else if self.pos == 1 {
            seq![self.v.y]
        } else {
            Seq::empty()
        }
    }

    /// Requesting an iterator of a cursor hands the cursor itself on.
    pub fn iter(self) -> (r: VecIter)
        ensures
            r == self,
    {
        self
    }

    /// Yield the next coordinate: the x coordinate first, then the y
    /// coordinate, then exhaustion, reported as `None` forever after.
    pub fn next(&mut self) -> (r: Option<u64>)
        ensures
            final(self).v == old(self).v,
            old(self).wf() ==> final(self).wf(),
            old(self).pos == 0 ==> r == Some(old(self).v.x) && final(self).pos == 1,
            old(self).pos == 1 ==> r == Some(old(self).v.y) && final(self).pos == 2,
            old(self).pos >= 2 ==> r is None && final(self).pos == old(self).pos,
            r matches Some(b) ==> old(self).remaining().len() > 0
                && b == old(self).remaining()[0]
                && final(self).remaining() =~= old(self).remaining().skip(1),
            r is None <==> old(self).remaining().len() == 0,
    {
        if self.pos == 0 {
            self.pos = 1;
            Some(self.v.x)
        } else if self.pos == 1 {
            self.pos = 2;
            Some(self.v.y)
        } else {
            None
        }
    }
}

impl Vector2 {
    /// Begin iterating: hand out a fresh, independent cursor over a copy of
    /// this vector, positioned before the x coordinate.
    pub fn iter(&self) -> (r: VecIter)
        ensures
            r == cursor_of(*self),
            r.remaining() =~= seq![self.x, self.y],
    {
        VecIter { v: *self, pos: 0 }
    }
}

/// Iterating a vector yields exactly its x coordinate, then its y
/// coordinate, then exhaustion: every fresh cursor over `v` carries the same
/// two-element sequence of coordinates, so separate iterations yield the
/// same values and independent cursors cannot interfere.
pub proof fn lemma_iteration_yields_coordinates(v: Vector2)
    ensures
        cursor_of(v).wf(),
        cursor_of(v).remaining() =~= seq![v.x, v.y],
{
}

} // verus!
