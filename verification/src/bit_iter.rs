//! A pull-based walk over the 8 bits of a byte.

use crate::bit::Bit;
use crate::bits::nth_bit;
use crate::byte::Byte;
use vstd::prelude::*;

verus! {

/// An iterator structure, wrapping a snapshot of a byte and allowing for
/// bit-level traversal: bit-index 0 first, bit-index 7 last. Once the 8
/// bits have been produced it stays exhausted for good.
pub struct BitIter {
    /// The byte-object being wrapped by this iterator.
    byte: Byte,
    /// The index of the next bit that will be dispatched by this iterator.
    idx: usize,
}

impl BitIter {
    /// The raw value of the snapshot this iterator walks over.
    pub closed spec fn spec_byte(self) -> u8 {
        self.byte@
    }

    /// The index of the next bit to be produced.
    pub closed spec fn spec_cursor(self) -> int {
        self.idx as int
    }

    /// The cursor starts at 0 and never passes the end of the byte.
    pub open spec fn wf(self) -> bool {
        0 <= self.spec_cursor() <= 8
    }

    /// Starts a fresh traversal of `byte`, holding an independent copy of
    /// its value: later changes to other handles cannot be observed here.
    pub fn new(byte: Byte) -> (r: Self)
        ensures
            r.wf(),
            r.spec_byte() == byte@,
            r.spec_cursor() == 0,
    {
        Self { byte, idx: 0 }
    }

    /// Produces the bit at the cursor and advances, until all 8 bits are
    /// out; from then on it keeps answering `None`, never an error.
    pub fn next(&mut self) -> (r: Option<Bit>)
        requires
            old(self).wf(),
        ensures
            final(self).wf(),
            final(self).spec_byte() == old(self).spec_byte(),
            (r is None) <==> old(self).spec_cursor() == 8,
            old(self).spec_cursor() < 8 ==> (r matches Some(b) && b@ == nth_bit(
                old(self).spec_byte(),
                old(self).spec_cursor() as u8,
            )) && final(self).spec_cursor() == old(self).spec_cursor() + 1,
            old(self).spec_cursor() == 8 ==> final(self).spec_cursor() == 8,
    {
        if self.idx < 8 {
            let res = Some(self.byte.get_bit(self.idx));
            self.idx = self.idx + 1;
            res
        } else {
            None
        }
    }

    /// Exactly how many bits are still to come: 8 minus the cursor. It
    /// reaches 0 exactly when the iterator is exhausted.
    pub fn remaining(&self) -> (r: usize)
        requires
            self.wf(),
        ensures
            r == 8 - self.spec_cursor(),
    {
        8 - self.idx
    }
}

} // verus!
