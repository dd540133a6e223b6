//! An 8-bit container with per-index access to its constituent bits.

use crate::bit::Bit;
use crate::bit_iter::BitIter;
use crate::bits::byte_from_bits;
use crate::bits::lemma_bits_round_trip;
use crate::bits::nth_bit;
use vstd::prelude::*;

verus! {

/// A composition of 8 bit-values, as a byte. Bit-index 0 is the
/// least-significant bit, bit-index 7 the most-significant.
#[derive(Debug, Copy, Clone, PartialEq, Eq, Structural)]
pub struct Byte(u8);

impl View for Byte {
    type V = u8;

    closed spec fn view(&self) -> u8 {
        self.0
    }
}

impl Default for Byte {
    /// The byte with every bit clear.
    fn default() -> (r: Self)
        ensures
            r@ == 0,
    {
        Self(0)
    }
}

impl Byte {
    /// Wraps a raw byte value, preserving its bit pattern exactly.
    pub fn from_raw(byte: u8) -> (r: Self)
        ensures
            r@ == byte,
    {
        Self(byte)
    }

    /// Builds a byte from 8 booleans in big-endian display order: element 0
    /// of the array sets bit-index 7 (most significant), element 7 sets
    /// bit-index 0 (least significant).
    pub fn from_bits(bits: [bool; 8]) -> (r: Self)
        ensures
            r@ == byte_from_bits(bits@),
            forall|i: u8| i < 8 ==> nth_bit(r@, i) == bits@[7 - i as int],
    {
        let mut byte = Self(0);
        byte.set_bit(bits[0], 7);
        byte.set_bit(bits[1], 6);
        byte.set_bit(bits[2], 5);
        byte.set_bit(bits[3], 4);
        byte.set_bit(bits[4], 3);
        byte.set_bit(bits[5], 2);
        byte.set_bit(bits[6], 1);
        byte.set_bit(bits[7], 0);
        proof {
            lemma_bits_round_trip(byte@);
        }
        byte
    }

    /// Builds a byte from 8 bits in big-endian display order, exactly as
    /// `from_bits` does for booleans.
    pub fn from_bit_array(bits: [Bit; 8]) -> (r: Self)
        ensures
            r@ == byte_from_bits(bits@.map_values(|b: Bit| b@)),
            forall|i: u8| i < 8 ==> nth_bit(r@, i) == bits@[7 - i as int]@,
    {
        let mut byte = Self(0);
        byte.set_bit(bits[0].value(), 7);
        byte.set_bit(bits[1].value(), 6);
        byte.set_bit(bits[2].value(), 5);
        byte.set_bit(bits[3].value(), 4);
        byte.set_bit(bits[4].value(), 3);
        byte.set_bit(bits[5].value(), 2);
        byte.set_bit(bits[6].value(), 1);
        byte.set_bit(bits[7].value(), 0);
        proof {
            lemma_bits_round_trip(byte@);
            assert(forall|k: int|
                0 <= k < 8 ==> bits@.map_values(|b: Bit| b@)[k] == bits@[k]@);
        }
        byte
    }

    /// Getter for the bit at index `idx`, per the `1 << idx` convention.
    pub fn get_bit(&self, idx: usize) -> (r: Bit)
        requires
            idx < 8,
        ensures
            r@ == nth_bit(self@, idx as u8),
    {
        Bit::from_bool(self.0 & (1u8 << (idx as u8)) != 0)
    }

    /// Getter for the right-most bit in the byte. (Eighth left-most bit.)
    pub fn get_0(&self) -> (r: Bit)
        ensures
            r@ == nth_bit(self@, 0),
    {
        self.get_bit(0)
    }

    /// Getter for the second right-most bit in the byte. (Seventh left-most bit.)
    pub fn get_1(&self) -> (r: Bit)
        ensures
            r@ == nth_bit(self@, 1),
    {
        self.get_bit(1)
    }

    /// Getter for the third right-most bit in the byte. (Sixth left-most bit.)
    pub fn get_2(&self) -> (r: Bit)
        ensures
            r@ == nth_bit(self@, 2),
    {
        self.get_bit(2)
    }

    /// Getter for the fourth right-most bit in the byte. (Fifth left-most bit.)
    pub fn get_3(&self) -> (r: Bit)
        ensures
            r@ == nth_bit(self@, 3),
    {
        self.get_bit(3)
    }

    /// Getter for the fifth right-most bit in the byte. (Fourth left-most bit.)
    pub fn get_4(&self) -> (r: Bit)
        ensures
            r@ == nth_bit(self@, 4),
    {
        self.get_bit(4)
    }

    /// Getter for the sixth right-most bit in the byte. (Third left-most bit.)
    pub fn get_5(&self) -> (r: Bit)
        ensures
            r@ == nth_bit(self@, 5),
    {
        self.get_bit(5)
    }

    /// Getter for the seventh right-most bit in the byte. (Second left-most bit.)
    pub fn get_6(&self) -> (r: Bit)
        ensures
            r@ == nth_bit(self@, 6),
    {
        self.get_bit(6)
    }

    /// Getter for the eighth right-most bit in the byte. (Left-most bit.)
    pub fn get_7(&self) -> (r: Bit)
        ensures
            r@ == nth_bit(self@, 7),
    {
        self.get_bit(7)
    }

    /// Setter for the bit at index `idx`: sets it to the mask `1 << idx`
    /// when `val` holds, clears it otherwise, and touches no other bit.
    pub fn set_bit(&mut self, val: bool, idx: usize)
        requires
            idx < 8,
        ensures
            final(self)@ == (if val {
                old(self)@ | (1u8 << (idx as u8))
            } else {
                old(self)@ & !(1u8 << (idx as u8))
            }),
            nth_bit(final(self)@, idx as u8) == val,
            forall|j: u8|
                j < 8 && j != idx as u8 ==> #[trigger] nth_bit(final(self)@, j) == nth_bit(
                    old(self)@,
                    j,
                ),
    {
        let i: u8 = idx as u8;
        if val {
            self.0 = self.0 | (1u8 << i);
        } else {
            self.0 = self.0 & !(1u8 << i);
        }
        proof {
            let v0 = old(self)@;
            let v1 = self@;
            assert(nth_bit(v1, i) == val && forall|j: u8|
                j < 8 && j != i ==> #[trigger] nth_bit(v1, j) == nth_bit(v0, j)) by (bit_vector)
                requires
                    i < 8,
                    v1 == (if val {
                        v0 | (1u8 << i)
                    } else {
                        v0 & !(1u8 << i)
                    }),
            ;
        }
    }

    /// Setter for the right-most bit in the byte. (Eighth left-most bit.)
    pub fn set_0(&mut self, val: bool)
        ensures
            nth_bit(final(self)@, 0) == val,
            forall|j: u8|
                j < 8 && j != 0 ==> #[trigger] nth_bit(final(self)@, j) == nth_bit(old(self)@, j),
    {
        self.set_bit(val, 0);
    }

    /// Setter for the second right-most bit in the byte. (Seventh left-most bit.)
    pub fn set_1(&mut self, val: bool)
        ensures
            nth_bit(final(self)@, 1) == val,
            forall|j: u8|
                j < 8 && j != 1 ==> #[trigger] nth_bit(final(self)@, j) == nth_bit(old(self)@, j),
    {
        self.set_bit(val, 1);
    }

    /// Setter for the third right-most bit in the byte. (Sixth left-most bit.)
    pub fn set_2(&mut self, val: bool)
        ensures
            nth_bit(final(self)@, 2) == val,
            forall|j: u8|
                j < 8 && j != 2 ==> #[trigger] nth_bit(final(self)@, j) == nth_bit(old(self)@, j),
    {
        self.set_bit(val, 2);
    }

    /// Setter for the fourth right-most bit in the byte. (Fifth left-most bit.)
    pub fn set_3(&mut self, val: bool)
        ensures
            nth_bit(final(self)@, 3) == val,
            forall|j: u8|
                j < 8 && j != 3 ==> #[trigger] nth_bit(final(self)@, j) == nth_bit(old(self)@, j),
    {
        self.set_bit(val, 3);
    }

    /// Setter for the fifth right-most bit in the byte. (Fourth left-most bit.)
    pub fn set_4(&mut self, val: bool)
        ensures
            nth_bit(final(self)@, 4) == val,
            forall|j: u8|
                j < 8 && j != 4 ==> #[trigger] nth_bit(final(self)@, j) == nth_bit(old(self)@, j),
    {
        self.set_bit(val, 4);
    }

    /// Setter for the sixth right-most bit in the byte. (Third left-most bit.)
    pub fn set_5(&mut self, val: bool)
        ensures
            nth_bit(final(self)@, 5) == val,
            forall|j: u8|
                j < 8 && j != 5 ==> #[trigger] nth_bit(final(self)@, j) == nth_bit(old(self)@, j),
    {
        self.set_bit(val, 5);
    }

    /// Setter for the seventh right-most bit in the byte. (Second left-most bit.)
    pub fn set_6(&mut self, val: bool)
        ensures
            nth_bit(final(self)@, 6) == val,
            forall|j: u8|
                j < 8 && j != 6 ==> #[trigger] nth_bit(final(self)@, j) == nth_bit(old(self)@, j),
    {
        self.set_bit(val, 6);
    }

    /// Setter for the eighth right-most bit in the byte. (Left-most bit.)
    pub fn set_7(&mut self, val: bool)
        ensures
            nth_bit(final(self)@, 7) == val,
            forall|j: u8|
                j < 8 && j != 7 ==> #[trigger] nth_bit(final(self)@, j) == nth_bit(old(self)@, j),
    {
        self.set_bit(val, 7);
    }

    /// Getter for the byte-representation of the internal bits being managed.
    pub fn as_byte(&self) -> (r: u8)
        ensures
            r == self@,
    {
        self.0
    }

    /// Consumes the byte's value into an iterator over its 8 bits, from
    /// bit-index 0 (least significant) up to bit-index 7 (most significant).
    /// The iterator holds its own copy, fixed at this point.
    pub fn into_iter(self) -> (r: BitIter)
        ensures
            r.wf(),
            r.spec_byte() == self@,
            r.spec_cursor() == 0,
    {
        BitIter::new(self)
    }
}

} // verus!
