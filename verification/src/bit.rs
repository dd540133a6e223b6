//! A single bit, stored as the boolean it denotes.

use vstd::prelude::*;

verus! {

/// Wraps a single bit, whose value is read as follows:
///
/// - `0`: *false*
/// - `1`: *true*
#[derive(Debug, Copy, Clone, PartialEq, Eq, Structural)]
pub struct Bit(bool);

impl View for Bit {
    type V = bool;

    closed spec fn view(&self) -> bool {
        self.0
    }
}

impl Bit {
    /// The bit whose value is "0".
    pub fn get_zero_bit() -> (r: Self)
        ensures
            r@ == false,
    {
        Self(false)
    }

    /// The bit whose value is "1".
    pub fn get_one_bit() -> (r: Self)
        ensures
            r@ == true,
    {
        Self(true)
    }

    /// Wraps a boolean as the bit it denotes.
    pub fn from_bool(bit: bool) -> (r: Self)
        ensures
            r@ == bit,
    {
        Self(bit)
    }

    /// Maps an unsigned value to a bit: 0 becomes "0", and any nonzero
    /// value becomes "1" (a lossy, many-to-one mapping).
    pub fn from_integer(byte: u8) -> (r: Self)
        ensures
            r@ == (byte != 0),
    {
        if byte == 0 {
            Self(false)
        } else {
            Self(true)
        }
    }

    /// True if the bit encapsulated is a "1".
    pub fn is_one(&self) -> (r: bool)
        ensures
            r == self@,
    {
        self.0
    }

    /// True if the bit encapsulated is a "0".
    pub fn is_zero(&self) -> (r: bool)
        ensures
            r == !self@,
    {
        !self.is_one()
    }

    /// The boolean this bit denotes.
    pub fn value(&self) -> (r: bool)
        ensures
            r == self@,
    {
        self.0
    }
}

} // verus!
