//! The mathematical model shared by the whole library: what it means for a
//! bit of a byte to be set, and how the 8 indexed bits of a byte determine
//! its numeric value.

use vstd::prelude::*;

verus! {

/// True iff bit `i` of `v` is set, where index 0 is the least-significant
/// bit and index 7 the most-significant: the `1 << i` convention.
pub open spec fn nth_bit(v: u8, i: u8) -> bool {
    v & (1u8 << i) != 0
}

/// The numeric contribution of one bit: its weight when set, 0 when clear.
pub open spec fn bit_weight(b: bool, w: int) -> int {
    if b {
        w
    } else {
        0
    }
}

/// The value reconstructed from the 8 indexed bits of `v`:
/// the sum of `bit(i) * 2^i` over indices 0 through 7.
pub open spec fn bits_value(v: u8) -> int {
    bit_weight(nth_bit(v, 0), 0x01) + bit_weight(nth_bit(v, 1), 0x02) + bit_weight(
        nth_bit(v, 2),
        0x04,
    ) + bit_weight(nth_bit(v, 3), 0x08) + bit_weight(nth_bit(v, 4), 0x10) + bit_weight(
        nth_bit(v, 5),
        0x20,
    ) + bit_weight(nth_bit(v, 6), 0x40) + bit_weight(nth_bit(v, 7), 0x80)
}

/// The byte denoted by 8 bits given in big-endian display order: the element
/// at position 0 is the most-significant bit (weight `2^7`), the element at
/// position 7 the least-significant (weight `2^0`).
pub open spec fn byte_from_bits(s: Seq<bool>) -> int {
    bit_weight(s[0], 0x80) + bit_weight(s[1], 0x40) + bit_weight(s[2], 0x20) + bit_weight(
        s[3],
        0x10,
    ) + bit_weight(s[4], 0x08) + bit_weight(s[5], 0x04) + bit_weight(s[6], 0x02) + bit_weight(
        s[7],
        0x01,
    )
}

/// Law: reading all 8 bits of a raw value and recombining them by
/// `sum of bit(i) * 2^i` reproduces that value exactly.
pub proof fn lemma_bits_round_trip(v: u8)
    ensures
        bits_value(v) == v,
{
    assert(bits_value(v) == v) by (bit_vector);
}

} // verus!
