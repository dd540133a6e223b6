//! Bit-level access to single bytes, with a fixed indexing convention:
//! bit-index 0 is the least-significant bit (it contributes `2^0` to the
//! byte's value) and bit-index 7 is the most-significant bit (`2^7`).
//! Equivalently, index `i` reads or writes the mask `1 << i`.
//!
//! The library offers three types: [`Bit`], a single boolean-valued bit;
//! [`Byte`], an 8-bit container with per-index getters and setters; and
//! [`BitIter`], which walks the 8 bits of a byte from index 0 up to index 7.
//! The array constructors of [`Byte`] are the one place where a different
//! order applies: they read their input in big-endian display order, so the
//! first array element names the most-significant bit.

mod bit;
mod bit_iter;
mod bits;
mod byte;

pub use bit::Bit;
pub use bit_iter::BitIter;
pub use bits::bit_weight;
pub use bits::bits_value;
pub use bits::byte_from_bits;
pub use bits::lemma_bits_round_trip;
pub use bits::nth_bit;
pub use byte::Byte;
