//! The integer half of the conversion from raw output to a real number.
//!
//! A 64-bit raw value is split into a high chunk and a low chunk of 32 bits
//! each, the low chunk with its bottom two bits cleared. A 128-bit raw value
//! is split in the same way from its top 64 bits; its bottom 64 bits are
//! discarded. A 32-bit raw value is scaled as it is. The caller scales the
//! chunks by reciprocal constants in floating point and adds them: by
//! `1/(2^32 - 1)` and `1/(2^64 - 1)` for the half-open scale, by `1/2^32`
//! and `1/2^64` for the closed scale.

use vstd::prelude::*;

verus! {

/// The two chunks that a raw value is scaled from.
#[derive(Clone, Copy, Debug, PartialEq, Eq)]
pub struct Chunks {
    /// The upper 32 bits.
    pub high: u32,
    /// The lower 32 bits, rounded down to a multiple of four.
    pub low: u32,
}

/// The chunks of a 64-bit raw value.
pub open spec fn chunks64(raw: u64) -> Chunks {
    Chunks {
        high: (raw / 0x1_0000_0000) as u32,
        low: (raw % 0x1_0000_0000 - raw % 4) as u32,
    }
}

/// The chunks of a 128-bit raw value: those of its top 64 bits.
pub open spec fn chunks128(raw: u128) -> Chunks {
    chunks64((raw / 0x1_0000_0000_0000_0000) as u64)
}

/// Numerator of the exact half-open scale of `c`, over the denominator
/// `2^64 - 1`: `high / (2^32 - 1) + low / (2^64 - 1)` on one fraction bar.
pub open spec fn half_open_numerator(c: Chunks) -> int {
    c.high * 0x1_0000_0001 + c.low
}

/// Numerator of the exact closed scale of `c`, over the denominator `2^64`:
/// `high / 2^32 + low / 2^64` on one fraction bar.
pub open spec fn closed_numerator(c: Chunks) -> int {
    c.high * 0x1_0000_0000 + c.low
}

/// Splits a 64-bit raw value into its chunks.
pub fn split64(raw: u64) -> (c: Chunks)
    ensures
        c == chunks64(raw),
{
    assert(raw >> 32 == raw / 0x1_0000_0000 && raw >> 32 <= 0xffff_ffff && raw & 0xfffffffc == raw
        % 0x1_0000_0000 - raw % 4) by (bit_vector);
    Chunks { high: (raw >> 32) as u32, low: (raw & 0xfffffffc) as u32 }
}

/// Splits a 128-bit raw value into the chunks of its top 64 bits.
pub fn split128(raw: u128) -> (c: Chunks)
    ensures
        c == chunks128(raw),
{
    let top: u128 = raw >> 64;
    assert(top == raw / 0x1_0000_0000_0000_0000 && top <= 0xffff_ffff_ffff_ffff && raw >> 96 == top
        >> 32) by (bit_vector)
        requires
            top == raw >> 64,
    ;
    assert(top >> 32 == top / 0x1_0000_0000 && top >> 32 <= 0xffff_ffff && top & 0xfffffffc == top
        % 0x1_0000_0000 - top % 4) by (bit_vector)
        requires
            top <= 0xffff_ffff_ffff_ffff,
    ;
    Chunks { high: (raw >> 96) as u32, low: ((raw >> 64) & 0xfffffffc) as u32 }
}

/// The exact closed scale of any chunks of a raw value lies in `[0, 1)`: its
/// numerator is below its denominator `2^64`.
pub proof fn lemma_closed_scale_below_one(raw: u64)
    ensures
        0 <= closed_numerator(chunks64(raw)) < 0x1_0000_0000_0000_0000,
{
}

/// The exact half-open scale lies in `[0, 1)`, its numerator below its
/// denominator `2^64 - 1`, exactly when the high chunk is not all ones.
pub proof fn lemma_half_open_scale_below_one(raw: u64)
    ensures
        0 <= half_open_numerator(chunks64(raw)),
        half_open_numerator(chunks64(raw)) < 0xffff_ffff_ffff_ffff <==> chunks64(raw).high
            < 0xffff_ffff,
{
}

} // verus!
