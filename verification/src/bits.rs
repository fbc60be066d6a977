//! Small facts about the byte- and bit-packing operations the register file
//! and the renderer use.

use vstd::prelude::*;

verus! {

/// Packing two bytes into a word is the same as `hi * 256 + lo`.
pub proof fn lemma_word_combine(hi: u8, lo: u8)
    ensures
        ((hi as u16) << 8 | (lo as u16)) == hi * 256 + lo,
{
    assert((hi as u16) << 8 | (lo as u16) == (hi as u16) * 256 + (lo as u16)) by (bit_vector);
}

/// Packing three channel bytes into a 24-bit word is positional arithmetic.
pub proof fn lemma_rgb_pack(r: u8, g: u8, b: u8)
    ensures
        ((r as u32) << 16 | (g as u32) << 8 | (b as u32)) == r * 0x10000 + g * 0x100 + b,
{
    assert((r as u32) << 16 | (g as u32) << 8 | (b as u32) == (r as u32) * 0x10000 + (g as u32)
        * 0x100 + (b as u32)) by (bit_vector);
}

/// Masking with `m` never exceeds `m`.
pub proof fn lemma_mask_bound(x: u8, m: u8)
    ensures
        x & m <= m,
{
    assert(x & m <= m) by (bit_vector);
}

/// A word is its low byte plus 256 times its high byte.
pub proof fn lemma_word_split(w: u16)
    ensures
        (w & 0xff) + 256 * (w >> 8) == w,
        w >> 8 <= 0xff,
        w & 0xff <= 0xff,
{
    assert((w & 0xff) + 256 * (w >> 8) == w && (w >> 8) <= 0xff && (w & 0xff) <= 0xff)
        by (bit_vector);
}

} // verus!
