//! Bit-level facts about register values that the drivers rely on:
//! masks bound what they select, a field reads back what was written into
//! it, and a write to one field leaves the other bits alone.

use vstd::prelude::*;

verus! {

/// Masking never yields more than the mask or the value.
pub proof fn lemma_and_le(x: u32, k: u32)
    by (bit_vector)
    ensures
        x & k <= k,
        x & k <= x,
{
}

/// `m` is one of the masks 2^n - 1 for n in 1..=16.
pub open spec fn is_low_mask(m: u32) -> bool {
    ||| m == 0x1
    ||| m == 0x3
    ||| m == 0x7
    ||| m == 0xF
    ||| m == 0x1F
    ||| m == 0x3F
    ||| m == 0x7F
    ||| m == 0xFF
    ||| m == 0x1FF
    ||| m == 0x3FF
    ||| m == 0x7FF
    ||| m == 0xFFF
    ||| m == 0x1FFF
    ||| m == 0x3FFF
    ||| m == 0x7FFF
    ||| m == 0xFFFF
}

/// A value no larger than a low-bits mask (a mask of the form 2^n - 1)
/// has no bits outside it.
pub proof fn lemma_fits_low_mask(v: u32, m: u32)
    by (bit_vector)
    requires
        is_low_mask(m),
        v <= m,
    ensures
        v & m == v,
{
}

/// A masked update puts the masked bits of the value in and keeps the rest.
pub proof fn lemma_masked_update(c: u32, m: u32, v: u32)
    by (bit_vector)
    ensures
        ((c & !m) | (v & m)) & m == v & m,
        ((c & !m) | (v & m)) & !m == c & !m,
        k_disjoint_kept(c, m, v),
{
}

/// Bits outside the mask are kept by a masked update, for every mask
/// disjoint from it.
pub open spec fn k_disjoint_kept(c: u32, m: u32, v: u32) -> bool {
    forall|k: u32| k & m == 0 ==> #[trigger] (((c & !m) | (v & m)) & k) == c & k
}

/// The driver's form of a masked update,
/// `(c & !(m & (m ^ v))) | (m & v)`, is a masked update.
pub proof fn lemma_masked_write(c: u32, m: u32, v: u32)
    by (bit_vector)
    ensures
        (c & !(m & (m ^ v))) | (m & v) == (c & !m) | (v & m),
{
}

/// Setting a flag makes it read as set; clearing it makes it read as
/// clear; other bits are kept either way.
pub proof fn lemma_flag(x: u32, b: u32, k: u32)
    by (bit_vector)
    ensures
        (x | b) & b == b,
        (x & !b) & b == 0,
        k & b == 0 ==> (x | b) & k == x & k,
        k & b == 0 ==> (x & !b) & k == x & k,
{
}

/// A single bit below 32 is never zero, and two different single bits do
/// not overlap.
pub proof fn lemma_single_bit(c: u32, d: u32)
    by (bit_vector)
    requires
        c < 32,
        d < 32,
    ensures
        1u32 << c != 0,
        c != d ==> (1u32 << c) & (1u32 << d) == 0,
{
}

/// Shifting right by at least one bit at least halves a word.
pub proof fn lemma_shr_half(x: u32, s: u32)
    by (bit_vector)
    requires
        1 <= s < 32,
    ensures
        x >> s <= x / 2,
{
}

/// The upper half of a word, shifted down, fits 16 bits.
pub proof fn lemma_high_half(x: u32)
    by (bit_vector)
    ensures
        x >> 16 <= 0xFFFF,
        (x >> 16) & 0xFFFF == x >> 16,
{
}

/// Truncating a 64-bit value keeps its low 32 bits.
pub proof fn lemma_truncate_u64(x: u64)
    by (bit_vector)
    ensures
        x as u32 == x % 0x1_0000_0000,
{
}

} // verus!
