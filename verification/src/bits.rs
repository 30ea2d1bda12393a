//! Small bit-level facts about the masks and shifts the register decoders
//! use, proved once here so the rest of the crate can stay in ordinary
//! arithmetic reasoning.

use vstd::prelude::*;

verus! {

/// Masking an 8-bit value never exceeds the mask.
pub proof fn lemma_u8_and_bound(x: u8, m: u8)
    ensures
        x & m <= m,
{
    assert(x & m <= m) by (bit_vector);
}

/// Masking a 32-bit value never exceeds the mask.
pub proof fn lemma_u32_and_bound(x: u32, m: u32)
    ensures
        x & m <= m,
{
    assert(x & m <= m) by (bit_vector);
}

/// The high nibble of a byte is at most 15.
pub proof fn lemma_u8_shr4_bound(x: u8)
    ensures
        x >> 4 <= 15,
{
    assert(x >> 4 <= 15) by (bit_vector);
}

/// A right shift never increases a 32-bit value.
pub proof fn lemma_u32_shr_le(x: u32, s: u32)
    requires
        s < 32,
    ensures
        x >> s <= x,
{
    assert(s < 32 ==> x >> s <= x) by (bit_vector);
}

/// Composing a 3-bit high register with an 8-bit low register gives the
/// 11-bit frequency value `high * 256 + low`, at most 2047.
pub proof fn lemma_freq_compose(high: u32, low: u32)
    requires
        high <= 7,
        low <= 255,
    ensures
        (high << 8) | low == high * 256 + low,
        (high << 8) | low <= 2047,
{
    assert(high <= 7 && low <= 255 ==> ((high << 8) | low == high * 256 + low) && ((high << 8) | low
        <= 2047)) by (bit_vector);
}

} // verus!
