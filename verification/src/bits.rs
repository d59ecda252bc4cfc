//! Helpers for extracting bit fields from instruction words, following the
//! `[hi:lo]` convention of the ARM architecture manual.

use vstd::prelude::*;

verus! {

/// The bits `[hi:lo]` of `word`, shifted down to the low end.
pub open spec fn spec_get_bits(word: u32, hi: u32, lo: u32) -> u32 {
    (word >> lo) & (0xffff_ffffu32 >> ((31 - hi) + lo))
}

/// Whether bit `bit` of `word` is set.
pub open spec fn spec_get_bit(word: u32, bit: u32) -> bool {
    (word >> bit) & 1 > 0
}

/// Extract the bits `[hi:lo]` of `word`. For example, `get_bits(w, 3, 0)` is
/// the low nibble, the `[3:0]` notation the ARM manual uses.
pub fn get_bits(word: u32, hi: u32, lo: u32) -> (r: u32)
    requires
        lo <= hi < 32,
    ensures
        r == spec_get_bits(word, hi, lo),
{
    (word >> lo) & (0xffff_ffffu32 >> ((31 - hi) + lo))
}

/// Whether bit `bit` of `word` is set.
pub fn get_bit(word: u32, bit: u32) -> (r: bool)
    requires
        bit < 32,
    ensures
        r == spec_get_bit(word, bit),
{
    (word >> bit) & 1 > 0
}

} // verus!
