//! Ranges of bits inside a 32-bit word.
//!
//! The game packs several small numbers into one word. A range is named by
//! its most and least significant bit, both counted from bit 0, both
//! included. The bits are read and written by the `bitfield` crate.

use vstd::arithmetic::power2::pow2;
use vstd::prelude::*;

verus! {

/// The number held by bits `lsb` to `msb` of `word`.
pub open spec fn bit_range_value(word: u32, msb: nat, lsb: nat) -> int {
    (word as int / (pow2(lsb) as int)) % (pow2((msb - lsb + 1) as nat) as int)
}

/// The word that differs from `word` only in bits `lsb` to `msb`, which hold
/// the low bits of `value`.
pub open spec fn with_bit_range(word: u32, msb: nat, lsb: nat, value: u32) -> int {
    word as int - bit_range_value(word, msb, lsb) * (pow2(lsb) as int) + (value as int % (pow2(
        (msb - lsb + 1) as nat,
    ) as int)) * (pow2(lsb) as int)
}

/// Restates [`bit_range_value`] and [`with_bit_range`] for a range whose two
/// powers of two are known numbers: `unit` for the range's lowest bit and
/// `span` for the number of values that the range can hold.
pub proof fn lemma_bit_range(word: u32, msb: nat, lsb: nat, value: u32, unit: int, span: int)
    requires
        lsb <= msb,
        unit == pow2(lsb),
        span == pow2((msb - lsb + 1) as nat),
    ensures
        bit_range_value(word, msb, lsb) == (word as int / unit) % span,
        with_bit_range(word, msb, lsb, value) == word - ((word as int / unit) % span) * unit + (
        value as int % span) * unit,
{
}

/// Reads bits `lsb` to `msb` of `word` with `bitfield`'s
/// `<u32 as BitRange<u32>>::bit_range`. That function shifts the word left
/// until bit `msb` is on top and then right until bit `lsb` is at the bottom,
/// which leaves exactly the number that the range holds.
#[verifier::external_body]
pub(crate) fn bit_range(word: u32, msb: usize, lsb: usize) -> (value: u32)
    requires
        lsb <= msb < 32,
    ensures
        value == bit_range_value(word, msb as nat, lsb as nat),
{
    bitfield::BitRange::<u32>::bit_range(&word, msb, lsb)
}

/// Writes `value` into bits `lsb` to `msb` of `word` with `bitfield`'s
/// `<u32 as BitRangeMut<u32>>::set_bit_range`. That function clears the range
/// and then ors in `value` shifted left by `lsb` and cut to the range, so the
/// bits of `value` above the range's width are dropped and every bit outside
/// the range stays.
#[verifier::external_body]
pub(crate) fn set_bit_range(word: &mut u32, msb: usize, lsb: usize, value: u32)
    requires
        lsb <= msb < 32,
    ensures
        *final(word) == with_bit_range(*old(word), msb as nat, lsb as nat, value),
{
    bitfield::BitRangeMut::<u32>::set_bit_range(word, msb, lsb, value);
}

} // verus!
