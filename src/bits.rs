//! Bit-range writes on integer words, through the `bitfield` crate.
use bitfield::{BitMut, BitRangeMut};
use vstd::prelude::*;

verus! {

/// The mask of bits `lsb..=msb` of a 64-bit word, built as `bitfield` builds it.
pub open spec fn range_mask_u64(msb: u64, lsb: u64) -> u64 {
    (!0u64 << ((63 - msb) as u64)) >> ((63 - msb + lsb) as u64) << lsb
}

/// The mask of bits `lsb..=msb` of a 16-bit word, built as `bitfield` builds it.
pub open spec fn range_mask_u16(msb: u16, lsb: u16) -> u16 {
    (!0u16 << ((15 - msb) as u16)) >> ((15 - msb + lsb) as u16) << lsb
}

/// Relies on `bitfield::BitRangeMut<u64>::set_bit_range` for `u64`: bits
/// `lsb..=msb` of the word take the low bits of `value`, the others are kept.
/// The crate shifts by `63 - msb`, so `msb` must be below 64, and it asserts
/// `msb >= lsb`.
#[verifier::external_body]
pub(crate) fn set_bit_range_u64(word: u64, msb: usize, lsb: usize, value: u64) -> (r: u64)
    requires
        lsb <= msb < 64,
    ensures
        r == (word & !range_mask_u64(msb as u64, lsb as u64)) | ((value << (lsb as u64))
            & range_mask_u64(msb as u64, lsb as u64)),
{
    let mut w = word;
    w.set_bit_range(msb, lsb, value);
    w
}

/// Relies on `bitfield::BitRangeMut<u16>::set_bit_range` for `u16`: bits
/// `lsb..=msb` of the word take the low bits of `value`, the others are kept.
/// The crate shifts by `15 - msb`, so `msb` must be below 16, and it asserts
/// `msb >= lsb`.
#[verifier::external_body]
pub(crate) fn set_bit_range_u16(word: u16, msb: usize, lsb: usize, value: u16) -> (r: u16)
    requires
        lsb <= msb < 16,
    ensures
        r == (word & !range_mask_u16(msb as u16, lsb as u16)) | ((value << (lsb as u16))
            & range_mask_u16(msb as u16, lsb as u16)),
{
    let mut w = word;
    w.set_bit_range(msb, lsb, value);
    w
}

/// Relies on `bitfield::BitMut::set_bit` for `u16`, which writes `value as u8`
/// into the one-bit range `bit..=bit`: that bit becomes `value`, the others
/// are kept.
#[verifier::external_body]
pub(crate) fn set_bit_u16(word: u16, bit: usize, value: bool) -> (r: u16)
    requires
        bit < 16,
    ensures
        r == (if value { word | (1u16 << (bit as u16)) } else { word & !(1u16 << (bit as u16)) }),
{
    let mut w = word;
    w.set_bit(bit, value);
    w
}

} // verus!
