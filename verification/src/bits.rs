//! Bit-range access on 64- and 128-bit words, through the `bitfield` crate.

use bitfield::{BitRange, BitRangeMut};
use vstd::prelude::*;

verus! {

/// Ones in bits `lsb..=msb` of a 64-bit word.
pub open spec fn mask64(msb: usize, lsb: usize) -> u64 {
    (u64::MAX >> ((63 - msb + lsb) as u64)) << (lsb as u64)
}

/// `word` with bits `lsb..=msb` replaced by the low bits of `value`.
pub open spec fn with_bits64(word: u64, msb: usize, lsb: usize, value: u64) -> u64 {
    (word & !mask64(msb, lsb)) | ((value << (lsb as u64)) & mask64(msb, lsb))
}

/// Bits `lsb..=msb` of `word`, shifted down to bit 0.
pub open spec fn bits_of64(word: u64, msb: usize, lsb: usize) -> u64 {
    (word >> (lsb as u64)) & (u64::MAX >> ((63 - msb + lsb) as u64))
}

/// Ones in bits `lsb..=msb` of a 128-bit word.
pub open spec fn mask128(msb: usize, lsb: usize) -> u128 {
    (u128::MAX >> ((127 - msb + lsb) as u128)) << (lsb as u128)
}

/// `word` with bits `lsb..=msb` replaced by the low bits of `value`.
pub open spec fn with_bits128(word: u128, msb: usize, lsb: usize, value: u128) -> u128 {
    (word & !mask128(msb, lsb)) | ((value << (lsb as u128)) & mask128(msb, lsb))
}

/// Bits `lsb..=msb` of `word`, shifted down to bit 0.
pub open spec fn bits_of128(word: u128, msb: usize, lsb: usize) -> u128 {
    (word >> (lsb as u128)) & (u128::MAX >> ((127 - msb + lsb) as u128))
}

/// Reading a bit range just written gives the value written, cut to the
/// range's width; the bits outside the range keep their old values.
pub proof fn lemma_get_after_set64(word: u64, msb: usize, lsb: usize, value: u64)
    requires
        lsb <= msb < 64,
    ensures
        bits_of64(with_bits64(word, msb, lsb, value), msb, lsb) == value & (u64::MAX >> ((63 - msb
            + lsb) as u64)),
        with_bits64(word, msb, lsb, value) & !mask64(msb, lsb) == word & !mask64(msb, lsb),
{
    let lo = lsb as u64;
    let sh = (63 - msb + lsb) as u64;
    let m = (u64::MAX >> sh) << lo;
    let w2 = (word & !m) | ((value << lo) & m);
    assert(w2 == with_bits64(word, msb, lsb, value));
    assert((w2 >> lo) & (u64::MAX >> sh) == value & (u64::MAX >> sh) && w2 & !m == word & !m)
        by (bit_vector)
        requires
            lo < 64,
            sh < 64,
            lo <= sh,
            m == (u64::MAX >> sh) << lo,
            w2 == (word & !m) | ((value << lo) & m),
    ;
}

/// `BitRangeMut::<u64>::set_bit_range` of `bitfield` on a `u64`: the bits
/// `lsb..=msb` of the word take the low `msb - lsb + 1` bits of `value`, the
/// other bits are kept.
#[verifier::external_body]
pub(crate) fn set_bits64(word: u64, msb: usize, lsb: usize, value: u64) -> (r: u64)
    requires
        lsb <= msb < 64,
    ensures
        r == with_bits64(word, msb, lsb, value),
{
    let mut w = word;
    w.set_bit_range(msb, lsb, value);
    w
}

/// `BitRangeMut::<u128>::set_bit_range` of `bitfield` on a `u128`: the bits
/// `lsb..=msb` of the word take the low `msb - lsb + 1` bits of `value`, the
/// other bits are kept.
#[verifier::external_body]
pub(crate) fn set_bits128(word: u128, msb: usize, lsb: usize, value: u128) -> (r: u128)
    requires
        lsb <= msb < 128,
    ensures
        r == with_bits128(word, msb, lsb, value),
{
    let mut w = word;
    w.set_bit_range(msb, lsb, value);
    w
}

/// `BitRange::<u64>::bit_range` of `bitfield` on a `u64`: bits `lsb..=msb`
/// of the word, moved down to bit 0.
#[verifier::external_body]
pub(crate) fn get_bits64(word: u64, msb: usize, lsb: usize) -> (r: u64)
    requires
        lsb <= msb < 64,
    ensures
        r == bits_of64(word, msb, lsb),
{
    word.bit_range(msb, lsb)
}

/// `BitRange::<u128>::bit_range` of `bitfield` on a `u128`: bits
/// `lsb..=msb` of the word, moved down to bit 0.
#[verifier::external_body]
pub(crate) fn get_bits128(word: u128, msb: usize, lsb: usize) -> (r: u128)
    requires
        lsb <= msb < 128,
    ensures
        r == bits_of128(word, msb, lsb),
{
    word.bit_range(msb, lsb)
}

} // verus!
