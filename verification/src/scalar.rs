//! Real numbers as binary64 bit patterns.
//!
//! A `u64` here is the IEEE-754 binary64 encoding of a number: one sign bit,
//! eleven exponent bits, fifty-two fraction bits. Only what can be read off
//! the encoding is decided here; no arithmetic is done on the numbers.

use vstd::prelude::*;

verus! {

/// The encoding of `+0.0`.
pub const ZERO_BITS: u64 = 0;

/// The encoding of `-0.0`: the sign bit alone.
pub const NEGATIVE_ZERO_BITS: u64 = 0x8000_0000_0000_0000;

/// The encoding of `1.0`.
pub const ONE_BITS: u64 = 0x3FF0_0000_0000_0000;

/// The exponent field of an encoding, moved down to the low eleven bits.
pub open spec fn exponent_field(bits: u64) -> u64 {
    (bits >> 52) & 0x7FF
}

/// An encoding stands for a real number, and not for an infinity or a NaN,
/// exactly when its exponent field is not all ones.
pub open spec fn is_finite(bits: u64) -> bool {
    exponent_field(bits) != 0x7FF
}

/// An encoding stands for zero when it is `+0.0` or `-0.0`.
pub open spec fn is_zero(bits: u64) -> bool {
    bits == ZERO_BITS || bits == NEGATIVE_ZERO_BITS
}

/// An encoding stands for one when it is that of `1.0`.
pub open spec fn is_one(bits: u64) -> bool {
    bits == ONE_BITS
}

/// Decides whether an encoding stands for a real number.
pub fn bits_are_finite(bits: u64) -> (finite: bool)
    ensures
        finite == is_finite(bits),
{
    ((bits >> 52) & 0x7FF) != 0x7FF
}

/// Decides whether an encoding stands for zero, of either sign.
pub fn bits_are_zero(bits: u64) -> (zero: bool)
    ensures
        zero == is_zero(bits),
{
    bits == ZERO_BITS || bits == NEGATIVE_ZERO_BITS
}

/// Decides whether an encoding stands for one.
pub fn bits_are_one(bits: u64) -> (one: bool)
    ensures
        one == is_one(bits),
{
    bits == ONE_BITS
}

/// Zero and one, as encoded, are real numbers.
pub proof fn lemma_zero_and_one_are_finite()
    ensures
        is_finite(ZERO_BITS),
        is_finite(NEGATIVE_ZERO_BITS),
        is_finite(ONE_BITS),
{
    assert((0u64 >> 52) & 0x7FF != 0x7FF) by (bit_vector);
    assert((0x8000_0000_0000_0000u64 >> 52) & 0x7FF != 0x7FF) by (bit_vector);
    assert((0x3FF0_0000_0000_0000u64 >> 52) & 0x7FF != 0x7FF) by (bit_vector);
}

/// The encoding with its sign bit cleared: the encoding of the absolute
/// value.
pub open spec fn magnitude(bits: u64) -> u64 {
    bits & 0x7FFF_FFFF_FFFF_FFFF
}

/// The sign bit of an encoding is set.
pub open spec fn is_negative(bits: u64) -> bool {
    bits & 0x8000_0000_0000_0000 != 0
}

/// An encoding stands for no number at all when its exponent field is all
/// ones and its fraction is not zero.
pub open spec fn is_nan(bits: u64) -> bool {
    magnitude(bits) > 0x7FF0_0000_0000_0000
}

/// An integer that orders encodings as the numbers they stand for are
/// ordered. Among encodings that are not NaN, the magnitudes are ordered as
/// the absolute values are; a set sign bit mirrors the order. Both zeros
/// have the key zero.
pub open spec fn order_key(bits: u64) -> int {
    if is_negative(bits) {
        -(magnitude(bits) as int)
    } else {
        magnitude(bits) as int
    }
}

/// Decides whether an encoding stands for no number.
pub fn bits_are_nan(bits: u64) -> (nan: bool)
    ensures
        nan == is_nan(bits),
{
    (bits & 0x7FFF_FFFF_FFFF_FFFF) > 0x7FF0_0000_0000_0000
}

/// Decides whether the number of one encoding is at most that of another.
/// The answer is that of the order of the numbers where neither is NaN.
pub fn bits_at_most(a: u64, b: u64) -> (le: bool)
    ensures
        le == (order_key(a) <= order_key(b)),
{
    let a_magnitude: u64 = a & 0x7FFF_FFFF_FFFF_FFFF;
    let b_magnitude: u64 = b & 0x7FFF_FFFF_FFFF_FFFF;
    let a_negative: bool = a & 0x8000_0000_0000_0000 != 0;
    let b_negative: bool = b & 0x8000_0000_0000_0000 != 0;
    if a_negative {
        if b_negative {
            b_magnitude <= a_magnitude
        } else {
            true
        }
    } else {
        if b_negative {
            a_magnitude == 0 && b_magnitude == 0
        } else {
            a_magnitude <= b_magnitude
        }
    }
}

} // verus!
