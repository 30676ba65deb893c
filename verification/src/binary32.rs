//! The encoding of an IEEE-754 binary32 number: bit 31 is the sign, bits 30
//! to 23 the biased exponent, bits 22 to 0 the fraction.
//!
//! A finite encoding stands for `exact_value(bits) / 2^149`. The least
//! positive number is `2^-149`, so every finite number is a whole multiple of
//! it, and `exact_value` is that multiple.

use vstd::prelude::*;
use vstd::arithmetic::power2::pow2;

verus! {

/// The sign bit of an encoding.
pub const SIGN_MASK: u32 = 0x8000_0000;

/// The eight exponent bits of an encoding.
pub const EXPONENT_MASK: u32 = 0x7f80_0000;

/// The twenty-three fraction bits of an encoding.
pub const FRACTION_MASK: u32 = 0x007f_ffff;

/// The leading significand bit that a normal encoding leaves out.
pub const HIDDEN_BIT: u32 = 0x0080_0000;

/// The encoding of positive zero.
pub const POSITIVE_ZERO: u32 = 0;

/// Whether the sign bit of `bits` is set.
pub open spec fn sign_of(bits: u32) -> bool {
    bits & SIGN_MASK != 0
}

/// The 31 bits of `bits` below the sign: exponent and fraction.
pub open spec fn magnitude_of(bits: u32) -> u32 {
    bits & !SIGN_MASK
}

/// The biased exponent: 0 for zeros and subnormals, 255 for infinities and
/// NaNs.
pub open spec fn exponent_of(bits: u32) -> nat {
    ((bits & EXPONENT_MASK) >> 23) as nat
}

/// The fraction bits.
pub open spec fn fraction_of(bits: u32) -> nat {
    (bits & FRACTION_MASK) as nat
}

/// Whether `bits` encodes a number: a zero, a subnormal or a normal, and
/// neither an infinity nor a NaN.
pub open spec fn is_finite(bits: u32) -> bool {
    exponent_of(bits) != 255
}

/// The significand as a whole number: the fraction alone where the exponent
/// is 0, the fraction under the hidden bit otherwise.
pub open spec fn significand_of(bits: u32) -> nat {
    if exponent_of(bits) == 0 {
        fraction_of(bits)
    } else {
        HIDDEN_BIT as nat + fraction_of(bits)
    }
}

/// The power of two by which the significand is multiplied in `exact_value`.
pub open spec fn scale_of(bits: u32) -> nat {
    if exponent_of(bits) == 0 {
        0
    } else {
        (exponent_of(bits) - 1) as nat
    }
}

/// The absolute value of the encoded number, as a multiple of `2^-149`.
pub open spec fn exact_magnitude(bits: u32) -> nat {
    significand_of(bits) * pow2(scale_of(bits))
}

/// The encoded number, as a multiple of `2^-149`. It is meant for finite
/// encodings.
pub open spec fn exact_value(bits: u32) -> int {
    if sign_of(bits) {
        -(exact_magnitude(bits) as int)
    } else {
        exact_magnitude(bits) as int
    }
}

/// The encoding of the negated number: `bits` with the sign bit inverted.
pub open spec fn negated(bits: u32) -> u32 {
    bits ^ SIGN_MASK
}

/// Whether the sign bit is set.
pub fn is_negative(bits: u32) -> (r: bool)
    ensures
        r == sign_of(bits),
{
    bits & SIGN_MASK != 0
}

/// The biased exponent.
pub fn exponent(bits: u32) -> (e: u32)
    ensures
        e == exponent_of(bits),
        e <= 255,
{
    assert((bits & 0x7f80_0000u32) >> 23u32 <= 255) by (bit_vector);
    (bits & EXPONENT_MASK) >> 23u32
}

/// The significand as a whole number, below `2^24`.
pub fn significand(bits: u32) -> (m: u32)
    ensures
        m == significand_of(bits),
        m < 0x100_0000,
        exponent_of(bits) != 0 ==> m >= HIDDEN_BIT,
{
    assert(bits & 0x007f_ffffu32 < 0x80_0000) by (bit_vector);
    if exponent(bits) == 0 {
        bits & FRACTION_MASK
    } else {
        HIDDEN_BIT + (bits & FRACTION_MASK)
    }
}

/// The power of two that scales the significand, at most 254.
pub fn scale(bits: u32) -> (s: u32)
    ensures
        s == scale_of(bits),
        s <= 254,
{
    let e = exponent(bits);
    if e == 0 {
        0
    } else {
        e - 1
    }
}

/// Negates the number that `bits` encodes. Negation is exact for every
/// encoding, zeros, infinities and NaNs included: only the sign changes.
pub fn negate(bits: u32) -> (r: u32)
    ensures
        r == negated(bits),
{
    bits ^ SIGN_MASK
}

/// Negation inverts the sign and keeps exponent and fraction.
pub proof fn negated_flips_sign_only(bits: u32)
    ensures
        sign_of(negated(bits)) == !sign_of(bits),
        magnitude_of(negated(bits)) == magnitude_of(bits),
        exponent_of(negated(bits)) == exponent_of(bits),
        fraction_of(negated(bits)) == fraction_of(bits),
{
    assert(((bits ^ 0x8000_0000u32) & 0x8000_0000u32 != 0) == !(bits & 0x8000_0000u32 != 0))
        by (bit_vector);
    assert((bits ^ 0x8000_0000u32) & !0x8000_0000u32 == bits & !0x8000_0000u32) by (bit_vector);
    assert((bits ^ 0x8000_0000u32) & 0x7f80_0000u32 == bits & 0x7f80_0000u32) by (bit_vector);
    assert((bits ^ 0x8000_0000u32) & 0x007f_ffffu32 == bits & 0x007f_ffffu32) by (bit_vector);
}

/// An encoding is determined by its sign and its magnitude, so the negated
/// encoding is the only one with the opposite sign and the same magnitude.
pub proof fn sign_and_magnitude_determine(a: u32, b: u32)
    requires
        sign_of(a) == sign_of(b),
        magnitude_of(a) == magnitude_of(b),
    ensures
        a == b,
{
    assert((a & 0x8000_0000u32 != 0) == (b & 0x8000_0000u32 != 0) && a & !0x8000_0000u32 == b
        & !0x8000_0000u32 ==> a == b) by (bit_vector);
}

/// Negating twice gives the encoding back.
pub proof fn negated_twice(bits: u32)
    ensures
        negated(negated(bits)) == bits,
{
    assert((bits ^ 0x8000_0000u32) ^ 0x8000_0000u32 == bits) by (bit_vector);
}

/// Negation keeps an encoding finite or not, and the negated encoding stands
/// for the opposite number.
pub proof fn negated_is_opposite(bits: u32)
    ensures
        is_finite(negated(bits)) == is_finite(bits),
        exact_value(negated(bits)) == -exact_value(bits),
{
    negated_flips_sign_only(bits);
}

/// Positive zero stands for zero, and so does its negation.
pub proof fn zero_is_zero()
    ensures
        is_finite(POSITIVE_ZERO),
        exact_value(POSITIVE_ZERO) == 0,
        is_finite(negated(POSITIVE_ZERO)),
        exact_value(negated(POSITIVE_ZERO)) == 0,
{
    assert(0u32 & 0x7f80_0000u32 == 0) by (bit_vector);
    assert(0u32 >> 23u32 == 0) by (bit_vector);
    assert(0u32 & 0x007f_ffffu32 == 0) by (bit_vector);
    assert(0u32 & 0x8000_0000u32 == 0) by (bit_vector);
    assert(exponent_of(POSITIVE_ZERO) == 0);
    assert(significand_of(POSITIVE_ZERO) == 0);
    assert(exact_magnitude(POSITIVE_ZERO) == 0);
    negated_is_opposite(POSITIVE_ZERO);
}

} // verus!
