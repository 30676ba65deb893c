//! Comparison of two encodings up to machine epsilon.
//!
//! Machine epsilon is `2^-23`, the step from one to the next larger number.
//! Two encodings are within epsilon when both are finite and the numbers they
//! stand for differ by no more than that. The comparison is exact: the
//! difference is taken over whole multiples of `2^-149` and never rounded.

use vstd::prelude::*;
use vstd::arithmetic::power2::{
    lemma2_to64, lemma2_to64_rest, lemma_pow2_adds, lemma_pow2_pos, lemma_pow2_strictly_increases,
    lemma_pow2_unfold, pow2,
};
use crate::binary32::{
    exact_magnitude, exact_value, exponent, exponent_of, is_finite, is_negative, negated,
    negated_is_opposite, scale, scale_of, sign_of, significand, significand_of,
};

verus! {

/// The encoding of machine epsilon, `2^-23`.
pub const EPSILON: u32 = 0x3400_0000;

/// The encoding of one.
pub const ONE: u32 = 0x3f80_0000;

/// Machine epsilon as a multiple of `2^-149`: `2^126`.
const EPSILON_MAGNITUDE: u128 = 0x4000_0000_0000_0000_0000_0000_0000_0000;

/// The largest scale at which a magnitude stays below `2^127`.
const WIDE_SCALE_LIMIT: u32 = 103;

/// The absolute difference of the two encoded numbers, as a multiple of
/// `2^-149`.
pub open spec fn separation(a: u32, b: u32) -> nat {
    if exact_value(a) >= exact_value(b) {
        (exact_value(a) - exact_value(b)) as nat
    } else {
        (exact_value(b) - exact_value(a)) as nat
    }
}

/// Whether both encodings are finite and their numbers differ by no more
/// than machine epsilon.
pub open spec fn within_epsilon(a: u32, b: u32) -> bool {
    is_finite(a) && is_finite(b) && separation(a, b) <= exact_magnitude(EPSILON)
}

/// Shifting left by `s` multiplies by `2^s`, as long as nothing is shifted out.
proof fn shift_left_scales(x: u128, s: u32)
    requires
        s < 128,
        x * pow2(s as nat) <= u128::MAX,
    ensures
        x << s == x * pow2(s as nat),
    decreases s,
{
    if s == 0 {
        assert(x << 0u32 == x) by (bit_vector);
        lemma2_to64();
    } else {
        let t = (s - 1) as u32;
        lemma_pow2_unfold(s as nat);
        lemma_pow2_pos(t as nat);
        assert(x * pow2(t as nat) <= x * pow2(s as nat)) by (nonlinear_arith)
            requires
                pow2(s as nat) == 2 * pow2(t as nat),
                pow2(t as nat) > 0,
        ;
        shift_left_scales(x, t);
        let y = x << t;
        assert(2 * y == x * pow2(s as nat)) by (nonlinear_arith)
            requires
                y == x * pow2(t as nat),
                pow2(s as nat) == 2 * pow2(t as nat),
        ;
        assert(x << s == (x << t) << 1u32) by (bit_vector)
            requires
                s == t + 1,
                s < 128,
        ;
        assert(y << 1u32 == 2 * y) by (bit_vector)
            requires
                y <= 0x7fff_ffff_ffff_ffff_ffff_ffff_ffff_ffffu128,
        ;
    }
}

/// The powers of two that bound the comparison.
proof fn powers_near_epsilon()
    ensures
        pow2(23) == 0x80_0000,
        pow2(24) == 0x100_0000,
        pow2(103) == 0x80_0000_0000_0000_0000_0000_0000,
        pow2(126) == 0x4000_0000_0000_0000_0000_0000_0000_0000,
        pow2(127) == 0x8000_0000_0000_0000_0000_0000_0000_0000,
{
    lemma2_to64();
    lemma2_to64_rest();
    lemma_pow2_adds(64, 39);
    lemma_pow2_adds(64, 62);
    lemma_pow2_adds(64, 63);
}

/// A magnitude lies between the powers of two that its scale gives.
proof fn magnitude_bounds(bits: u32)
    ensures
        significand_of(bits) < pow2(24),
        exact_magnitude(bits) < pow2(scale_of(bits) + 24),
        exponent_of(bits) != 0 ==> exact_magnitude(bits) >= pow2(scale_of(bits) + 23),
{
    let m = significand_of(bits);
    let s = scale_of(bits);
    assert(bits & 0x007f_ffffu32 < 0x80_0000) by (bit_vector);
    lemma2_to64();
    lemma_pow2_pos(s);
    lemma_pow2_adds(24, s);
    lemma_pow2_adds(23, s);
    assert(m * pow2(s) < pow2(24) * pow2(s)) by (nonlinear_arith)
        requires
            m < pow2(24),
            pow2(s) > 0,
    ;
    if exponent_of(bits) != 0 {
        assert(m * pow2(s) >= pow2(23) * pow2(s)) by (nonlinear_arith)
            requires
                m >= pow2(23),
                pow2(s) > 0,
        ;
    }
}

/// Machine epsilon stands for `2^126` steps of `2^-149`, and it is the step
/// from one to the next larger number.
pub proof fn epsilon_is_the_step_after_one()
    ensures
        is_finite(EPSILON),
        !sign_of(EPSILON),
        exact_magnitude(EPSILON) == pow2(126),
        exact_value((ONE + 1) as u32) - exact_value(ONE) == exact_value(EPSILON),
{
    assert(0x3400_0000u32 & 0x8000_0000u32 == 0) by (bit_vector);
    assert((0x3400_0000u32 & 0x7f80_0000u32) >> 23u32 == 104) by (bit_vector);
    assert(0x3400_0000u32 & 0x007f_ffffu32 == 0) by (bit_vector);
    assert(0x3f80_0000u32 & 0x8000_0000u32 == 0) by (bit_vector);
    assert((0x3f80_0000u32 & 0x7f80_0000u32) >> 23u32 == 127) by (bit_vector);
    assert(0x3f80_0000u32 & 0x007f_ffffu32 == 0) by (bit_vector);
    assert(0x3f80_0001u32 & 0x8000_0000u32 == 0) by (bit_vector);
    assert((0x3f80_0001u32 & 0x7f80_0000u32) >> 23u32 == 127) by (bit_vector);
    assert(0x3f80_0001u32 & 0x007f_ffffu32 == 1) by (bit_vector);
    lemma2_to64();
    lemma_pow2_adds(23, 103);
    lemma_pow2_adds(23, 126);
    assert(exact_magnitude(EPSILON) == 0x80_0000 * pow2(103));
    assert(exact_magnitude(ONE) == 0x80_0000 * pow2(126));
    assert(exact_magnitude((ONE + 1) as u32) == 0x80_0001 * pow2(126));
    assert(0x80_0001 * pow2(126) - 0x80_0000 * pow2(126) == pow2(126)) by (nonlinear_arith);
}

/// Whether both encodings are finite and their numbers differ by no more
/// than machine epsilon.
pub fn is_within_epsilon(a: u32, b: u32) -> (r: bool)
    ensures
        r == within_epsilon(a, b),
{
    if exponent(a) == 255 || exponent(b) == 255 {
        return false;
    }
    let m_a = significand(a);
    let m_b = significand(b);
    let s_a = scale(a);
    let s_b = scale(b);
    proof {
        powers_near_epsilon();
        epsilon_is_the_step_after_one();
        magnitude_bounds(a);
        magnitude_bounds(b);
    }
    if is_negative(a) != is_negative(b) {
        if s_a > WIDE_SCALE_LIMIT || s_b > WIDE_SCALE_LIMIT {
            proof {
                if s_a > WIDE_SCALE_LIMIT {
                    at_least_two_epsilon(a);
                } else {
                    at_least_two_epsilon(b);
                }
            }
            false
        } else {
            proof {
                below_two_epsilon(a);
                below_two_epsilon(b);
                shift_left_scales(m_a as u128, s_a);
                shift_left_scales(m_b as u128, s_b);
            }
            let x = (m_a as u128) << s_a;
            let y = (m_b as u128) << s_b;
            x + y <= EPSILON_MAGNITUDE
        }
    } else if s_a <= WIDE_SCALE_LIMIT && s_b <= WIDE_SCALE_LIMIT {
        proof {
            below_two_epsilon(a);
            below_two_epsilon(b);
            shift_left_scales(m_a as u128, s_a);
            shift_left_scales(m_b as u128, s_b);
        }
        let x = (m_a as u128) << s_a;
        let y = (m_b as u128) << s_b;
        if x >= y {
            x - y <= EPSILON_MAGNITUDE
        } else {
            y - x <= EPSILON_MAGNITUDE
        }
    } else if s_a >= s_b {
        is_near_at_wide_scale(a, b)
    } else {
        is_near_at_wide_scale(b, a)
    }
}

/// A magnitude whose scale is within the limit is below `2^127`.
proof fn below_two_epsilon(bits: u32)
    requires
        scale_of(bits) <= WIDE_SCALE_LIMIT,
    ensures
        exact_magnitude(bits) < pow2(127),
        significand_of(bits) * pow2(scale_of(bits)) <= u128::MAX,
{
    magnitude_bounds(bits);
    powers_near_epsilon();
    if scale_of(bits) + 24 < 127 {
        lemma_pow2_strictly_increases(scale_of(bits) + 24, 127);
    }
}

/// A magnitude whose scale is above the limit is at least `2^127`, twice
/// machine epsilon.
proof fn at_least_two_epsilon(bits: u32)
    requires
        scale_of(bits) > WIDE_SCALE_LIMIT,
    ensures
        exact_magnitude(bits) >= pow2(127),
{
    magnitude_bounds(bits);
    if scale_of(bits) + 23 > 127 {
        lemma_pow2_strictly_increases(127, scale_of(bits) + 23);
    }
}

/// Where two numbers of one sign are `x` and `y` times the same power of
/// two, their separation is the difference of `x` and `y` times that power.
proof fn separation_at_one_scale(a: u32, b: u32, x: nat, y: nat, p: nat)
    requires
        sign_of(a) == sign_of(b),
        exact_magnitude(a) == x * p,
        exact_magnitude(b) == y * p,
    ensures
        separation(a, b) == (if x >= y {
            x - y
        } else {
            y - x
        }) * p,
        separation(b, a) == separation(a, b),
{
    assert((x - y) * p == x * p - y * p) by (nonlinear_arith);
    assert((y - x) * p == y * p - x * p) by (nonlinear_arith);
    assert(x >= y ==> x * p >= y * p) by (nonlinear_arith);
    assert(y >= x ==> y * p >= x * p) by (nonlinear_arith);
}

/// Decides `within_epsilon` for two finite encodings of one sign, of which
/// `hi` has the larger scale and that scale is above the limit.
fn is_near_at_wide_scale(hi: u32, lo: u32) -> (r: bool)
    requires
        is_finite(hi),
        is_finite(lo),
        sign_of(hi) == sign_of(lo),
        scale_of(hi) >= scale_of(lo),
        scale_of(hi) > WIDE_SCALE_LIMIT,
    ensures
        r == within_epsilon(hi, lo),
        r == within_epsilon(lo, hi),
{
    let m_hi = significand(hi);
    let m_lo = significand(lo);
    let s_hi = scale(hi);
    let s_lo = scale(lo);
    let gap = s_hi - s_lo;
    proof {
        powers_near_epsilon();
        epsilon_is_the_step_after_one();
        magnitude_bounds(hi);
        magnitude_bounds(lo);
    }
    if gap >= 2 {
        proof {
            // The larger number is at least twice the smaller, and at least
            // twice machine epsilon.
            lemma_pow2_unfold((s_hi + 23) as nat);
            if s_lo + 24 < s_hi + 22 {
                lemma_pow2_strictly_increases((s_lo + 24) as nat, (s_hi + 22) as nat);
            }
            if 126 < s_hi + 22 {
                lemma_pow2_strictly_increases(126, (s_hi + 22) as nat);
            }
        }
        false
    } else {
        assert(m_hi << gap == m_hi * pow2(gap as nat)) by {
            lemma2_to64();
            if gap == 0 {
                assert(m_hi << 0u32 == m_hi) by (bit_vector);
                assert(m_hi << gap == m_hi);
                assert(m_hi * pow2(0) == m_hi);
            } else {
                assert(gap == 1);
                assert(m_hi << 1u32 == 2 * m_hi) by (bit_vector)
                    requires
                        m_hi < 0x100_0000u32,
                ;
                assert(m_hi << gap == 2 * m_hi);
                assert(m_hi * pow2(1) == 2 * m_hi);
            }
        }
        let h = m_hi << gap;
        let d = if h >= m_lo {
            h - m_lo
        } else {
            m_lo - h
        };
        proof {
            lemma_pow2_adds(gap as nat, s_lo as nat);
            assert(exact_magnitude(hi) == h * pow2(s_lo as nat)) by (nonlinear_arith)
                requires
                    exact_magnitude(hi) == m_hi * pow2(s_hi as nat),
                    pow2(s_hi as nat) == pow2(gap as nat) * pow2(s_lo as nat),
                    h == m_hi * pow2(gap as nat),
            ;
            separation_at_one_scale(hi, lo, h as nat, m_lo as nat, pow2(s_lo as nat));
            lemma_pow2_pos(s_lo as nat);
        }
        if s_lo <= 126 {
            let room = 126 - s_lo;
            assert(1u32 << room == pow2(room as nat)) by {
                lemma2_to64();
                assert(room <= 23);
                shift_left_scales(1u128, room);
                assert(1u128 << room == (1u32 << room) as u128) by (bit_vector)
                    requires
                        room <= 23,
                ;
            }
            proof {
                lemma_pow2_adds(room as nat, s_lo as nat);
                let p = pow2(s_lo as nat);
                let t = pow2(room as nat);
                assert((d * p <= t * p) == (d <= t)) by (nonlinear_arith)
                    requires
                        p > 0,
                ;
            }
            d <= (1u32 << room)
        } else {
            proof {
                let p = pow2(s_lo as nat);
                lemma_pow2_strictly_increases(126, s_lo as nat);
                assert(d >= 1 ==> d * p >= p) by (nonlinear_arith)
                    requires
                        p > 0,
                ;
                assert(d == 0 ==> d * p == 0) by (nonlinear_arith);
            }
            d == 0
        }
    }
}

/// The comparison does not depend on the order of its arguments.
pub proof fn within_epsilon_is_symmetric(a: u32, b: u32)
    ensures
        within_epsilon(a, b) == within_epsilon(b, a),
{
}

/// An encoding is within epsilon of itself exactly when it is finite: an
/// infinity or a NaN is within epsilon of nothing.
pub proof fn within_epsilon_of_itself(a: u32)
    ensures
        within_epsilon(a, a) == is_finite(a),
{
}

/// Two finite encodings of the same number are within epsilon, whatever
/// their signs: positive and negative zero are.
pub proof fn same_number_is_within_epsilon(a: u32, b: u32)
    requires
        is_finite(a),
        is_finite(b),
        exact_value(a) == exact_value(b),
    ensures
        within_epsilon(a, b),
{
}

/// Negating both encodings does not change the comparison.
pub proof fn within_epsilon_under_negation(a: u32, b: u32)
    ensures
        within_epsilon(negated(a), negated(b)) == within_epsilon(a, b),
{
    negated_is_opposite(a);
    negated_is_opposite(b);
}

} // verus!
