use vecmath::epsilon::{is_within_epsilon, EPSILON, ONE};

fn near(a: f32, b: f32) -> bool {
    is_within_epsilon(a.to_bits(), b.to_bits())
}

/// The answer worked out in double precision: the difference of two single
/// precision numbers is the rounded difference plus a rounding error that
/// double precision can hold exactly.
fn reference(a: f32, b: f32) -> bool {
    if !a.is_finite() || !b.is_finite() {
        return false;
    }
    let x = a as f64;
    let y = -(b as f64);
    let sum = x + y;
    let part = sum - x;
    let error = (x - (sum - part)) + (y - part);
    let (sum, error) = if sum < 0.0 { (-sum, -error) } else { (sum, error) };
    let epsilon = f32::EPSILON as f64;
    sum < epsilon || (sum == epsilon && error <= 0.0)
}

fn samples() -> Vec<u32> {
    let exponents = [
        0u32, 1, 2, 3, 23, 24, 50, 77, 78, 79, 80, 81, 99, 100, 101, 102, 103, 104, 105, 106,
        107, 108, 120, 125, 126, 127, 128, 129, 130, 150, 200, 253, 254,
    ];
    let fractions = [
        0u32, 1, 2, 3, 0x00_0800, 0x20_0000, 0x3f_ffff, 0x40_0000, 0x40_0001, 0x7f_fffe,
        0x7f_ffff,
    ];
    let mut all = Vec::new();
    for sign in [0u32, 0x8000_0000] {
        for e in exponents {
            for f in fractions {
                all.push(sign | (e << 23) | f);
            }
        }
    }
    all
}

#[test]
fn epsilon_constants_encode_epsilon_and_one() {
    assert_eq!(EPSILON, f32::EPSILON.to_bits());
    assert_eq!(ONE, 1.0f32.to_bits());
    assert_eq!(f32::from_bits(ONE + 1) - f32::from_bits(ONE), f32::from_bits(EPSILON));
}

#[test]
fn within_epsilon_around_one() {
    let one = 1.0f32;
    assert!(near(one, one));
    assert!(near(one, f32::from_bits(ONE + 1)));
    assert!(!near(one, f32::from_bits(ONE + 2)));
    assert!(near(one, 1.0 - f32::EPSILON / 2.0));
    assert!(near(one, 1.0 - f32::EPSILON));
    assert!(!near(one, f32::from_bits((1.0f32 - f32::EPSILON).to_bits() - 1)));
}

#[test]
fn within_epsilon_counts_the_bound_itself() {
    assert!(near(0.0, f32::EPSILON));
    assert!(near(f32::EPSILON, 0.0));
    assert!(!near(0.0, f32::from_bits(EPSILON + 1)));
    assert!(near(-f32::EPSILON / 2.0, f32::EPSILON / 2.0));
    assert!(!near(-f32::EPSILON / 2.0, f32::from_bits((f32::EPSILON / 2.0).to_bits() + 1)));
    assert!(near(0.5, 0.5 + f32::EPSILON));
    assert!(!near(0.5, f32::from_bits((0.5f32 + f32::EPSILON).to_bits() + 1)));
}

#[test]
fn within_epsilon_of_zeros() {
    assert!(near(0.0, -0.0));
    assert!(near(-0.0, 0.0));
    assert!(near(0.0, 0.0));
    assert!(near(0.0, f32::MIN_POSITIVE));
    assert!(near(1.0e-45, -1.0e-45));
}

#[test]
fn within_epsilon_of_small_numbers() {
    assert!(near(1.0e-10, 2.0e-10));
    assert!(near(1.0e-8, -1.0e-8));
    assert!(near(1.0e-7, 0.0));
    assert!(!near(1.0e-7, -1.0e-7));
    assert!(!near(2.0e-7, 0.0));
}

#[test]
fn within_epsilon_of_large_numbers() {
    assert!(near(2.0, 2.0));
    assert!(!near(2.0, f32::from_bits(2.0f32.to_bits() + 1)));
    assert!(near(1.0e30, 1.0e30));
    assert!(!near(1.0e30, f32::from_bits(1.0e30f32.to_bits() + 1)));
    assert!(near(f32::MAX, f32::MAX));
    assert!(!near(f32::MAX, -f32::MAX));
    assert!(!near(f32::MAX, f32::from_bits(f32::MAX.to_bits() - 1)));
    assert!(!near(3.0, 4.0));
    assert!(!near(5.0, -5.0));
}

#[test]
fn within_epsilon_rejects_infinities_and_nans() {
    for special in [f32::INFINITY, f32::NEG_INFINITY, f32::NAN, -f32::NAN] {
        assert!(!near(special, special));
        assert!(!near(special, 0.0));
        assert!(!near(1.0, special));
        assert!(!near(special, f32::MAX));
    }
    assert!(!is_within_epsilon(0x7f80_0001, 0x7f80_0001));
    assert!(!is_within_epsilon(0xffff_ffff, 0));
}

#[test]
fn within_epsilon_is_exact_where_a_rounded_difference_is_not() {
    let a = f32::EPSILON;
    let b = -f32::from_bits(1);
    assert!((a - b).abs() <= f32::EPSILON);
    assert!(!near(a, b));
    let c = -(f32::EPSILON * f32::EPSILON) / 4.0;
    assert!((a - c).abs() <= f32::EPSILON);
    assert!(!near(a, c));
    assert!(near(a, -c));
}

#[test]
fn within_epsilon_agrees_with_the_reference_on_all_sample_pairs() {
    let all = samples();
    let mut accepted = 0u32;
    let mut rejected = 0u32;
    for &a in &all {
        for &b in &all {
            let expected = reference(f32::from_bits(a), f32::from_bits(b));
            assert_eq!(is_within_epsilon(a, b), expected, "{:#010x} and {:#010x}", a, b);
            if expected {
                accepted += 1;
            } else {
                rejected += 1;
            }
        }
    }
    assert!(accepted > 10_000);
    assert!(rejected > 10_000);
}

#[test]
fn within_epsilon_agrees_with_the_reference_on_neighbours() {
    for &a in &samples() {
        for offset in 0..40u32 {
            for b in [a.wrapping_add(offset), a.wrapping_sub(offset)] {
                let expected = reference(f32::from_bits(a), f32::from_bits(b));
                assert_eq!(is_within_epsilon(a, b), expected, "{:#010x} and {:#010x}", a, b);
            }
        }
    }
}

#[test]
fn within_epsilon_agrees_with_hardware_subtraction_away_from_the_bound() {
    let all = samples();
    for &a in &all {
        for &b in &all {
            let x = f32::from_bits(a);
            let y = f32::from_bits(b);
            let rounded = (x - y).abs();
            if rounded != f32::EPSILON {
                assert_eq!(is_within_epsilon(a, b), rounded <= f32::EPSILON);
            }
        }
    }
}

#[test]
fn within_epsilon_is_symmetric() {
    let all = samples();
    for &a in &all {
        for &b in &all {
            assert_eq!(is_within_epsilon(a, b), is_within_epsilon(b, a));
        }
    }
}

#[test]
fn within_epsilon_of_itself_means_finite() {
    for &a in &samples() {
        assert!(is_within_epsilon(a, a));
    }
    for a in [0x7f80_0000u32, 0xff80_0000, 0x7fc0_0000, 0xffc0_0000, 0x7f80_0001] {
        assert!(!is_within_epsilon(a, a));
    }
}

#[test]
fn within_epsilon_is_not_transitive() {
    let a = 1.0f32;
    let b = f32::from_bits(ONE + 1);
    let c = f32::from_bits(ONE + 2);
    assert!(near(a, b));
    assert!(near(b, c));
    assert!(!near(a, c));
}
