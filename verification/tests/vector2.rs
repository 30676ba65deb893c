use vecmath::Vector2;

fn encode(values: [f32; 2]) -> [u32; 2] {
    [values[0].to_bits(), values[1].to_bits()]
}

fn decode(v: Vector2) -> [f32; 2] {
    [f32::from_bits(v.x), f32::from_bits(v.y)]
}

fn vector(values: [f32; 2]) -> Vector2 {
    Vector2::from(encode(values))
}

#[test]
fn vector2_zero_is_all_positive_zero() {
    let v = Vector2::zero();
    assert_eq!([v.x, v.y], [0, 0]);
    assert_eq!(decode(v), [0.0, 0.0]);
    assert!(decode(v).iter().all(|c| c.is_sign_positive()));
}

#[test]
fn vector2_new_keeps_each_component() {
    let v = Vector2::new(3.0f32.to_bits(), 4.0f32.to_bits());
    assert_eq!(v.x, 0x4040_0000);
    assert_eq!(v.y, 0x4080_0000);
    assert_eq!(decode(v), [3.0, 4.0]);
}

#[test]
fn vector2_from_array_keeps_order() {
    let v = vector([3.0, 4.0]);
    assert_eq!(f32::from_bits(v.x), 3.0);
    assert_eq!(f32::from_bits(v.y), 4.0);
    assert_eq!([v.x, v.y], [0x4040_0000, 0x4080_0000]);
}

#[test]
fn vector2_into_array_keeps_order() {
    let v = Vector2::new(5, 6);
    let e: [u32; 2] = v.into();
    assert_eq!(e, [5, 6]);
    assert_eq!(<[u32; 2]>::from(v), [5, 6]);
}

#[test]
fn vector2_array_round_trip_is_exact() {
    let samples = [
        encode([3.0, 4.0]),
        encode([-0.0, f32::NEG_INFINITY]),
        encode([f32::NAN, 1.0e-45]),
        [0xffff_ffff, 0x8000_0000],
    ];
    for e in samples {
        let v = Vector2::from(e);
        let back: [u32; 2] = v.into();
        assert_eq!(back, e);
        let again = Vector2::from(back);
        assert_eq!([again.x, again.y], [v.x, v.y]);
    }
}

#[test]
fn vector2_array_round_trip_compares_equal() {
    for values in [[3.0, 4.0], [-0.0, f32::MAX], [1.0e-45, -1.0e30]] {
        let v = vector(values);
        let e: [u32; 2] = v.into();
        assert_eq!(Vector2::from(e), v);
    }
}

#[test]
fn vector2_neg_matches_hardware_negation() {
    let n = -vector([3.0, -4.0]);
    assert_eq!(<[u32; 2]>::from(n), encode([-3.0, 4.0]));
    assert_eq!(decode(n), [-3.0, 4.0]);
}

#[test]
fn vector2_neg_flips_every_sign() {
    let n = -Vector2::new(0x0000_0000, 0xff80_0000);
    assert_eq!(<[u32; 2]>::from(n), [0x8000_0000, 0x7f80_0000]);
}

#[test]
fn vector2_neg_twice_is_identity() {
    let e = encode([f32::MAX, -f32::MIN_POSITIVE]);
    let v = Vector2::from(e);
    assert_eq!(<[u32; 2]>::from(-(-v)), e);
    assert_ne!(<[u32; 2]>::from(-v), e);
}

#[test]
fn vector2_equal_to_itself_when_finite() {
    let v = vector([3.0, 4.0]);
    assert!(v == v);
    assert_eq!(v, vector([3.0, 4.0]));
    assert_eq!(Vector2::zero(), vector([-0.0, 0.0]));
}

#[test]
fn vector2_equal_within_epsilon_in_every_component() {
    let e = f32::EPSILON;
    let v = vector([1.0, -0.25]);
    assert_eq!(v, vector([1.0 + e, -0.25 + e]));
    assert_eq!(vector([1.0 - e, -0.25 - e]), v);
}

#[test]
fn vector2_differs_when_one_component_is_beyond_epsilon() {
    let e = f32::EPSILON;
    let v = vector([1.0, -0.25]);
    assert_ne!(v, vector([1.0 + 2.0 * e, -0.25]));
    assert_ne!(v, vector([1.0, -0.25 - 1.5 * e]));
    assert_ne!(vector([3.0, 4.0]), vector([4.0, 3.0]));
    assert_ne!(vector([3.0, 4.0]), vector([3.0, 4.0 + 4.0 * e]));
}

#[test]
fn vector2_with_infinity_or_nan_equals_nothing() {
    for special in [f32::INFINITY, f32::NEG_INFINITY, f32::NAN] {
        for place in 0..2 {
            let mut values = [1.0, 2.0];
            values[place] = special;
            let v = vector(values);
            assert!(v != v);
            assert_ne!(v, vector([1.0, 2.0]));
        }
    }
}

#[test]
fn vector2_negation_keeps_equality() {
    let e = f32::EPSILON;
    let a = vector([1.0, 0.0]);
    assert_eq!(-a, -vector([1.0 + e, -0.0]));
    assert_ne!(-a, -vector([1.0 + 2.0 * e, 0.0]));
    assert_ne!(-a, a);
}
