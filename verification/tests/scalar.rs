use pgrag::scalar::{Scalar, SIGN_BIT};

fn scalar(value: f32) -> Scalar {
    Scalar { bits: value.to_bits() }
}

fn number(scalar: Scalar) -> f32 {
    f32::from_bits(scalar.bits)
}

#[test]
fn negated_is_the_negative_number() {
    let values: Vec<f32> = vec![
        0.0,
        -0.0,
        1.0,
        -1.0,
        0.5,
        -2.75,
        3.1415927,
        1.0e-40,
        f32::MAX,
        f32::MIN,
        f32::MIN_POSITIVE,
        f32::INFINITY,
        f32::NEG_INFINITY,
    ];
    for value in values {
        let negated = scalar(value).negated();
        assert_eq!(negated.bits, (-value).to_bits());
    }
}

#[test]
fn negated_flips_only_the_sign_bit() {
    assert_eq!(SIGN_BIT, 0x8000_0000);
    assert_eq!(Scalar { bits: 0 }.negated().bits, 0x8000_0000);
    assert_eq!(Scalar { bits: 0x8000_0000 }.negated().bits, 0);
    assert_eq!(Scalar { bits: 0x3f80_0000 }.negated().bits, 0xbf80_0000);
    assert_eq!(Scalar { bits: 0xffff_ffff }.negated().bits, 0x7fff_ffff);
}

#[test]
fn negated_twice_is_the_number() {
    for bits in [0u32, 1, 0x3f80_0000, 0x7fc0_0000, 0xdead_beef, u32::MAX] {
        let once = Scalar { bits }.negated();
        assert_ne!(once.bits, bits);
        assert_eq!(once.negated().bits, bits);
    }
}

#[test]
fn negated_keeps_a_nan_a_nan() {
    let negated = scalar(f32::NAN).negated();
    assert!(number(negated).is_nan());
    assert_eq!(negated.bits, f32::NAN.to_bits() ^ 0x8000_0000);
}

#[test]
fn negated_reverses_the_order_of_scores() {
    let better = scalar(0.9);
    let worse = scalar(0.1);
    assert!(number(better) > number(worse));
    assert!(number(better.negated()) < number(worse.negated()));
}
