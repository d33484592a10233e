use jairika::scalar::{INFINITY_BITS, NEGATIVE_ZERO_BITS, ONE_BITS, ZERO_BITS};
use jairika::Scalar;

fn samples() -> Vec<f32> {
    vec![
        0.0,
        -0.0,
        1.0,
        -1.0,
        0.5,
        -0.5,
        0.999_999_94,
        1.000_000_1,
        1.0e-45,
        -1.0e-45,
        f32::MIN_POSITIVE,
        f32::MAX,
        f32::MIN,
        f32::INFINITY,
        f32::NEG_INFINITY,
        f32::NAN,
        -f32::NAN,
        f32::from_bits(0x7f80_0001),
        f32::from_bits(0xffff_ffff),
        3.25,
        -1.0e10,
    ]
}

fn scalar(x: f32) -> Scalar {
    Scalar::from_bits(x.to_bits())
}

#[test]
fn constants_are_the_patterns_of_their_numbers() {
    assert_eq!(ZERO_BITS, 0.0f32.to_bits());
    assert_eq!(NEGATIVE_ZERO_BITS, (-0.0f32).to_bits());
    assert_eq!(ONE_BITS, 1.0f32.to_bits());
    assert_eq!(INFINITY_BITS, f32::INFINITY.to_bits());
    assert_eq!(Scalar::zero().to_bits(), 0.0f32.to_bits());
    assert_eq!(Scalar::one().to_bits(), 1.0f32.to_bits());
    assert_eq!(Scalar::infinity().to_bits(), f32::INFINITY.to_bits());
}

#[test]
fn from_bits_keeps_the_pattern() {
    assert_eq!(Scalar::from_bits(0x4050_0000).to_bits(), 0x4050_0000);
    assert_eq!(Scalar::from_bits(0x4050_0000).bits, 3.25f32.to_bits());
    assert_eq!(Scalar::from_bits(7), Scalar { bits: 7 });
    assert_ne!(scalar(0.0), scalar(-0.0));
}

#[test]
fn classification_agrees_with_the_numbers() {
    for x in samples() {
        let s = scalar(x);
        assert_eq!(s.is_nan(), x.is_nan(), "is_nan of {:?}", x);
        assert_eq!(s.is_finite(), x.is_finite(), "is_finite of {:?}", x);
        assert_eq!(s.is_positive(), x > 0.0, "is_positive of {:?}", x);
        assert_eq!(s.is_unit_rate(), 0.0 <= x && x < 1.0, "is_unit_rate of {:?}", x);
    }
}

#[test]
fn less_than_agrees_with_the_numbers() {
    for x in samples() {
        for y in samples() {
            assert_eq!(scalar(x).less_than(&scalar(y)), x < y, "{:?} < {:?}", x, y);
        }
    }
}

#[test]
fn zeros_are_not_less_than_each_other() {
    assert!(!scalar(0.0).less_than(&scalar(-0.0)));
    assert!(!scalar(-0.0).less_than(&scalar(0.0)));
    assert!(scalar(-0.0).is_unit_rate());
    assert!(!scalar(-0.0).is_positive());
}

#[test]
fn nothing_is_less_than_what_is_not_a_number() {
    assert!(!scalar(1.0).less_than(&scalar(f32::NAN)));
    assert!(!scalar(f32::NAN).less_than(&scalar(1.0)));
    assert!(!scalar(f32::NAN).less_than(&scalar(f32::NAN)));
    assert!(!scalar(f32::NAN).is_positive());
    assert!(!scalar(f32::NAN).is_unit_rate());
}
