use sport_tracker::domain::types::weight::Weight;

fn samples() -> Vec<f32> {
    vec![
        0.0,
        -0.0,
        1.0,
        -1.0,
        60.0,
        100.0,
        -60.5,
        f32::MIN_POSITIVE,
        -f32::MIN_POSITIVE,
        f32::from_bits(1),
        f32::from_bits(0x8000_0001),
        f32::MAX,
        f32::MIN,
        f32::INFINITY,
        f32::NEG_INFINITY,
        f32::NAN,
        -f32::NAN,
        f32::from_bits(0x7f80_0001),
        f32::from_bits(0xff80_0001),
        f32::from_bits(0xffff_ffff),
    ]
}

#[test]
fn weight_is_greater_than_zero_where_the_float_is() {
    for value in samples() {
        let weight = Weight::from_bits(value.to_bits());
        assert_eq!(
            weight.is_greater_than_zero(),
            value > 0.0,
            "bits {:#010x}",
            value.to_bits()
        );
    }
}

#[test]
fn weight_is_greater_than_zero_at_the_edges_of_the_ranges() {
    assert!(!Weight::from_bits(0x0000_0000).is_greater_than_zero());
    assert!(Weight::from_bits(0x0000_0001).is_greater_than_zero());
    assert!(Weight::from_bits(0x7f7f_ffff).is_greater_than_zero());
    assert!(Weight::from_bits(0x7f80_0000).is_greater_than_zero());
    assert!(!Weight::from_bits(0x7f80_0001).is_greater_than_zero());
    assert!(!Weight::from_bits(0x7fff_ffff).is_greater_than_zero());
    assert!(!Weight::from_bits(0x8000_0000).is_greater_than_zero());
    assert!(!Weight::from_bits(0x8000_0001).is_greater_than_zero());
    assert!(!Weight::from_bits(0xff80_0000).is_greater_than_zero());
    assert!(!Weight::from_bits(0xff80_0001).is_greater_than_zero());
    assert!(!Weight::from_bits(0xffff_ffff).is_greater_than_zero());
}

#[test]
fn weight_keeps_its_bits() {
    for value in samples() {
        let bits = value.to_bits();
        assert_eq!(Weight::from_bits(bits).to_bits(), bits);
        assert_eq!(Weight::from_bits(bits), Weight { bits });
    }
    assert_eq!(f32::from_bits(Weight::from_bits(60.0f32.to_bits()).to_bits()), 60.0);
}

#[test]
fn weight_zero_is_positive_zero() {
    assert_eq!(Weight::zero().to_bits(), 0);
    assert_eq!(f32::from_bits(Weight::zero().to_bits()), 0.0);
    assert!(f32::from_bits(Weight::zero().to_bits()).is_sign_positive());
}
