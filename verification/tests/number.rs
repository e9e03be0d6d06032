use wb_supplies::number::{Number, NEG_INFINITY_BITS, NEG_ZERO_BITS, POS_INFINITY_BITS};

fn samples() -> Vec<f64> {
    vec![
        0.0,
        -0.0,
        0.5,
        -0.5,
        1.0,
        -1.0,
        20.0,
        -20.0,
        f64::MIN_POSITIVE,
        -f64::MIN_POSITIVE,
        5e-324,
        -5e-324,
        f64::MAX,
        f64::MIN,
        f64::INFINITY,
        f64::NEG_INFINITY,
        f64::NAN,
        -f64::NAN,
        f64::from_bits(0x7ff0_0000_0000_0001),
        f64::from_bits(0xfff0_0000_0000_0001),
        f64::from_bits(0xffff_ffff_ffff_ffff),
        f64::from_bits(0x7fff_ffff_ffff_ffff),
    ]
}

#[test]
fn negative_agrees_with_comparison_below_zero() {
    for x in samples() {
        let n = Number::from_bits(x.to_bits());
        assert_eq!(n.is_negative(), x < 0.0, "{x:?}");
    }
}

#[test]
fn non_negative_agrees_with_comparison_at_or_above_zero() {
    for x in samples() {
        let n = Number::from_bits(x.to_bits());
        assert_eq!(n.is_non_negative(), x >= 0.0, "{x:?}");
    }
}

#[test]
fn not_a_number_is_on_neither_side() {
    let n = Number::from_bits(f64::NAN.to_bits());
    assert!(!n.is_negative());
    assert!(!n.is_non_negative());
}

#[test]
fn negative_zero_counts_as_zero() {
    let n = Number::from_bits((-0.0f64).to_bits());
    assert!(n.is_non_negative());
    assert!(!n.is_negative());
}

#[test]
fn bits_round_trip() {
    for x in samples() {
        assert_eq!(Number::from_bits(x.to_bits()).to_bits(), x.to_bits());
    }
    assert_eq!(Number::from_bits(0.5f64.to_bits()).bits, 0x3fe0_0000_0000_0000);
}

#[test]
fn zero_and_default_are_zero() {
    assert_eq!(Number::zero().to_bits(), 0.0f64.to_bits());
    assert_eq!(Number::default().to_bits(), 0);
    assert!(Number::zero().is_non_negative());
}

#[test]
fn the_limits_are_the_infinities_and_negative_zero() {
    assert_eq!(POS_INFINITY_BITS, f64::INFINITY.to_bits());
    assert_eq!(NEG_INFINITY_BITS, f64::NEG_INFINITY.to_bits());
    assert_eq!(NEG_ZERO_BITS, (-0.0f64).to_bits());
}
