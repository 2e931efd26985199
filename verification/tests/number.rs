use chord_method::number::{Real, INFINITY_BITS, SIGN_BIT};

fn num(x: f64) -> Real {
    Real::from_bits(x.to_bits())
}

fn samples() -> Vec<f64> {
    vec![
        0.0,
        -0.0,
        5e-324,
        -5e-324,
        f64::MIN_POSITIVE,
        -f64::MIN_POSITIVE,
        0.001,
        -0.001,
        0.1,
        0.3,
        0.30000000000000004,
        1.0,
        -1.0,
        1.5,
        -1.75,
        2.0,
        1e300,
        -1e300,
        f64::MAX,
        f64::MIN,
        f64::INFINITY,
        f64::NEG_INFINITY,
        f64::NAN,
        -f64::NAN,
        f64::from_bits(0x7ff0_0000_0000_0001),
        f64::from_bits(0xfff0_0000_0000_0001),
        f64::from_bits(0x7fff_ffff_ffff_ffff),
        f64::from_bits(0xffff_ffff_ffff_ffff),
    ]
}

#[test]
fn bits_go_in_and_come_out() {
    for x in samples() {
        assert_eq!(num(x).to_bits(), x.to_bits());
        assert_eq!(num(x).bits, x.to_bits());
    }
    assert_eq!(Real::from_bits(0x3ff0_0000_0000_0000).to_bits(), 1.0f64.to_bits());
}

#[test]
fn origin_is_positive_zero() {
    assert_eq!(Real::origin().to_bits(), 0);
    assert_eq!(Real::origin(), num(0.0));
    assert_ne!(Real::origin(), num(-0.0));
}

#[test]
fn constants_are_those_of_binary64() {
    assert_eq!(SIGN_BIT, (-0.0f64).to_bits());
    assert_eq!(INFINITY_BITS, f64::INFINITY.to_bits());
}

#[test]
fn is_nan_agrees_with_the_machine() {
    for x in samples() {
        assert_eq!(num(x).is_nan(), x.is_nan(), "{:#x}", x.to_bits());
    }
    assert!(num(f64::NAN).is_nan());
    assert!(!num(f64::INFINITY).is_nan());
}

#[test]
fn is_infinite_agrees_with_the_machine() {
    for x in samples() {
        assert_eq!(num(x).is_infinite(), x.is_infinite(), "{:#x}", x.to_bits());
    }
    assert!(num(f64::NEG_INFINITY).is_infinite());
    assert!(!num(f64::MAX).is_infinite());
    assert!(!num(f64::NAN).is_infinite());
}

#[test]
fn is_sign_negative_agrees_with_the_machine() {
    for x in samples() {
        assert_eq!(num(x).is_sign_negative(), x.is_sign_negative(), "{:#x}", x.to_bits());
    }
    assert!(num(-0.0).is_sign_negative());
    assert!(!num(0.0).is_sign_negative());
}

#[test]
fn abs_agrees_with_the_machine() {
    for x in samples() {
        assert_eq!(num(x).abs().to_bits(), x.abs().to_bits(), "{:#x}", x.to_bits());
    }
    assert_eq!(num(-1.75).abs(), num(1.75));
    assert_eq!(num(1.75).abs(), num(1.75));
    assert_eq!(num(-0.0).abs(), num(0.0));
}

#[test]
fn lt_agrees_with_the_machine() {
    for x in samples() {
        for y in samples() {
            assert_eq!(num(x).lt(num(y)), x < y, "{:#x} < {:#x}", x.to_bits(), y.to_bits());
        }
    }
}

#[test]
fn le_agrees_with_the_machine() {
    for x in samples() {
        for y in samples() {
            assert_eq!(num(x).le(num(y)), x <= y, "{:#x} <= {:#x}", x.to_bits(), y.to_bits());
        }
    }
}

#[test]
fn gt_agrees_with_the_machine() {
    for x in samples() {
        for y in samples() {
            assert_eq!(num(x).gt(num(y)), x > y, "{:#x} > {:#x}", x.to_bits(), y.to_bits());
        }
    }
}

#[test]
fn the_two_zeros_compare_equal() {
    assert!(!num(-0.0).lt(num(0.0)));
    assert!(!num(0.0).lt(num(-0.0)));
    assert!(num(-0.0).le(num(0.0)));
    assert!(num(0.0).le(num(-0.0)));
    assert!(!num(0.0).gt(num(-0.0)));
}

#[test]
fn a_nan_compares_false_with_everything() {
    for x in samples() {
        assert!(!num(f64::NAN).lt(num(x)));
        assert!(!num(x).lt(num(f64::NAN)));
        assert!(!num(f64::NAN).le(num(x)));
        assert!(!num(x).le(num(f64::NAN)));
        assert!(!num(f64::NAN).gt(num(x)));
        assert!(!num(x).gt(num(f64::NAN)));
    }
}

#[test]
fn order_of_a_few_chosen_values() {
    assert!(num(-1.0).lt(num(1.0)));
    assert!(num(-2.0).lt(num(-1.0)));
    assert!(!num(-1.0).lt(num(-2.0)));
    assert!(num(0.3).lt(num(0.30000000000000004)));
    assert!(num(-5e-324).lt(num(0.0)));
    assert!(num(0.0).lt(num(5e-324)));
    assert!(num(f64::NEG_INFINITY).lt(num(f64::MIN)));
    assert!(num(f64::MAX).lt(num(f64::INFINITY)));
    assert!(num(1.0).le(num(1.0)));
    assert!(num(1.0).gt(num(0.001)));
}
