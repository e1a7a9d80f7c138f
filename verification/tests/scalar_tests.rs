use ray_tracing_in_one_weekend::scalar::Scalar;

fn s(x: f64) -> Scalar {
    Scalar::from_bits(x.to_bits())
}

fn samples() -> Vec<f64> {
    vec![
        0.0,
        -0.0,
        1.0,
        -1.0,
        0.5,
        -0.5,
        0.001,
        0.999,
        1e-8,
        -1e-8,
        1e-160,
        1e-320,
        -1e-320,
        f64::MIN_POSITIVE,
        f64::MAX,
        f64::MIN,
        f64::INFINITY,
        f64::NEG_INFINITY,
        f64::NAN,
        -f64::NAN,
        3.5,
        -3.5,
        255.999,
        1e300,
        -1e300,
    ]
}

#[test]
fn comparisons_agree_with_the_hardware() {
    for &a in samples().iter() {
        for &b in samples().iter() {
            assert_eq!(s(a).lt(s(b)), a < b, "{} < {}", a, b);
            assert_eq!(s(a).le(s(b)), a <= b, "{} <= {}", a, b);
            assert_eq!(s(a).gt(s(b)), a > b, "{} > {}", a, b);
            assert_eq!(s(a).ge(s(b)), a >= b, "{} >= {}", a, b);
            assert_eq!(s(a).same(s(b)), a == b, "{} == {}", a, b);
        }
    }
}

#[test]
fn negation_and_magnitude_agree_with_the_hardware() {
    for &a in samples().iter() {
        assert_eq!(s(a).neg().to_bits(), (-a).to_bits());
        assert_eq!(s(a).abs().to_bits(), a.abs().to_bits());
        assert_eq!(s(a).is_nan(), a.is_nan());
        assert_eq!(s(a).neg().neg(), s(a));
    }
}

#[test]
fn constants_are_the_numbers_they_are_named_for() {
    assert_eq!(Scalar::zero().to_bits(), 0.0f64.to_bits());
    assert_eq!(Scalar::one().to_bits(), 1.0f64.to_bits());
    assert_eq!(Scalar::infinity().to_bits(), f64::INFINITY.to_bits());
    assert_eq!(Scalar::neg_infinity().to_bits(), f64::NEG_INFINITY.to_bits());
}

#[test]
fn patterns_pass_through_unchanged() {
    for &a in samples().iter() {
        assert_eq!(Scalar::from_bits(a.to_bits()).to_bits(), a.to_bits());
    }
}

#[test]
fn negation_reverses_the_order() {
    for &a in samples().iter() {
        for &b in samples().iter() {
            assert_eq!(s(a).neg().lt(s(b).neg()), s(b).lt(s(a)));
            assert_eq!(s(a).neg().le(s(b).neg()), s(b).le(s(a)));
        }
    }
}

#[test]
fn numbers_are_totally_ordered() {
    for &a in samples().iter() {
        for &b in samples().iter() {
            if a.is_nan() || b.is_nan() {
                assert!(!s(a).lt(s(b)) && !s(a).le(s(b)) && !s(a).same(s(b)));
                continue;
            }
            let holds = [s(a).lt(s(b)), s(a).same(s(b)), s(b).lt(s(a))];
            assert_eq!(holds.iter().filter(|&&h| h).count(), 1);
            assert_eq!(s(a).le(s(b)), s(a).lt(s(b)) || s(a).same(s(b)));
            for &c in samples().iter() {
                if s(a).le(s(b)) && s(b).le(s(c)) {
                    assert!(s(a).le(s(c)));
                }
            }
        }
    }
}

#[test]
fn the_two_zeros_are_one_number_with_two_patterns() {
    assert!(s(0.0).same(s(-0.0)));
    assert!(s(0.0).le(s(-0.0)) && s(-0.0).le(s(0.0)));
    assert!(!s(0.0).lt(s(-0.0)) && !s(-0.0).lt(s(0.0)));
    assert_ne!(s(0.0), s(-0.0));
}
