//! The bit-pattern comparisons agree with `f64` comparison on every pair of
//! a set of awkward values.

use suspension_core::ieee::{le, lt, nan, within};

fn samples() -> Vec<f64> {
    vec![
        0.0,
        -0.0,
        1.0,
        -1.0,
        0.5,
        0.01,
        -0.01,
        1e-310,
        -1e-310,
        f64::MIN_POSITIVE,
        f64::MAX,
        f64::MIN,
        f64::INFINITY,
        f64::NEG_INFINITY,
        f64::NAN,
        -f64::NAN,
        f64::from_bits(0x7FF0_0000_0000_0001),
        3.5,
        3.5000000000000004,
        130_000.0,
    ]
}

#[test]
fn lt_matches_f64() {
    for &a in &samples() {
        for &b in &samples() {
            assert_eq!(lt(a.to_bits(), b.to_bits()), a < b, "{:?} < {:?}", a, b);
        }
    }
}

#[test]
fn le_matches_f64() {
    for &a in &samples() {
        for &b in &samples() {
            assert_eq!(le(a.to_bits(), b.to_bits()), a <= b, "{:?} <= {:?}", a, b);
        }
    }
}

#[test]
fn nan_matches_f64() {
    for &a in &samples() {
        assert_eq!(nan(a.to_bits()), a.is_nan(), "{:?}", a);
    }
}

#[test]
fn within_matches_range_contains() {
    for &x in &samples() {
        let expected = (-1.0..=3.5).contains(&x);
        assert_eq!(within(x.to_bits(), (-1.0f64).to_bits(), 3.5f64.to_bits()), expected, "{:?}", x);
    }
}

#[test]
fn zeros_compare_equal() {
    assert!(le((-0.0f64).to_bits(), 0.0f64.to_bits()));
    assert!(le(0.0f64.to_bits(), (-0.0f64).to_bits()));
    assert!(!lt((-0.0f64).to_bits(), 0.0f64.to_bits()));
}
