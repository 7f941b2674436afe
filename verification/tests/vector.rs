//! Exact-value tests of the vector arithmetic against the host's binary64.

use nbody::scalar::{G_BITS, QNAN};
use nbody::vec2::Vec2;

fn b(x: f64) -> u64 {
    x.to_bits()
}

fn f(x: u64) -> f64 {
    f64::from_bits(x)
}

#[test]
fn gravitational_constant_bits() {
    assert_eq!(G_BITS, (6.67430e-11f64).to_bits());
}

#[test]
fn vector_add_exact() {
    let a = Vec2(b(1.5), b(-2.25));
    let c = a.add(Vec2(b(3.0), b(4.5)));
    assert_eq!(c, Vec2(b(4.5), b(2.25)));
}

#[test]
fn vector_add_matches_host_rounding() {
    let c = Vec2(b(0.1), b(0.0)).add(Vec2(b(0.2), b(0.0)));
    assert_eq!(f(c.0), 0.1f64 + 0.2f64);
    assert_ne!(f(c.0), 0.3f64);
}

#[test]
fn vector_sub_exact() {
    let c = Vec2(b(5.0), b(1.0)).sub(Vec2(b(2.0), b(7.0)));
    assert_eq!(c, Vec2(b(3.0), b(-6.0)));
}

#[test]
fn vector_scale_exact() {
    let c = Vec2(b(1.5), b(-2.0)).mul(b(4.0));
    assert_eq!(c, Vec2(b(6.0), b(-8.0)));
}

#[test]
fn vector_divide_exact() {
    let c = Vec2(b(6.0), b(-8.0)).div(b(4.0));
    assert_eq!(c, Vec2(b(1.5), b(-2.0)));
}

#[test]
fn divide_by_zero_yields_infinity_and_nan() {
    let c = Vec2(b(1.0), b(0.0)).div(b(0.0));
    assert_eq!(f(c.0), f64::INFINITY);
    assert!(f(c.1).is_nan());
    // every NaN the engine hands out is the one canonical quiet NaN
    assert_eq!(c.1, QNAN);
}

#[test]
fn magnitude_squared_exact() {
    assert_eq!(Vec2(b(3.0), b(4.0)).mag_sq(), b(25.0));
}

#[test]
fn magnitude_exact() {
    assert_eq!(Vec2(b(3.0), b(4.0)).mag(), b(5.0));
}

#[test]
fn magnitude_matches_host_sqrt() {
    for &(x, y) in &[(0.1, 0.2), (1.25e8, -3.75e3), (6.02e23, 2.0), (1e-300, 1e-300)] {
        let m = Vec2(b(x), b(y)).mag();
        let host = (x * x + y * y).sqrt();
        assert_eq!(f(m), host, "magnitude of ({x}, {y})");
    }
}

#[test]
fn normalize_unit_vector() {
    let n = Vec2(b(3.0), b(4.0)).norm();
    assert_eq!(n, Vec2(b(0.6), b(0.8)));
}

#[test]
fn normalize_zero_vector_is_zero() {
    let n = Vec2(b(0.0), b(0.0)).norm();
    assert_eq!(n, Vec2(b(0.0), b(0.0)));
}

#[test]
fn sum_folds_from_zero() {
    let vs = vec![Vec2(b(1.0), b(2.0)), Vec2(b(3.0), b(4.0)), Vec2(b(0.5), b(0.25))];
    assert_eq!(Vec2::sum(&vs), Vec2(b(4.5), b(6.25)));
    let empty: Vec<Vec2> = vec![];
    assert_eq!(Vec2::sum(&empty), Vec2(b(0.0), b(0.0)));
}

#[test]
fn add_assign_accumulates() {
    let mut a = Vec2(b(1.0), b(2.0));
    a.add_assign(Vec2(b(0.5), b(-2.0)));
    assert_eq!(a, Vec2(b(1.5), b(0.0)));
}
