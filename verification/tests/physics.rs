//! Physical scenarios: the Earth-Moon regression fixture, conservation
//! checks over many steps, and the degenerate edge cases.

use nbody::sim::System;
use nbody::vec2::Vec2;

fn b(x: f64) -> u64 {
    x.to_bits()
}

fn f(x: u64) -> f64 {
    f64::from_bits(x)
}

fn earth_moon() -> System {
    let mut s = System::new();
    s.add_body(b(5.972e24), Vec2(b(0.0), b(0.0)), Vec2(b(0.0), b(0.0)));
    s.add_body(b(7.342e22), Vec2(b(3.844e8), b(0.0)), Vec2(b(0.0), b(1022.0)));
    s
}

/// A host-double body for the reference integrator.
#[derive(Clone, Copy)]
struct RefBody {
    id: u64,
    m: f64,
    r: (f64, f64),
    v: (f64, f64),
}

fn ref_norm(x: (f64, f64)) -> (f64, f64) {
    let mag = (x.0 * x.0 + x.1 * x.1).sqrt();
    if mag == 0.0 {
        (0.0, 0.0)
    } else {
        (x.0 / mag, x.1 / mag)
    }
}

fn ref_grav(m1: f64, r1: (f64, f64), m2: f64, r2: (f64, f64)) -> (f64, f64) {
    let g = 6.67430e-11f64;
    let d = (r2.0 - r1.0, r2.1 - r1.1);
    let fs = g * m1 * m2 / (d.0 * d.0 + d.1 * d.1);
    let n = ref_norm(d);
    (n.0 * fs, n.1 * fs)
}

/// Reference double-precision RK4, mirroring the specified staging exactly.
fn ref_step(bs: &mut Vec<RefBody>, h: f64) {
    let n = bs.len();
    let mut k: Vec<(f64, f64)> = bs.iter().map(|x| x.v).collect();
    let mut acc = k.clone();
    for w in [2.0f64, 2.0, 1.0] {
        let hs = h / w;
        let mut raux: Vec<(f64, f64)> = Vec::new();
        for i in 0..n {
            raux.push((bs[i].r.0 + k[i].0 * hs, bs[i].r.1 + k[i].1 * hs));
        }
        let mut nk: Vec<(f64, f64)> = Vec::new();
        for i in 0..n {
            let mut fsum = (0.0f64, 0.0f64);
            for j in 0..n {
                if bs[j].id != bs[i].id {
                    let fg = ref_grav(bs[i].m, bs[i].r, bs[j].m, raux[j]);
                    fsum = (fsum.0 + fg.0, fsum.1 + fg.1);
                }
            }
            let kk = (
                bs[i].v.0 + fsum.0 / bs[i].m * hs,
                bs[i].v.1 + fsum.1 / bs[i].m * hs,
            );
            nk.push(kk);
            acc[i] = (acc[i].0 + kk.0 * w, acc[i].1 + kk.1 * w);
        }
        k = nk;
    }
    for i in 0..n {
        let vn = (acc[i].0 / 6.0, acc[i].1 / 6.0);
        bs[i].v = vn;
        bs[i].r = (bs[i].r.0 + vn.0 * h, bs[i].r.1 + vn.1 * h);
    }
}

fn assert_close(got: f64, want: f64, scale: f64, what: &str) {
    assert!(
        (got - want).abs() <= 1e-9 * scale.abs().max(1.0),
        "{what}: got {got}, reference {want}"
    );
}

#[test]
fn earth_moon_one_hour_matches_reference_rk4() {
    let mut s = earth_moon();
    s.step(b(3600.0));
    let mut rs = vec![
        RefBody { id: 0, m: 5.972e24, r: (0.0, 0.0), v: (0.0, 0.0) },
        RefBody { id: 1, m: 7.342e22, r: (3.844e8, 0.0), v: (0.0, 1022.0) },
    ];
    ref_step(&mut rs, 3600.0);
    for i in 0..2 {
        let got = s.bodies()[i];
        assert_close(f(got.r.0), rs[i].r.0, 3.844e8, "position x");
        assert_close(f(got.r.1), rs[i].r.1, 3.844e8, "position y");
        assert_close(f(got.v.0), rs[i].v.0, 1022.0, "velocity x");
        assert_close(f(got.v.1), rs[i].v.1, 1022.0, "velocity y");
    }
}

#[test]
fn earth_moon_one_hour_band() {
    let mut s = earth_moon();
    s.step(b(3600.0));
    let earth = s.bodies()[0];
    let moon = s.bodies()[1];
    // the moon advances about v*h along y and falls slightly inward
    let moon_dy = f(moon.r.1);
    assert!(moon_dy > 3.6e6 && moon_dy < 3.7e6, "moon dy {moon_dy}");
    let moon_dx = f(moon.r.0) - 3.844e8;
    assert!(moon_dx < -1.0e4 && moon_dx > -2.5e4, "moon dx {moon_dx}");
    // this scheme averages the four stage velocities, so one step changes
    // the velocity by about a*h/2 under near-constant acceleration
    let moon_vx = f(moon.v.0);
    assert!(moon_vx < -3.5 && moon_vx > -7.0, "moon vx {moon_vx}");
    // the earth is tugged a little toward the moon
    let earth_dx = f(earth.r.0);
    assert!(earth_dx > 100.0 && earth_dx < 400.0, "earth dx {earth_dx}");
}

#[test]
fn single_body_moves_uniformly() {
    let mut s = System::new();
    let id = s.add_body(b(2.0), Vec2(b(1.5), b(-2.5)), Vec2(b(3.0), b(-4.0)));
    s.step(b(2.0));
    let body = s.body(id).unwrap();
    // no other body, no force: velocity unchanged and position advanced by
    // v*h, exactly, for these dyadic values
    assert_eq!(f(body.v.0), 3.0);
    assert_eq!(f(body.v.1), -4.0);
    assert_eq!(f(body.r.0), 7.5);
    assert_eq!(f(body.r.1), -10.5);
}

#[test]
fn empty_system_steps_trivially() {
    let mut s = System::new();
    s.step(b(3600.0));
    assert_eq!(s.bodies().len(), 0);
}

#[test]
fn momentum_approximately_conserved() {
    let mut s = earth_moon();
    let p0 = s.momentum();
    let scale = f(p0.1).abs();
    for _ in 0..100 {
        s.step(b(3600.0));
    }
    let p = s.momentum();
    let drift = ((f(p.0) - f(p0.0)).powi(2) + (f(p.1) - f(p0.1)).powi(2)).sqrt();
    assert!(drift <= 5e-3 * scale, "momentum drift {drift} of {scale}");
}

#[test]
fn energy_approximately_conserved() {
    let mut s = earth_moon();
    let e0 = f(s.energy());
    for _ in 0..24 {
        s.step(b(3600.0));
    }
    let e = f(s.energy());
    let rel = ((e - e0) / e0).abs();
    assert!(rel <= 0.02, "energy changed by {rel} relative");
}

#[test]
fn center_of_mass_stationary_for_zero_momentum() {
    let mut s = earth_moon();
    // cancel the moon's momentum with an opposite earth velocity
    let vy = -(7.342e22 * 1022.0) / 5.972e24;
    assert_eq!(s.set_vel(0, Vec2(b(0.0), b(vy))), Ok(()));
    let cm0 = s.center_mass();
    for _ in 0..100 {
        s.step(b(3600.0));
    }
    let cm = s.center_mass();
    let moved = ((f(cm.0) - f(cm0.0)).powi(2) + (f(cm.1) - f(cm0.1)).powi(2)).sqrt();
    assert!(moved <= 1.0e4, "center of mass moved {moved} m");
}

#[test]
fn stepping_is_deterministic() {
    let mut a = earth_moon();
    let mut c = earth_moon();
    for _ in 0..10 {
        a.step(b(600.0));
        c.step(b(600.0));
    }
    assert_eq!(a.bodies(), c.bodies());
}

#[test]
fn coincident_bodies_degenerate_untrapped() {
    let mut s = System::new();
    s.add_body(b(1.0e10), Vec2(b(5.0), b(5.0)), Vec2(b(0.0), b(0.0)));
    s.add_body(b(2.0e10), Vec2(b(5.0), b(5.0)), Vec2(b(0.0), b(0.0)));
    s.step(b(1.0));
    // distinct bodies at one position: |d|^2 is zero, the force is infinite
    // times a zero direction, and NaN propagates silently
    assert!(f(s.bodies()[0].v.0).is_nan());
    assert!(f(s.bodies()[1].v.1).is_nan());
}
