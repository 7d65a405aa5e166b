use blackhole::fixed::{Fx, SCALE};
use blackhole::geodesic::{step, trace, RayState};
use blackhole::render::composite_sky;
use blackhole::types::BlackHole;
use blackhole::vecmath::{Fx3, Fx4};

fn flat_params(dt_raw: i64, steps: u32) -> BlackHole {
    BlackHole {
        a: Fx::zero(),
        m: Fx::zero(),
        q: Fx::zero(),
        dt_min: Fx::from_raw(dt_raw),
        dt_max: Fx::from_raw(dt_raw),
        steps,
        ..BlackHole::default()
    }
}

#[test]
fn flat_space_motion_is_straight() {
    // with mass = charge = spin = 0 and a fixed dt, N steps from z = 10
    // along +z advance the position by exactly N * dt * direction
    let bh = flat_params(32768, 16);
    let origin = Fx4::new(Fx::zero(), Fx::zero(), Fx::zero(), Fx::from_int(10));
    // flat conjugate momentum of velocity (1, 0, 0, 1) is (-1, 0, 0, 1)
    let p0 = Fx4::new(Fx::one().neg(), Fx::zero(), Fx::zero(), Fx::one());
    let mut s = RayState {
        x: origin,
        p: p0,
        color: Fx3::zero(),
        opacity: Fx::zero(),
    };
    for _ in 0..16 {
        s = step(&s, &bh, false, 0);
    }
    assert_eq!(s.p, p0);
    assert_eq!(s.x.t.v, 16 * 32768);
    assert_eq!(s.x.x.v, 0);
    assert_eq!(s.x.y.v, 0);
    assert_eq!(s.x.z.v, 10 * SCALE + 16 * 32768);
    assert_eq!(s.color, Fx3::zero());
    assert_eq!(s.opacity.v, 0);
}

#[test]
fn outward_flat_ray_escapes() {
    let bh = flat_params(32768, 64);
    let origin = Fx3::new(Fx::zero(), Fx::zero(), Fx::from_int(10));
    let dir = Fx3::new(Fx::zero(), Fx::zero(), Fx::one());
    let tr = trace(&origin, &dir, &bh, false, 0);
    assert!(!tr.captured);
    // the escaped direction still points outward along +z
    assert!(tr.exit_dir.z.v > 0);
}

#[test]
fn ray_from_origin_is_captured_without_division() {
    // the degenerate starting point r = 0 is classified captured at once
    let bh = BlackHole::default();
    let origin = Fx3::zero();
    let dir = Fx3::new(Fx::zero(), Fx::zero(), Fx::one());
    let tr = trace(&origin, &dir, &bh, false, 0);
    assert!(tr.captured);
    assert_eq!(tr.color, Fx3::zero());
    assert_eq!(tr.opacity.v, 0);
}

#[test]
fn infalling_ray_is_captured_and_gets_no_sky() {
    // a ray aimed straight at a massive hole from z = 3 crosses the
    // horizon within the budget; captured rays take zero sky radiance
    // whatever the sky and whatever the disc state
    let bh = BlackHole {
        a: Fx::zero(),
        steps: 128,
        ..BlackHole::default()
    };
    let origin = Fx3::new(Fx::zero(), Fx::zero(), Fx::from_int(3));
    let dir = Fx3::new(Fx::zero(), Fx::zero(), Fx::one().neg());
    let tr = trace(&origin, &dir, &bh, false, 0);
    assert!(tr.captured);
    let sky_a = Fx3::new(Fx::one(), Fx::one(), Fx::one());
    let sky_b = Fx3::new(Fx::from_int(7), Fx::zero(), Fx::from_int(3));
    let ca = composite_sky(&tr, &sky_a, true);
    let cb = composite_sky(&tr, &sky_b, true);
    assert_eq!(ca, cb);
    // the disc was off, so the captured pixel is black
    assert_eq!(ca, Fx3::zero());
}

#[test]
fn escaped_ray_composites_sky_behind_transmittance() {
    let bh = flat_params(32768, 8);
    let origin = Fx3::new(Fx::zero(), Fx::zero(), Fx::from_int(10));
    let dir = Fx3::new(Fx::zero(), Fx::zero(), Fx::one());
    let tr = trace(&origin, &dir, &bh, false, 0);
    assert!(!tr.captured);
    let sky = Fx3::new(Fx::one(), Fx::from_raw(32768), Fx::zero());
    let c = composite_sky(&tr, &sky, true);
    // no disc radiance and zero opacity: the pixel is the sky itself
    assert_eq!(c.x.v, SCALE);
    assert_eq!(c.y.v, 32768);
    assert_eq!(c.z.v, 0);
    // with the skybox disabled the same ray yields black
    let dark = composite_sky(&tr, &sky, false);
    assert_eq!(dark, Fx3::zero());
}
