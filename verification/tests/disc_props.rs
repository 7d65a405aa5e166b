use blackhole::disc::{composite, shade_step, DiscSample};
use blackhole::fixed::{Fx, SCALE};
use blackhole::types::BlackHole;
use blackhole::vecmath::Fx3;

fn midplane(rx: i64) -> Fx3 {
    Fx3::new(Fx::from_int(rx), Fx::zero(), Fx::zero())
}

fn lifted(rx: i64, z_raw: i64) -> Fx3 {
    Fx3::new(Fx::from_int(rx), Fx::zero(), Fx::from_raw(z_raw))
}

#[test]
fn density_peaks_at_the_midplane_within_the_radius() {
    // inside the disc radius, at the midplane, both envelopes are at their
    // maximum, so the density is the full noise amplitude (at least 1/2)
    let bh = BlackHole::default();
    for rx in [1i64, 2, 5, 9] {
        let s = shade_step(&midplane(rx), &bh, 0);
        assert!(s.absorption.v >= 32768);
        assert!(s.absorption.v <= SCALE);
    }
}

#[test]
fn density_at_seed_zero_exact() {
    // with seed 0 the radial noise at integer radii vanishes, leaving
    // exactly the base amplitude of one half
    let bh = BlackHole::default();
    let s = shade_step(&midplane(2), &bh, 0);
    assert_eq!(s.absorption.v, 32768);
}

#[test]
fn density_decays_monotonically_with_height() {
    // at a fixed radius the density never increases with |z| and is
    // exactly zero beyond the falloff envelope
    let bh = BlackHole::default();
    let d0 = shade_step(&lifted(2, 0), &bh, 0).absorption.v;
    let d1 = shade_step(&lifted(2, SCALE), &bh, 0).absorption.v;
    let d2 = shade_step(&lifted(2, 2 * SCALE), &bh, 0).absorption.v;
    let d3 = shade_step(&lifted(2, 3 * SCALE), &bh, 0).absorption.v;
    assert!(d0 >= d1 && d1 >= d2 && d2 >= d3);
    assert!(d0 > 0);
    assert_eq!(d3, 0);
}

#[test]
fn emission_vanishes_beyond_the_envelope() {
    let bh = BlackHole::default();
    let far = shade_step(&lifted(2, 3 * SCALE), &bh, 0);
    assert_eq!(far.emission, Fx3::zero());
    let outside = shade_step(&midplane(30), &bh, 0);
    assert_eq!(outside.emission, Fx3::zero());
    assert_eq!(outside.absorption.v, 0);
}

#[test]
fn shading_is_deterministic_in_point_and_seed() {
    let bh = BlackHole::default();
    let p = lifted(3, 12345);
    let s1 = shade_step(&p, &bh, 42);
    let s2 = shade_step(&p, &bh, 42);
    assert_eq!(s1, s2);
}

#[test]
fn seed_varies_the_noise() {
    let bh = BlackHole::default();
    let p = midplane(1);
    let a = shade_step(&p, &bh, 0).absorption.v;
    let b = shade_step(&p, &bh, 1).absorption.v;
    assert!(a != b);
}

#[test]
fn compositing_grows_opacity_toward_one() {
    let bh = BlackHole::default();
    let sample: DiscSample = shade_step(&midplane(2), &bh, 0);
    let mut rgb = Fx3::zero();
    let mut alpha = Fx::zero();
    let dt = Fx::one();
    let mut last: i64 = 0;
    for _ in 0..64 {
        let (nrgb, nalpha) = composite(rgb, alpha, &sample, dt);
        assert!(nalpha.v >= last);
        assert!(nalpha.v <= SCALE);
        assert!(nrgb.x.v >= rgb.x.v);
        rgb = nrgb;
        alpha = nalpha;
        last = nalpha.v;
    }
    // half-density samples of unit depth opacify the ray quickly
    assert!(alpha.v > 60000);
}
