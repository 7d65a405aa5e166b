use blackhole::fixed::{Fx, FX_MAX, SCALE};
use blackhole::geodesic::trace;
use blackhole::render::{composite_sky, pixel_dir, Renderer};
use blackhole::types::{BlackHole, View};
use blackhole::vecmath::Fx3;

fn scenario_params() -> BlackHole {
    // spin 0.3, mass 1, charge 0.2
    BlackHole {
        a: Fx::from_ratio(3, 10),
        m: Fx::one(),
        q: Fx::from_ratio(2, 10),
        ..BlackHole::default()
    }
}

fn scenario_view(width: u32, height: u32) -> View {
    // camera at distance 30 along -z, looking at the origin
    View {
        right: Fx3::new(Fx::one(), Fx::zero(), Fx::zero()),
        up: Fx3::new(Fx::zero(), Fx::one(), Fx::zero()),
        forward: Fx3::new(Fx::zero(), Fx::zero(), Fx::one()),
        position: Fx3::new(Fx::zero(), Fx::zero(), Fx::from_int(-30)),
        focal_length: Fx::from_raw(98304),
        width,
        height,
        flags: 1,
    }
}

#[test]
fn every_scenario_pixel_is_black_or_finite_sky() {
    // disc disabled, skybox enabled: every pixel is either captured
    // (black) or escapes with finite, nonnegative sky radiance; no pixel
    // can be non-finite, since every value is a bounded integer
    let bh = scenario_params();
    let view = scenario_view(8, 8);
    let sky = Fx3::new(Fx::one(), Fx::from_raw(49152), Fx::from_raw(32768));
    let mut captured_count = 0u32;
    for py in 0..8u32 {
        for px in 0..8u32 {
            let dir = pixel_dir(&view, px, py);
            let tr = trace(&view.position, &dir, &bh, false, 0);
            // the disc is off, so no volumetric radiance accumulates
            assert_eq!(tr.color, Fx3::zero());
            assert_eq!(tr.opacity.v, 0);
            let c = composite_sky(&tr, &sky, true);
            for ch in [c.x.v, c.y.v, c.z.v] {
                assert!(ch >= 0);
                assert!(ch <= FX_MAX);
            }
            if tr.captured {
                captured_count += 1;
                assert_eq!(c, Fx3::zero());
            } else {
                // an escaped central ray keeps the full sky (opacity 0)
                assert_eq!(c.x.v, SCALE);
            }
        }
    }
    // from 30 units away the hole subtends a small angle: some rays
    // escape; with lensing at least the central rays are captured
    assert!(captured_count > 0);
    assert!(captured_count < 64);
}

#[test]
fn renderer_end_to_end_accumulates_frames() {
    let mut renderer = Renderer::new(4, 4);
    renderer.set_view(
        Fx3::new(Fx::zero(), Fx::zero(), Fx::from_int(-30)),
        Fx3::new(Fx::one(), Fx::zero(), Fx::zero()),
        Fx3::new(Fx::zero(), Fx::one(), Fx::zero()),
        Fx3::new(Fx::zero(), Fx::zero(), Fx::one()),
        Fx::from_raw(98304),
    );
    renderer.set_params(&scenario_params());
    renderer.set_render_disc(false);
    renderer.set_render_skybox(true);
    renderer.set_frames(2);
    let sky = Fx3::new(Fx::from_raw(40000), Fx::from_raw(30000), Fx::from_raw(20000));
    renderer.render(&sky);
    assert_eq!(renderer.frame_count(), 2);
    let img = renderer.target();
    assert_eq!(img.len(), 16);
    for px in img {
        for ch in [px.x.v, px.y.v, px.z.v] {
            assert!(ch >= 0);
            assert!(ch <= FX_MAX);
        }
    }
    // rendering again with unchanged state extends the history
    renderer.render(&sky);
    assert_eq!(renderer.frame_count(), 4);
    // a camera change resets the progressive history
    renderer.set_view(
        Fx3::new(Fx::zero(), Fx::zero(), Fx::from_int(-29)),
        Fx3::new(Fx::one(), Fx::zero(), Fx::zero()),
        Fx3::new(Fx::zero(), Fx::one(), Fx::zero()),
        Fx3::new(Fx::zero(), Fx::zero(), Fx::one()),
        Fx::from_raw(98304),
    );
    renderer.render(&sky);
    assert_eq!(renderer.frame_count(), 2);
}

#[test]
fn disc_enabled_scenario_stays_finite() {
    let mut renderer = Renderer::new(4, 4);
    renderer.set_view(
        Fx3::new(Fx::zero(), Fx::zero(), Fx::from_int(-20)),
        Fx3::new(Fx::one(), Fx::zero(), Fx::zero()),
        Fx3::new(Fx::zero(), Fx::one(), Fx::zero()),
        Fx3::new(Fx::zero(), Fx::zero(), Fx::one()),
        Fx::from_raw(98304),
    );
    renderer.set_render_disc(true);
    renderer.set_render_skybox(true);
    renderer.set_frames(1);
    let sky = Fx3::new(Fx::from_raw(10000), Fx::from_raw(10000), Fx::from_raw(10000));
    renderer.render(&sky);
    for px in renderer.target() {
        for ch in [px.x.v, px.y.v, px.z.v] {
            assert!(ch >= 0);
            assert!(ch <= FX_MAX);
        }
    }
}

#[test]
fn pixel_rays_are_unit_length_and_forward() {
    let view = scenario_view(8, 8);
    for py in 0..8u32 {
        for px in 0..8u32 {
            let dir = pixel_dir(&view, px, py);
            // the camera looks along +z with focal length 1.5: all primary
            // rays lean forward
            assert!(dir.z.v > 0);
            let len2 = dir.dot(dir).v;
            // normalized in fixed point: the squared length is one up to
            // rounding of the component divisions
            assert!((len2 - SCALE).abs() < 2048);
        }
    }
}
