use blackhole::fixed::{Fx, SCALE};
use blackhole::image::Image;
use blackhole::types::{BlackHole, RenderContext};
use blackhole::vecmath::Fx3;

#[test]
fn default_parameters_match_the_reference_configuration() {
    let bh = BlackHole::default();
    assert_eq!(bh.cdist.v, 120 * SCALE);
    assert_eq!(bh.a.v, 19660);
    assert_eq!(bh.m.v, SCALE);
    assert_eq!(bh.q.v, 13107);
    assert_eq!(bh.disc_radius.v, 10 * SCALE);
    assert_eq!(bh.disc_height.v, 52428);
    assert_eq!(bh.disc_falloff_radial.v, 6553);
    assert_eq!(bh.disc_falloff_vertical.v, 32768);
    assert_eq!(bh.disc_emission_falloff_radial.v, 3932);
    assert_eq!(bh.disc_emission_falloff_vertical.v, 39321);
    assert_eq!(bh.disc_temperature_scale.v, 4000 * SCALE);
    assert_eq!(bh.disc_temperature_offset.v, 2000 * SCALE);
    assert_eq!(bh.disc_radial_scale.v, 8 * SCALE);
    assert_eq!(bh.dt_min.v, 1966);
    assert_eq!(bh.dt_max.v, 10 * SCALE);
    assert_eq!(bh.steps, 128);
}

#[test]
fn sanitized_clamps_spin_into_the_physical_range() {
    // a spin at or above one is a non-physical (naked-singularity)
    // configuration: the apply boundary clamps instead of failing
    let wild = BlackHole {
        a: Fx::from_int(2),
        m: Fx::from_int(-1),
        dt_min: Fx::from_int(-1),
        dt_max: Fx::from_int(-5),
        ..BlackHole::default()
    };
    let bh = wild.sanitized();
    assert_eq!(bh.a.v, SCALE - 1);
    assert_eq!(bh.m.v, 0);
    assert_eq!(bh.dt_min.v, 1);
    assert_eq!(bh.dt_max.v, 1);
    let negative_spin = BlackHole {
        a: Fx::from_int(-1),
        ..BlackHole::default()
    }
    .sanitized();
    assert_eq!(negative_spin.a.v, 0);
    // an already valid configuration passes through unchanged
    assert_eq!(BlackHole::default().sanitized(), BlackHole::default());
}

#[test]
fn render_context_flags_toggle_independently() {
    let mut ctx = RenderContext::new();
    assert_eq!(ctx.flags, u32::MAX);
    ctx.unset_render_skybox();
    assert_eq!(ctx.flags & 1, 0);
    assert_eq!(ctx.flags & 2, 2);
    ctx.unset_render_disc();
    assert_eq!(ctx.flags & 2, 0);
    ctx.set_render_skybox();
    assert_eq!(ctx.flags & 1, 1);
    assert_eq!(ctx.flags & 2, 0);
    ctx.set_render_disc();
    assert_eq!(ctx.flags & 2, 2);
}

#[test]
fn render_context_set_camera_replaces_the_pose() {
    let mut ctx = RenderContext::new();
    let pos = Fx3::new(Fx::from_int(1), Fx::from_int(2), Fx::from_int(3));
    let r = Fx3::new(Fx::zero(), Fx::zero(), Fx::one());
    let u = Fx3::new(Fx::zero(), Fx::one(), Fx::zero());
    let f = Fx3::new(Fx::one().neg(), Fx::zero(), Fx::zero());
    ctx.set_camera(pos, r, u, f);
    assert_eq!(ctx.position, pos);
    assert_eq!(ctx.right, r);
    assert_eq!(ctx.up, u);
    assert_eq!(ctx.forward, f);
    assert_eq!(ctx.focal_length.v, 98304);
    assert!(ctx.reset_frame_count);
}

#[test]
fn image_new_fill_set_get() {
    let mut img: Image<3, i64> = Image::new_fill(4, 3, [7, 8, 9]);
    assert_eq!(img.width(), 4);
    assert_eq!(img.height(), 3);
    assert_eq!(img.get(0, 0), [7, 8, 9]);
    assert_eq!(img.get(3, 2), [7, 8, 9]);
    img.set(2, 1, [1, 2, 3]);
    assert_eq!(img.get(2, 1), [1, 2, 3]);
    assert_eq!(img.get(1, 2), [7, 8, 9]);
}

#[test]
fn image_holds_fixed_point_pixels() {
    let img: Image<4, Fx> = Image::new_fill(2, 2, [Fx::zero(); 4]);
    assert_eq!(img.get(1, 1), [Fx::zero(); 4]);
}
