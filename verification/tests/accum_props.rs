use blackhole::accum::FrameAccumulator;
use blackhole::fixed::{Fx, SCALE};
use blackhole::types::{BlackHole, View};
use blackhole::vecmath::Fx3;

fn test_view() -> View {
    View {
        right: Fx3::new(Fx::one(), Fx::zero(), Fx::zero()),
        up: Fx3::new(Fx::zero(), Fx::one(), Fx::zero()),
        forward: Fx3::new(Fx::zero(), Fx::zero(), Fx::one()),
        position: Fx3::zero(),
        focal_length: Fx::from_raw(98304),
        width: 2,
        height: 2,
        flags: 1,
    }
}

fn constant_frame(v: Fx3) -> Vec<Fx3> {
    vec![v, v, v, v]
}

#[test]
fn identical_samples_reproduce_the_sample_exactly() {
    // feeding K identical frames yields exactly that frame back
    let view = test_view();
    let bh = BlackHole::default();
    let mut acc = FrameAccumulator::new(2, 2);
    let v = Fx3::new(Fx::from_int(3), Fx::from_raw(32768), Fx::from_raw(-12345));
    for _ in 0..7 {
        acc.begin_frame(&view, &bh);
        acc.accumulate(&constant_frame(v));
    }
    assert_eq!(acc.frame_count(), 7);
    let img = acc.current();
    assert_eq!(img.len(), 4);
    for px in img {
        assert_eq!(px, v);
    }
}

#[test]
fn mixture_reproduces_the_cumulative_mean() {
    // n1 frames of v1 then n2 frames of v2 give (n1 v1 + n2 v2)/(n1 + n2)
    let view = test_view();
    let bh = BlackHole::default();
    let mut acc = FrameAccumulator::new(2, 2);
    let v1 = Fx3::new(Fx::from_int(6), Fx::from_int(2), Fx::zero());
    let v2 = Fx3::new(Fx::from_int(3), Fx::from_int(8), Fx::from_int(3));
    for _ in 0..2 {
        acc.begin_frame(&view, &bh);
        acc.accumulate(&constant_frame(v1));
    }
    acc.begin_frame(&view, &bh);
    acc.accumulate(&constant_frame(v2));
    assert_eq!(acc.frame_count(), 3);
    let img = acc.current();
    for px in img {
        // (2*6 + 1*3)/3 = 5, (2*2 + 1*8)/3 = 4, (2*0 + 1*3)/3 = 1
        assert_eq!(px.x.v, 5 * SCALE);
        assert_eq!(px.y.v, 4 * SCALE);
        assert_eq!(px.z.v, 1 * SCALE);
    }
}

#[test]
fn camera_delta_resets_frame_count() {
    // any nonzero camera delta forces frame_count = 0 on the next frame;
    // identical consecutive frames advance it by exactly one
    let view = test_view();
    let bh = BlackHole::default();
    let mut acc = FrameAccumulator::new(2, 2);
    let v = Fx3::new(Fx::one(), Fx::one(), Fx::one());

    acc.begin_frame(&view, &bh);
    assert_eq!(acc.frame_count(), 0);
    acc.accumulate(&constant_frame(v));
    assert_eq!(acc.frame_count(), 1);

    acc.begin_frame(&view, &bh);
    assert_eq!(acc.frame_count(), 1);
    acc.accumulate(&constant_frame(v));
    assert_eq!(acc.frame_count(), 2);

    let mut moved = view;
    moved.position = Fx3::new(Fx::from_raw(1), Fx::zero(), Fx::zero());
    acc.begin_frame(&moved, &bh);
    assert_eq!(acc.frame_count(), 0);
    let img_is_empty_history = acc.frame_count() == 0;
    assert!(img_is_empty_history);
    acc.accumulate(&constant_frame(v));
    assert_eq!(acc.frame_count(), 1);
    // history was discarded: the mean is the single new frame
    for px in acc.current() {
        assert_eq!(px, v);
    }
}

#[test]
fn parameter_edit_resets_frame_count() {
    let view = test_view();
    let bh = BlackHole::default();
    let mut acc = FrameAccumulator::new(2, 2);
    let v = Fx3::new(Fx::one(), Fx::zero(), Fx::zero());
    acc.begin_frame(&view, &bh);
    acc.accumulate(&constant_frame(v));
    acc.begin_frame(&view, &bh);
    acc.accumulate(&constant_frame(v));
    assert_eq!(acc.frame_count(), 2);
    let edited = BlackHole {
        m: Fx::from_int(2),
        ..bh
    };
    acc.begin_frame(&view, &edited);
    assert_eq!(acc.frame_count(), 0);
}

#[test]
fn render_flag_change_resets_frame_count() {
    let view = test_view();
    let bh = BlackHole::default();
    let mut acc = FrameAccumulator::new(2, 2);
    let v = Fx3::new(Fx::one(), Fx::zero(), Fx::zero());
    acc.begin_frame(&view, &bh);
    acc.accumulate(&constant_frame(v));
    let mut toggled = view;
    toggled.flags = 3;
    acc.begin_frame(&toggled, &bh);
    assert_eq!(acc.frame_count(), 0);
}
