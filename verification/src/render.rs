//! Per-pixel rendering and the frame-sequential renderer.
//!
//! A pixel becomes a normalized camera-space ray through the focal plane,
//! rotated into world space by the view basis; the geodesic integrator
//! traces it, and the sky sample that the external environment lookup
//! supplies for the exit direction is composited behind the disc
//! radiance. Pixels are mutually independent: each is a pure function of
//! the view, the parameters, the per-frame seed and the sky sample, so a
//! data-parallel schedule needs no cross-pixel state; here they are
//! produced in a sequential loop with one synchronization point, the
//! accumulator, at frame completion.

use vstd::prelude::*;
use vstd::view::View as _;
use vstd::arithmetic::div_mod::{lemma_multiply_divide_lt, lemma_fundamental_div_mod};
use crate::fixed::{Fx, addv, subv, mulv, divv, SCALE, FX_MAX};
use crate::vecmath::{Fx3, Gv3, bounded3, addv3, scalev3, normalizev3, lemma_mulv_self_nonneg};
use crate::types::{BlackHole, View, skybox_on, disc_on, FLAG_SKYBOX, FLAG_DISC};
use crate::geodesic::{trace, TraceResult, traj_v, init_state_v, captured_v};
use crate::accum::{FrameAccumulator, sum_plus_v, mean3_v};

verus! {

/// The normalized world-space direction of the primary ray through pixel
/// `(px, py)`: the pixel center is mapped to `[-1, 1]` screen coordinates
/// (aspect-corrected, `y` up), combined with the focal length, normalized,
/// and rotated by the view basis.
pub open spec fn pixel_dir_v(view: View, px: int, py: int) -> Gv3 {
    let w = (view.width as int) * SCALE;
    let h = (view.height as int) * SCALE;
    let u = divv(subv(addv(2 * px * SCALE, SCALE as int), w), w);
    let v = divv(subv(h, addv(2 * py * SCALE, SCALE as int)), h);
    let ua = mulv(u, divv(w, h));
    let cam = normalizev3(Gv3 { x: ua, y: v, z: view.focal_length@ });
    addv3(
        addv3(scalev3(cam.x, view.right@), scalev3(cam.y, view.up@)),
        scalev3(cam.z, view.forward@),
    )
}

/// The normalized world-space primary ray for a pixel.
pub fn pixel_dir(view: &View, px: u32, py: u32) -> (dir: Fx3)
    requires
        view.wf(),
        px < view.width,
        py < view.height,
    ensures
        dir@ == pixel_dir_v(*view, px as int, py as int),
        dir.bounded(),
{
    let wf: Fx = Fx::from_int(view.width as i64);
    let hf: Fx = Fx::from_int(view.height as i64);
    let pxf: Fx = Fx::from_int(px as i64);
    let pyf: Fx = Fx::from_int(py as i64);
    proof {
        assert(2 * (px as int) * SCALE == (px as int) * SCALE + (px as int) * SCALE) by (nonlinear_arith);
        assert(2 * (py as int) * SCALE == (py as int) * SCALE + (py as int) * SCALE) by (nonlinear_arith);
    }
    let u: Fx = pxf.add(pxf).add(Fx::one()).sub(wf).div(wf);
    let v: Fx = hf.sub(pyf.add(pyf).add(Fx::one())).div(hf);
    let ua: Fx = u.mul(wf.div(hf));
    let f: Fx = view.focal_length;
    proof {
        assert((f@) * (f@) >= 65536) by (nonlinear_arith)
            requires
                f@ >= 256,
        ;
        vstd::arithmetic::div_mod::lemma_div_is_ordered(65536int, (f@) * (f@), SCALE as int);
        crate::fixed::lemma_abs_mul(f@, f@);
        lemma_mulv_self_nonneg(ua@);
        lemma_mulv_self_nonneg(v@);
    }
    let cam: Fx3 = Fx3::new(ua, v, f).normalize();
    view.right.scale(cam.x).add(view.up.scale(cam.y)).add(view.forward.scale(cam.z))
}

/// A pixel's final radiance given its trace outcome and a sky sample:
/// the disc radiance plus — only for escaped rays with the skybox on —
/// the sky attenuated by the remaining transmittance. A captured ray
/// takes no sky contribution whatever the disc state or the sky value.
/// Every channel is floored at zero, so a negative (non-physical) sky
/// sample can only darken toward black and never corrupts the result.
pub open spec fn composite_sky_v(
    captured: bool,
    color: Gv3,
    opacity: int,
    sky: Gv3,
    skybox: bool,
) -> Gv3 {
    if captured || !skybox {
        Gv3 { x: floor0(color.x), y: floor0(color.y), z: floor0(color.z) }
    } else {
        let trans = subv(SCALE as int, opacity);
        Gv3 {
            x: floor0(addv(color.x, mulv(trans, sky.x))),
            y: floor0(addv(color.y, mulv(trans, sky.y))),
            z: floor0(addv(color.z, mulv(trans, sky.z))),
        }
    }
}

/// A channel floored at zero (black).
pub open spec fn floor0(x: int) -> int {
    if x < 0 {
        0
    } else {
        x
    }
}

/// Composites the sky sample behind a trace outcome.
pub fn composite_sky(tr: &TraceResult, sky: &Fx3, skybox_enabled: bool) -> (c: Fx3)
    requires
        tr.color.bounded(),
        sky.bounded(),
        0 <= tr.opacity@ <= SCALE,
    ensures
        c@ == composite_sky_v(tr.captured, tr.color@, tr.opacity@, sky@, skybox_enabled),
        c.bounded(),
        0 <= c@.x,
        0 <= c@.y,
        0 <= c@.z,
{
    if tr.captured || !skybox_enabled {
        Fx3 { x: pos_part(tr.color.x), y: pos_part(tr.color.y), z: pos_part(tr.color.z) }
    } else {
        let trans: Fx = Fx::one().sub(tr.opacity);
        Fx3 {
            x: pos_part(tr.color.x.add(trans.mul(sky.x))),
            y: pos_part(tr.color.y.add(trans.mul(sky.y))),
            z: pos_part(tr.color.z.add(trans.mul(sky.z))),
        }
    }
}

fn pos_part(x: Fx) -> (r: Fx)
    requires
        x.bounded(),
    ensures
        r@ == floor0(x@),
        r.bounded(),
        0 <= r@,
{
    if x.v < 0 {
        Fx { v: 0 }
    } else {
        x
    }
}

/// Capture law: a captured ray's pixel does not depend on the sky at all —
/// it contributes zero sky radiance regardless of the disc state.
pub proof fn lemma_captured_no_sky(color: Gv3, opacity: int, sky1: Gv3, sky2: Gv3, skybox: bool)
    ensures
        composite_sky_v(true, color, opacity, sky1, skybox) == composite_sky_v(
            true,
            color,
            opacity,
            sky2,
            skybox,
        ),
{
}

/// The final radiance of pixel `(px, py)` for one frame: the composited
/// outcome of tracing its primary ray.
pub open spec fn pixel_color_v(
    view: View,
    bh: BlackHole,
    sky: Gv3,
    seed: u32,
    px: int,
    py: int,
) -> Gv3 {
    let fin = traj_v(
        init_state_v(view.position@, pixel_dir_v(view, px, py), bh),
        bh,
        disc_on(view.flags),
        seed,
        bh.steps as nat,
    );
    composite_sky_v(
        captured_v(fin, bh),
        fin.color,
        fin.opacity,
        sky,
        skybox_on(view.flags),
    )
}

/// Traces the primary ray of one pixel. Pixels are independent: the
/// result is a pure function of the arguments.
pub fn render_pixel(view: &View, bh: &BlackHole, sky: &Fx3, px: u32, py: u32, seed: u32) -> (c:
    Fx3)
    requires
        view.wf(),
        bh.wf(),
        sky.bounded(),
        px < view.width,
        py < view.height,
    ensures
        c@ == pixel_color_v(*view, *bh, sky@, seed, px as int, py as int),
        c.bounded(),
        0 <= c@.x,
        0 <= c@.y,
        0 <= c@.z,
{
    let dir: Fx3 = pixel_dir(view, px, py);
    let disc: bool = view.flags & FLAG_DISC != 0;
    let skyb: bool = view.flags & FLAG_SKYBOX != 0;
    let tr: TraceResult = trace(&view.position, &dir, bh, disc, seed);
    composite_sky(&tr, sky, skyb)
}

/// The per-pixel radiance sum after folding `k` consecutive frames onto a
/// base sum: frame number `j` of the call (zero-based) is seeded by the
/// running frame counter `c0 + j`.
pub open spec fn sums_after_v(
    base: (int, int, int),
    view: View,
    bh: BlackHole,
    sky: Gv3,
    c0: int,
    k: nat,
    i: int,
) -> (int, int, int)
    decreases k,
{
    if k == 0 {
        base
    } else {
        sum_plus_v(
            sums_after_v(base, view, bh, sky, c0, (k - 1) as nat, i),
            pixel_color_v(
                view,
                bh,
                sky,
                (c0 + k - 1) as u32,
                i % (view.width as int),
                i / (view.width as int),
            ),
        )
    }
}

/// The frame-sequential renderer: a view, a parameter snapshot, and the
/// progressive accumulator. Frames are strictly sequential; the external
/// layer mutates the view and parameters only between frames, and the
/// accumulator resets itself whenever they changed.
pub struct Renderer {
    view: View,
    black_hole: BlackHole,
    frames: u32,
    acc: FrameAccumulator,
}

impl Renderer {
    pub closed spec fn spec_view(self) -> View {
        self.view
    }

    pub closed spec fn params(self) -> BlackHole {
        self.black_hole
    }

    pub closed spec fn spec_frames(self) -> u32 {
        self.frames
    }

    /// Frames accumulated since the last reset.
    pub closed spec fn count(self) -> int {
        self.acc.count()
    }

    /// Exact per-pixel radiance sums of the accumulated frames.
    pub closed spec fn sums(self) -> Seq<(int, int, int)> {
        self.acc.sums()
    }

    /// View and parameters of the previously rendered frame, if any.
    pub closed spec fn last(self) -> Option<(View, BlackHole)> {
        self.acc.last()
    }

    pub open spec fn npixels(self) -> int {
        self.spec_view().width * self.spec_view().height
    }

    pub closed spec fn acc_wf(self) -> bool {
        &&& self.acc.wf()
        &&& self.acc.spec_width() == self.view.width
        &&& self.acc.spec_height() == self.view.height
    }

    pub open spec fn wf(self) -> bool {
        &&& self.spec_view().wf()
        &&& self.params().wf()
        &&& self.acc_wf()
    }

    /// A renderer with the default view (camera at the origin, identity
    /// basis, focal length 1.5, skybox and disc enabled) and the default
    /// parameters.
    pub fn new(width: u32, height: u32) -> (r: Renderer)
        requires
            1 <= width <= 16384,
            1 <= height <= 16384,
        ensures
            r.wf(),
            r.spec_view().width == width,
            r.spec_view().height == height,
            r.spec_frames() == 1,
            r.count() == 0,
            r.last() is None,
    {
        let view = View {
            right: Fx3::new(Fx::one(), Fx::zero(), Fx::zero()),
            up: Fx3::new(Fx::zero(), Fx::one(), Fx::zero()),
            forward: Fx3::new(Fx::zero(), Fx::zero(), Fx::one()),
            position: Fx3::zero(),
            focal_length: Fx { v: 98304 },
            width,
            height,
            flags: FLAG_SKYBOX | FLAG_DISC,
        };
        Renderer {
            view,
            black_hole: BlackHole::default(),
            frames: 1,
            acc: FrameAccumulator::new(width, height),
        }
    }

    /// Replaces the camera pose and projection for the next frame.
    pub fn set_view(&mut self, position: Fx3, right: Fx3, up: Fx3, forward: Fx3, focal_length: Fx)
        requires
            old(self).wf(),
            position.bounded(),
            right.bounded(),
            up.bounded(),
            forward.bounded(),
            256 <= focal_length@ <= FX_MAX,
        ensures
            final(self).wf(),
            final(self).spec_view() == (View {
                position,
                right,
                up,
                forward,
                focal_length,
                ..old(self).spec_view()
            }),
            final(self).params() == old(self).params(),
            final(self).spec_frames() == old(self).spec_frames(),
            final(self).count() == old(self).count(),
            final(self).sums() == old(self).sums(),
            final(self).last() == old(self).last(),
    {
        self.view.position = position;
        self.view.right = right;
        self.view.up = up;
        self.view.forward = forward;
        self.view.focal_length = focal_length;
    }

    /// Stages a parameter snapshot for the next frame (already clamped
    /// through `BlackHole::sanitized` at the application boundary).
    pub fn set_params(&mut self, bh: &BlackHole)
        requires
            old(self).wf(),
            bh.wf(),
        ensures
            final(self).wf(),
            final(self).params() == *bh,
            final(self).spec_view() == old(self).spec_view(),
            final(self).spec_frames() == old(self).spec_frames(),
            final(self).count() == old(self).count(),
            final(self).sums() == old(self).sums(),
            final(self).last() == old(self).last(),
    {
        self.black_hole = *bh;
    }

    pub fn set_render_skybox(&mut self, v: bool)
        requires
            old(self).wf(),
        ensures
            final(self).wf(),
            final(self).spec_view().flags == if v {
                old(self).spec_view().flags | FLAG_SKYBOX
            } else {
                old(self).spec_view().flags & !FLAG_SKYBOX
            },
            skybox_on(final(self).spec_view().flags) == v,
            disc_on(final(self).spec_view().flags) == disc_on(old(self).spec_view().flags),
            final(self).spec_view() == (View { flags: final(self).spec_view().flags, ..old(self).spec_view() }),
            final(self).params() == old(self).params(),
            final(self).spec_frames() == old(self).spec_frames(),
            final(self).count() == old(self).count(),
            final(self).sums() == old(self).sums(),
            final(self).last() == old(self).last(),
    {
        let f = self.view.flags;
        if v {
            self.view.flags = f | FLAG_SKYBOX;
        } else {
            self.view.flags = f & !FLAG_SKYBOX;
        }
        proof {
            assert((f | 1u32) & 1 != 0 && (((f | 1u32) & 2 != 0) == (f & 2 != 0)) && (f & !1u32)
                & 1 == 0 && (((f & !1u32) & 2 != 0) == (f & 2 != 0))) by (bit_vector);
        }
    }

    pub fn set_render_disc(&mut self, v: bool)
        requires
            old(self).wf(),
        ensures
            final(self).wf(),
            final(self).spec_view().flags == if v {
                old(self).spec_view().flags | FLAG_DISC
            } else {
                old(self).spec_view().flags & !FLAG_DISC
            },
            disc_on(final(self).spec_view().flags) == v,
            skybox_on(final(self).spec_view().flags) == skybox_on(old(self).spec_view().flags),
            final(self).spec_view() == (View { flags: final(self).spec_view().flags, ..old(self).spec_view() }),
            final(self).params() == old(self).params(),
            final(self).spec_frames() == old(self).spec_frames(),
            final(self).count() == old(self).count(),
            final(self).sums() == old(self).sums(),
            final(self).last() == old(self).last(),
    {
        let f = self.view.flags;
        if v {
            self.view.flags = f | FLAG_DISC;
        } else {
            self.view.flags = f & !FLAG_DISC;
        }
        proof {
            assert((f | 2u32) & 2 != 0 && (((f | 2u32) & 1 != 0) == (f & 1 != 0)) && (f & !2u32)
                & 2 == 0 && (((f & !2u32) & 1 != 0) == (f & 1 != 0))) by (bit_vector);
        }
    }

    /// Number of frames one `render` call produces.
    pub fn set_frames(&mut self, frames: u32)
        requires
            old(self).wf(),
        ensures
            final(self).wf(),
            final(self).spec_frames() == frames,
            final(self).spec_view() == old(self).spec_view(),
            final(self).params() == old(self).params(),
            final(self).count() == old(self).count(),
            final(self).sums() == old(self).sums(),
            final(self).last() == old(self).last(),
    {
        self.frames = frames;
    }

    /// Renders one frame and folds it into the accumulator: if the view
    /// and parameters equal the previous frame's, history is kept and the
    /// counter advances by one; any change resets the history first, so
    /// this frame becomes frame one. The frame counter before the frame
    /// seeds the disc noise.
    pub fn render_frame(&mut self, sky: &Fx3)
        requires
            old(self).wf(),
            sky.bounded(),
            old(self).count() < 0xFFFF_FFFF,
        ensures
            final(self).wf(),
            final(self).spec_view() == old(self).spec_view(),
            final(self).params() == old(self).params(),
            final(self).spec_frames() == old(self).spec_frames(),
            final(self).last() == Some((old(self).spec_view(), old(self).params())),
            ({
                let same = old(self).last() == Some((old(self).spec_view(), old(self).params()));
                let base = if same {
                    old(self).count()
                } else {
                    0
                };
                &&& final(self).count() == base + 1
                &&& final(self).sums().len() == final(self).npixels()
                &&& forall|i: int|
                    0 <= i < final(self).sums().len() ==> final(self).sums()[i] == sum_plus_v(
                        if same {
                            old(self).sums()[i]
                        } else {
                            (0int, 0int, 0int)
                        },
                        pixel_color_v(
                            old(self).spec_view(),
                            old(self).params(),
                            sky@,
                            base as u32,
                            i % (old(self).spec_view().width as int),
                            i / (old(self).spec_view().width as int),
                        ),
                    )
            }),
    {
        self.acc.begin_frame(&self.view, &self.black_hole);
        let seed: u32 = self.acc.frame_count();
        let w: u32 = self.view.width;
        let h: u32 = self.view.height;
        proof {
            assert(w * h <= 0x1000_0000) by (nonlinear_arith)
                requires
                    w <= 16384 && h <= 16384,
            ;
        }
        let n: u32 = w * h;
        let mut frame: Vec<Fx3> = Vec::new();
        let mut i: u32 = 0;
        while i < n
            invariant
                self.wf(),
                sky.bounded(),
                n == w * h,
                w == self.view.width,
                h == self.view.height,
                i <= n,
                frame@.len() == i,
                forall|j: int|
                    0 <= j < i ==> (#[trigger] frame@[j])@ == pixel_color_v(
                        self.view,
                        self.black_hole,
                        sky@,
                        seed,
                        j % (w as int),
                        j / (w as int),
                    ),
                forall|j: int| 0 <= j < i ==> bounded3(#[trigger] frame@[j]@),
            decreases n - i,
        {
            let px: u32 = i % w;
            let py: u32 = i / w;
            proof {
                lemma_multiply_divide_lt(i as int, w as int, h as int);
                lemma_fundamental_div_mod(i as int, w as int);
            }
            let c: Fx3 = render_pixel(&self.view, &self.black_hole, sky, px, py, seed);
            frame.push(c);
            i = i + 1;
        }
        self.acc.accumulate(&frame);
    }

    /// Renders the configured number of frames in strict sequence. The
    /// first frame applies any staged view or parameter change (resetting
    /// history if they differ from the previous frame); every following
    /// frame sees identical state, so the counter then advances by
    /// exactly one per frame.
    #[verifier::rlimit(100)]
    pub fn render(&mut self, sky: &Fx3)
        requires
            old(self).wf(),
            sky.bounded(),
            old(self).count() + old(self).spec_frames() < 0xFFFF_FFFF,
        ensures
            final(self).wf(),
            final(self).spec_view() == old(self).spec_view(),
            final(self).params() == old(self).params(),
            final(self).spec_frames() == old(self).spec_frames(),
            old(self).spec_frames() == 0 ==> final(self).count() == old(self).count(),
            old(self).spec_frames() >= 1 ==> ({
                let same = old(self).last() == Some((old(self).spec_view(), old(self).params()));
                let base = if same {
                    old(self).count()
                } else {
                    0
                };
                &&& final(self).count() == base + old(self).spec_frames()
                &&& final(self).sums().len() == final(self).npixels()
                &&& forall|i: int|
                    0 <= i < final(self).sums().len() ==> final(self).sums()[i] == sums_after_v(
                        if same {
                            old(self).sums()[i]
                        } else {
                            (0int, 0int, 0int)
                        },
                        old(self).spec_view(),
                        old(self).params(),
                        sky@,
                        base,
                        old(self).spec_frames() as nat,
                        i,
                    )
            }),
    {
        let ghost base = if old(self).last() == Some((old(self).spec_view(), old(self).params())) {
            old(self).count()
        } else {
            0
        };
        let total: u32 = self.frames;
        let mut k: u32 = 0;
        while k < total
            invariant
                self.wf(),
                sky.bounded(),
                total == self.frames,
                k <= total,
                self.spec_view() == old(self).spec_view(),
                self.params() == old(self).params(),
                self.spec_frames() == old(self).spec_frames(),
                base + total < 0xFFFF_FFFF,
                base == if old(self).last() == Some(
                    (old(self).spec_view(), old(self).params()),
                ) {
                    old(self).count()
                } else {
                    0
                },
                old(self).sums().len() == old(self).npixels(),
                old(self).npixels() == self.npixels(),
                k == 0 ==> self.count() == old(self).count() && self.last() == old(self).last()
                    && self.sums() == old(self).sums(),
                k >= 1 ==> self.count() == base + k && self.last() == Some(
                    (self.spec_view(), self.params()),
                ),
                k >= 1 ==> self.sums().len() == self.npixels() && forall|i: int|
                    0 <= i < self.sums().len() ==> self.sums()[i] == sums_after_v(
                        if old(self).last() == Some((old(self).spec_view(), old(self).params())) {
                            old(self).sums()[i]
                        } else {
                            (0int, 0int, 0int)
                        },
                        old(self).spec_view(),
                        old(self).params(),
                        sky@,
                        base,
                        k as nat,
                        i,
                    ),
                old(self).count() + old(self).spec_frames() < 0xFFFF_FFFF,
            decreases total - k,
        {
            let ghost prev = *self;
            self.render_frame(sky);
            proof {
                let same = old(self).last() == Some((old(self).spec_view(), old(self).params()));
                let view0 = old(self).spec_view();
                let bh0 = old(self).params();
                assert forall|i: int| 0 <= i < self.sums().len() implies self.sums()[i]
                    == sums_after_v(
                    if same {
                        old(self).sums()[i]
                    } else {
                        (0int, 0int, 0int)
                    },
                    view0,
                    bh0,
                    sky@,
                    base,
                    (k + 1) as nat,
                    i,
                ) by {
                    let b = if same {
                        old(self).sums()[i]
                    } else {
                        (0int, 0int, 0int)
                    };
                    assert(sums_after_v(b, view0, bh0, sky@, base, (k + 1) as nat, i)
                        == sum_plus_v(
                        sums_after_v(b, view0, bh0, sky@, base, k as nat, i),
                        pixel_color_v(
                            view0,
                            bh0,
                            sky@,
                            (base + k) as u32,
                            i % (view0.width as int),
                            i / (view0.width as int),
                        ),
                    ));
                    if k == 0 {
                        assert(sums_after_v(b, view0, bh0, sky@, base, 0nat, i) == b);
                        assert(prev.sums() == old(self).sums());
                    }
                }
            }
            k = k + 1;
        }
    }

    /// Frames accumulated since the last reset.
    pub fn frame_count(&self) -> (c: u32)
        ensures
            c as int == self.count(),
    {
        self.acc.frame_count()
    }

    /// The accumulated image: per pixel, the exact radiance sum divided
    /// by the frame count.
    pub fn target(&self) -> (img: Vec<Fx3>)
        requires
            self.wf(),
            self.count() > 0,
        ensures
            img@.len() == self.npixels(),
            forall|i: int|
                0 <= i < img@.len() ==> (#[trigger] img@[i])@ == mean3_v(
                    self.sums()[i],
                    self.count(),
                ),
    {
        self.acc.current()
    }
}

} // verus!
