//! The progressive multi-frame accumulator.
//!
//! Two per-pixel buffers alternate roles by the parity of a monotonic
//! frame counter: each frame reads history from one buffer and writes the
//! combined result into the other, so the read and write targets never
//! alias within a frame. A frame whose camera view or parameters differ
//! from the previous frame resets the counter to zero and discards all
//! history; otherwise the counter advances by exactly one per frame.
//!
//! A buffer entry holds the exact integer sum of all accumulated samples,
//! and the output pixel is that sum divided by the frame count — the
//! cumulative running average `lerp(history, sample, 1/(count+1))`
//! computed without rounding drift.

use vstd::prelude::*;
use vstd::view::View as _;
use crate::fixed::{Fx, clampv, iabs, in_rangev, sdiv, FX_MAX};
use crate::vecmath::{Fx3, Gv3, bounded3};
use crate::types::{BlackHole, View};

verus! {

/// Exact per-pixel sums of the accumulated radiance samples.
#[derive(Clone, Copy, PartialEq, Eq, Structural, Debug)]
pub struct RadianceSum {
    pub r: i128,
    pub g: i128,
    pub b: i128,
}

impl vstd::view::View for RadianceSum {
    type V = (int, int, int);

    open spec fn view(&self) -> (int, int, int) {
        (self.r as int, self.g as int, self.b as int)
    }
}

/// The sum with one more sample added to each channel.
pub open spec fn sum_plus_v(s: (int, int, int), v: Gv3) -> (int, int, int) {
    (s.0 + v.x, s.1 + v.y, s.2 + v.z)
}

/// An output channel: the exact sum divided by the frame count, rounded
/// toward zero and clamped into the representable range.
pub open spec fn mean_v(sum: int, count: int) -> int {
    clampv(sdiv(sum, count))
}

pub open spec fn mean3_v(s: (int, int, int), count: int) -> Gv3 {
    Gv3 { x: mean_v(s.0, count), y: mean_v(s.1, count), z: mean_v(s.2, count) }
}

/// The double-buffered progressive accumulator.
pub struct FrameAccumulator {
    buf0: Vec<RadianceSum>,
    buf1: Vec<RadianceSum>,
    width: u32,
    height: u32,
    frame_count: u32,
    has_last: bool,
    last_view: View,
    last_params: BlackHole,
}

impl FrameAccumulator {
    pub closed spec fn spec_width(self) -> u32 {
        self.width
    }

    pub closed spec fn spec_height(self) -> u32 {
        self.height
    }

    /// Number of frames accumulated since the last reset.
    pub closed spec fn count(self) -> int {
        self.frame_count as int
    }

    /// The buffer that holds the sums of all frames accumulated so far:
    /// the one written by the most recent frame, selected by parity.
    pub closed spec fn sums(self) -> Seq<(int, int, int)> {
        if self.frame_count % 2 == 0 {
            self.buf1@.map_values(|s: RadianceSum| s@)
        } else {
            self.buf0@.map_values(|s: RadianceSum| s@)
        }
    }

    /// The view and parameters of the previous frame, if any.
    pub closed spec fn last(self) -> Option<(View, BlackHole)> {
        if self.has_last {
            Some((self.last_view, self.last_params))
        } else {
            None
        }
    }

    pub open spec fn npixels(self) -> int {
        self.spec_width() * self.spec_height()
    }

    pub closed spec fn bufs_wf(self) -> bool {
        &&& self.buf0@.len() == self.npixels()
        &&& self.buf1@.len() == self.npixels()
        &&& forall|i: int|
            0 <= i < self.buf0@.len() ==> sum_small(#[trigger] self.buf0@[i]@, self.frame_count as int)
        &&& forall|i: int|
            0 <= i < self.buf1@.len() ==> sum_small(#[trigger] self.buf1@[i]@, self.frame_count as int)
    }

    pub open spec fn wf(self) -> bool {
        &&& self.bufs_wf()
        &&& 1 <= self.spec_width() <= 16384
        &&& 1 <= self.spec_height() <= 16384
        &&& 0 <= self.count() <= 0xFFFF_FFFF
        &&& self.sums().len() == self.npixels()
    }

    pub fn new(width: u32, height: u32) -> (acc: FrameAccumulator)
        requires
            1 <= width <= 16384,
            1 <= height <= 16384,
        ensures
            acc.wf(),
            acc.spec_width() == width,
            acc.spec_height() == height,
            acc.count() == 0,
            acc.last() is None,
            forall|i: int| 0 <= i < acc.sums().len() ==> acc.sums()[i] == (0int, 0int, 0int),
            acc.sums().len() == acc.npixels(),
    {
        proof {
            assert(width * height <= 0x1000_0000) by (nonlinear_arith)
                requires
                    width <= 16384 && height <= 16384,
            ;
        }
        let n: usize = (width as usize) * (height as usize);
        FrameAccumulator {
            buf0: zero_buf(n),
            buf1: zero_buf(n),
            width,
            height,
            frame_count: 0,
            has_last: false,
            last_view: default_view(),
            last_params: BlackHole::default(),
        }
    }

    pub fn width(&self) -> (w: u32)
        ensures
            w == self.spec_width(),
    {
        self.width
    }

    pub fn height(&self) -> (h: u32)
        ensures
            h == self.spec_height(),
    {
        self.height
    }

    pub fn frame_count(&self) -> (c: u32)
        ensures
            c as int == self.count(),
    {
        self.frame_count
    }

    /// Applies the staged view and parameters at the frame boundary.
    /// A change of either — any camera delta, or any disc- or
    /// metric-relevant parameter — resets the frame counter to zero and
    /// discards all history; an identical frame keeps both.
    pub fn begin_frame(&mut self, view: &View, params: &BlackHole)
        requires
            old(self).wf(),
        ensures
            final(self).wf(),
            final(self).spec_width() == old(self).spec_width(),
            final(self).spec_height() == old(self).spec_height(),
            final(self).last() == Some((*view, *params)),
            old(self).last() == Some((*view, *params)) ==> {
                &&& final(self).count() == old(self).count()
                &&& final(self).sums() == old(self).sums()
            },
            old(self).last() != Some((*view, *params)) ==> {
                &&& final(self).count() == 0
                &&& forall|i: int|
                    0 <= i < final(self).sums().len() ==> final(self).sums()[i] == (0int, 0int, 0int)
            },
            final(self).sums().len() == final(self).npixels(),
    {
        let same: bool = self.has_last && views_equal(&self.last_view, view) && params_equal(
            &self.last_params,
            params,
        );
        if !same {
            proof {
                assert(self.width * self.height <= 0x1000_0000) by (nonlinear_arith)
                    requires
                        self.width <= 16384 && self.height <= 16384,
                ;
            }
            let n: usize = (self.width as usize) * (self.height as usize);
            self.buf0 = zero_buf(n);
            self.buf1 = zero_buf(n);
            self.frame_count = 0;
        }
        self.has_last = true;
        self.last_view = *view;
        self.last_params = *params;
        proof {
            assert(final(self).sums() =~= if final(self).frame_count % 2 == 0 {
                final(self).buf1@.map_values(|s: RadianceSum| s@)
            } else {
                final(self).buf0@.map_values(|s: RadianceSum| s@)
            });
        }
    }

    /// Accumulates one frame of samples: the write buffer (selected by
    /// counter parity) receives the history buffer's sums plus the new
    /// samples, exactly, and the counter advances by one.
    pub fn accumulate(&mut self, frame: &Vec<Fx3>)
        requires
            old(self).wf(),
            frame@.len() == old(self).npixels(),
            forall|i: int| 0 <= i < frame@.len() ==> bounded3(#[trigger] frame@[i]@),
            old(self).count() < 0xFFFF_FFFF,
        ensures
            final(self).wf(),
            final(self).spec_width() == old(self).spec_width(),
            final(self).spec_height() == old(self).spec_height(),
            final(self).last() == old(self).last(),
            final(self).count() == old(self).count() + 1,
            final(self).sums().len() == old(self).sums().len(),
            forall|i: int|
                0 <= i < final(self).sums().len() ==> final(self).sums()[i] == sum_plus_v(
                    old(self).sums()[i],
                    frame@[i]@,
                ),
    {
        let n: usize = frame.len();
        let even: bool = self.frame_count % 2 == 0;
        let mut out: Vec<RadianceSum> = Vec::new();
        let mut i: usize = 0;
        while i < n
            invariant
                i <= n,
                n == frame@.len(),
                n == self.npixels(),
                self == old(self),
                self.wf(),
                frame@.len() == self.npixels(),
                forall|k: int| 0 <= k < frame@.len() ==> bounded3(#[trigger] frame@[k]@),
                even == (self.frame_count % 2 == 0),
                self.count() < 0xFFFF_FFFF,
                out@.len() == i,
                forall|j: int|
                    0 <= j < i ==> (#[trigger] out@[j])@ == sum_plus_v(
                        self.sums()[j],
                        frame@[j]@,
                    ),
                forall|j: int|
                    0 <= j < i ==> sum_small(#[trigger] out@[j]@, self.frame_count as int + 1),
            decreases n - i,
        {
            let hist: RadianceSum = if even {
                self.buf1[i]
            } else {
                self.buf0[i]
            };
            let px: Fx3 = frame[i];
            proof {
                if even {
                    assert(sum_small(self.buf1@[i as int]@, self.frame_count as int));
                } else {
                    assert(sum_small(self.buf0@[i as int]@, self.frame_count as int));
                }
                assert(bounded3(frame@[i as int]@));
                assert((self.frame_count as int) * FX_MAX + FX_MAX <= 0x1_0000_0000 * 0x4000_0000_0000)
                    by (nonlinear_arith)
                    requires
                        self.frame_count <= 0xFFFF_FFFFu32,
                ;
            }
            let next: RadianceSum = RadianceSum {
                r: hist.r + (px.x.v as i128),
                g: hist.g + (px.y.v as i128),
                b: hist.b + (px.z.v as i128),
            };
            out.push(next);
            i = i + 1;
        }
        if even {
            self.buf0 = out;
        } else {
            self.buf1 = out;
        }
        self.frame_count = self.frame_count + 1;
    }

    /// The accumulated image: per pixel, the exact sample sum divided by
    /// the frame count.
    pub fn current(&self) -> (img: Vec<Fx3>)
        requires
            self.wf(),
            self.count() > 0,
        ensures
            img@.len() == self.npixels(),
            forall|i: int|
                0 <= i < img@.len() ==> (#[trigger] img@[i])@ == mean3_v(
                    self.sums()[i],
                    self.count(),
                ),
            forall|i: int| 0 <= i < img@.len() ==> bounded3(#[trigger] img@[i]@),
    {
        let even: bool = self.frame_count % 2 == 0;
        let n: usize = if even {
            self.buf1.len()
        } else {
            self.buf0.len()
        };
        let mut img: Vec<Fx3> = Vec::new();
        let mut i: usize = 0;
        while i < n
            invariant
                i <= n,
                self.wf(),
                self.count() > 0,
                n == self.npixels(),
                even == (self.frame_count % 2 == 0),
                img@.len() == i,
                forall|j: int|
                    0 <= j < i ==> (#[trigger] img@[j])@ == mean3_v(self.sums()[j], self.count()),
                forall|j: int| 0 <= j < i ==> bounded3(#[trigger] img@[j]@),
            decreases n - i,
        {
            let s: RadianceSum = if even {
                self.buf1[i]
            } else {
                self.buf0[i]
            };
            proof {
                if even {
                    assert(sum_small(self.buf1@[i as int]@, self.frame_count as int));
                } else {
                    assert(sum_small(self.buf0@[i as int]@, self.frame_count as int));
                }
            }
            let px: Fx3 = Fx3 {
                x: mean_channel(s.r, self.frame_count),
                y: mean_channel(s.g, self.frame_count),
                z: mean_channel(s.b, self.frame_count),
            };
            img.push(px);
            i = i + 1;
        }
        img
    }
}

/// The sum's magnitude is explained by at most `count` in-range samples
/// (so the next addition cannot overflow its 128-bit channel).
pub open spec fn sum_small(s: (int, int, int), count: int) -> bool {
    &&& iabs(s.0) <= count * FX_MAX
    &&& iabs(s.1) <= count * FX_MAX
    &&& iabs(s.2) <= count * FX_MAX
}

fn zero_buf(n: usize) -> (buf: Vec<RadianceSum>)
    ensures
        buf@.len() == n,
        forall|i: int| 0 <= i < n ==> (#[trigger] buf@[i])@ == (0int, 0int, 0int),
{
    let mut buf: Vec<RadianceSum> = Vec::new();
    let mut i: usize = 0;
    while i < n
        invariant
            i <= n,
            buf@.len() == i,
            forall|j: int| 0 <= j < i ==> (#[trigger] buf@[j])@ == (0int, 0int, 0int),
        decreases n - i,
    {
        buf.push(RadianceSum { r: 0, g: 0, b: 0 });
        i = i + 1;
    }
    buf
}

fn default_view() -> (v: View)
{
    View {
        right: Fx3::zero(),
        up: Fx3::zero(),
        forward: Fx3::zero(),
        position: Fx3::zero(),
        focal_length: Fx::zero(),
        width: 0,
        height: 0,
        flags: 0,
    }
}

fn views_equal(a: &View, b: &View) -> (r: bool)
    ensures
        r == (*a == *b),
{
    *a == *b
}

fn params_equal(a: &BlackHole, b: &BlackHole) -> (r: bool)
    ensures
        r == (*a == *b),
{
    *a == *b
}

fn mean_channel(sum: i128, count: u32) -> (m: Fx)
    requires
        count >= 1,
        iabs(sum as int) <= count * FX_MAX,
    ensures
        m@ == mean_v(sum as int, count as int),
        m.bounded(),
{
    let neg: bool = sum < 0;
    let mag: u128 = if sum < 0 {
        (-sum) as u128
    } else {
        sum as u128
    };
    let q: u128 = mag / (count as u128);
    let mc: i64 = if q > (FX_MAX as u128) {
        FX_MAX
    } else {
        q as i64
    };
    if neg {
        Fx { v: -mc }
    } else {
        Fx { v: mc }
    }
}

/// Accumulator-convergence law: the mean of a sum explained exactly by
/// `n` copies of one in-range sample is that sample, with no rounding —
/// feeding the same frame `n` times reproduces it exactly, and a
/// divisible mixture reproduces its closed-form cumulative mean.
pub proof fn lemma_mean_exact(m: int, n: int)
    requires
        1 <= n,
        in_rangev(m),
    ensures
        mean_v(n * m, n) == m,
{
    crate::fixed::lemma_abs_mul(n, m);
    vstd::arithmetic::div_mod::lemma_div_multiples_vanish(iabs(m), n);
    assert(iabs(n * m) == n * iabs(m));
    assert(iabs(n) == n);
    assert((n * iabs(m)) / n == iabs(m));
}

} // verus!
