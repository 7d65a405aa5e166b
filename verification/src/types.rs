//! Configuration and camera records: black-hole parameters, the per-frame
//! view, and the render context that an input layer mutates between frames.

use vstd::prelude::*;
use vstd::view::View as _;
use crate::fixed::{Fx, clampv, SCALE, FX_MAX};
use crate::vecmath::Fx3;

verus! {

/// Render flag bit: sample the background sky for escaped rays.
pub const FLAG_SKYBOX: u32 = 1;

/// Render flag bit: shade the volumetric accretion disc.
pub const FLAG_DISC: u32 = 2;

pub open spec fn skybox_on(flags: u32) -> bool {
    flags & FLAG_SKYBOX != 0
}

pub open spec fn disc_on(flags: u32) -> bool {
    flags & FLAG_DISC != 0
}

/// Black-hole and integration parameters. All scalar fields are fixed-point.
#[derive(Clone, Copy, PartialEq, Eq, Structural, Debug)]
pub struct BlackHole {
    /// Radius of the sphere of influence in which gravitational lensing occurs.
    pub cdist: Fx,
    /// Spin factor (dimensionless, physically valid in `[0, 1)`).
    pub a: Fx,
    /// Mass.
    pub m: Fx,
    /// Charge.
    pub q: Fx,
    /// Radius of the accretion disc.
    pub disc_radius: Fx,
    /// Height of the accretion disc.
    pub disc_height: Fx,
    /// Falloff of the volumetric disc density (radial).
    pub disc_falloff_radial: Fx,
    /// Falloff of the volumetric disc density (vertical).
    pub disc_falloff_vertical: Fx,
    /// Falloff of the disc emission (radial).
    pub disc_emission_falloff_radial: Fx,
    /// Falloff of the disc emission (vertical).
    pub disc_emission_falloff_vertical: Fx,
    /// Disc temperature variance.
    pub disc_temperature_scale: Fx,
    /// Disc temperature base value.
    pub disc_temperature_offset: Fx,
    /// Scale of the radial noise on the disc.
    pub disc_radial_scale: Fx,
    /// Minimum timestep of the pathtracer.
    pub dt_min: Fx,
    /// Maximum timestep of the pathtracer.
    pub dt_max: Fx,
    /// Number of timesteps of the pathtracer.
    pub steps: u32,
}

/// Spin clamped into `[0, 1)`.
pub open spec fn spin_sanitizedv(x: int) -> int {
    if x < 0 {
        0
    } else if x > SCALE - 1 {
        SCALE - 1
    } else {
        x
    }
}

/// A nonnegative in-range raw value.
pub open spec fn nonneg_sanitizedv(x: int) -> int {
    if x < 0 {
        0
    } else {
        clampv(x)
    }
}

impl BlackHole {
    /// Parameters on which every core entry point is well defined.
    pub open spec fn wf(self) -> bool {
        &&& 0 <= self.a@ < SCALE
        &&& 0 <= self.m@ <= FX_MAX
        &&& 0 <= self.q@ <= FX_MAX
        &&& 0 <= self.cdist@ <= FX_MAX
        &&& 0 <= self.disc_radius@ <= FX_MAX
        &&& 0 <= self.disc_height@ <= FX_MAX
        &&& 0 <= self.disc_falloff_radial@ <= FX_MAX
        &&& 0 <= self.disc_falloff_vertical@ <= FX_MAX
        &&& 0 <= self.disc_emission_falloff_radial@ <= FX_MAX
        &&& 0 <= self.disc_emission_falloff_vertical@ <= FX_MAX
        &&& 0 <= self.disc_temperature_scale@ <= FX_MAX
        &&& 0 <= self.disc_temperature_offset@ <= FX_MAX
        &&& 0 <= self.disc_radial_scale@ <= FX_MAX
        &&& 1 <= self.dt_min@ <= self.dt_max@ <= FX_MAX
    }

    /// Clamps every parameter into its physically valid region; this is the
    /// apply boundary for externally staged edits, so an invalid
    /// configuration (for instance spin at or above one) is repaired here
    /// rather than failing the frame.
    pub fn sanitized(self) -> (r: BlackHole)
        ensures
            r.wf(),
            r.a@ == spin_sanitizedv(self.a@),
            r.m@ == nonneg_sanitizedv(self.m@),
            r.q@ == nonneg_sanitizedv(self.q@),
            r.cdist@ == nonneg_sanitizedv(self.cdist@),
            r.disc_radius@ == nonneg_sanitizedv(self.disc_radius@),
            r.disc_height@ == nonneg_sanitizedv(self.disc_height@),
            r.disc_falloff_radial@ == nonneg_sanitizedv(self.disc_falloff_radial@),
            r.disc_falloff_vertical@ == nonneg_sanitizedv(self.disc_falloff_vertical@),
            r.disc_emission_falloff_radial@ == nonneg_sanitizedv(self.disc_emission_falloff_radial@),
            r.disc_emission_falloff_vertical@ == nonneg_sanitizedv(self.disc_emission_falloff_vertical@),
            r.disc_temperature_scale@ == nonneg_sanitizedv(self.disc_temperature_scale@),
            r.disc_temperature_offset@ == nonneg_sanitizedv(self.disc_temperature_offset@),
            r.disc_radial_scale@ == nonneg_sanitizedv(self.disc_radial_scale@),
            r.dt_min@ == if nonneg_sanitizedv(self.dt_min@) < 1 {
                1int
            } else {
                nonneg_sanitizedv(self.dt_min@)
            },
            r.dt_max@ == if nonneg_sanitizedv(self.dt_max@) < r.dt_min@ {
                r.dt_min@
            } else {
                nonneg_sanitizedv(self.dt_max@)
            },
            r.steps == self.steps,
    {
        let dt_min: Fx = sanitize_nonneg(self.dt_min).max(Fx::from_raw(1));
        let dt_max: Fx = sanitize_nonneg(self.dt_max).max(dt_min);
        BlackHole {
            cdist: sanitize_nonneg(self.cdist),
            a: sanitize_spin(self.a),
            m: sanitize_nonneg(self.m),
            q: sanitize_nonneg(self.q),
            disc_radius: sanitize_nonneg(self.disc_radius),
            disc_height: sanitize_nonneg(self.disc_height),
            disc_falloff_radial: sanitize_nonneg(self.disc_falloff_radial),
            disc_falloff_vertical: sanitize_nonneg(self.disc_falloff_vertical),
            disc_emission_falloff_radial: sanitize_nonneg(self.disc_emission_falloff_radial),
            disc_emission_falloff_vertical: sanitize_nonneg(self.disc_emission_falloff_vertical),
            disc_temperature_scale: sanitize_nonneg(self.disc_temperature_scale),
            disc_temperature_offset: sanitize_nonneg(self.disc_temperature_offset),
            disc_radial_scale: sanitize_nonneg(self.disc_radial_scale),
            dt_min,
            dt_max,
            steps: self.steps,
        }
    }
}

fn sanitize_spin(x: Fx) -> (r: Fx)
    ensures
        r@ == spin_sanitizedv(x@),
        0 <= r@ < SCALE,
{
    if x.v < 0 {
        Fx { v: 0 }
    } else if x.v > SCALE - 1 {
        Fx { v: SCALE - 1 }
    } else {
        x
    }
}

fn sanitize_nonneg(x: Fx) -> (r: Fx)
    ensures
        r@ == nonneg_sanitizedv(x@),
        0 <= r@ <= FX_MAX,
{
    if x.v < 0 {
        Fx { v: 0 }
    } else if x.v > FX_MAX {
        Fx { v: FX_MAX }
    } else {
        x
    }
}

impl Default for BlackHole {
    /// The reference configuration: a spinning, lightly charged hole with a
    /// moderate accretion disc.
    fn default() -> (r: BlackHole)
        ensures
            r.wf(),
            r.cdist@ == 120 * SCALE,
            r.a@ == 19660,
            r.m@ == SCALE,
            r.q@ == 13107,
            r.disc_radius@ == 10 * SCALE,
            r.disc_height@ == 52428,
            r.disc_falloff_radial@ == 6553,
            r.disc_falloff_vertical@ == 32768,
            r.disc_emission_falloff_radial@ == 3932,
            r.disc_emission_falloff_vertical@ == 39321,
            r.disc_temperature_scale@ == 4000 * SCALE,
            r.disc_temperature_offset@ == 2000 * SCALE,
            r.disc_radial_scale@ == 8 * SCALE,
            r.dt_min@ == 1966,
            r.dt_max@ == 10 * SCALE,
            r.steps == 128,
    {
        BlackHole {
            cdist: Fx { v: 120 * SCALE },
            a: Fx { v: 19660 },
            m: Fx { v: SCALE },
            q: Fx { v: 13107 },
            disc_radius: Fx { v: 10 * SCALE },
            disc_height: Fx { v: 52428 },
            disc_falloff_radial: Fx { v: 6553 },
            disc_falloff_vertical: Fx { v: 32768 },
            disc_emission_falloff_radial: Fx { v: 3932 },
            disc_emission_falloff_vertical: Fx { v: 39321 },
            disc_temperature_scale: Fx { v: 4000 * SCALE },
            disc_temperature_offset: Fx { v: 2000 * SCALE },
            disc_radial_scale: Fx { v: 8 * SCALE },
            dt_min: Fx { v: 1966 },
            dt_max: Fx { v: 10 * SCALE },
            steps: 128,
        }
    }
}

/// The per-frame view: camera pose, projection, resolution and render flags.
/// The rotation basis is given by three world-space axes.
#[derive(Clone, Copy, PartialEq, Eq, Structural, Debug)]
pub struct View {
    pub right: Fx3,
    pub up: Fx3,
    pub forward: Fx3,
    pub position: Fx3,
    pub focal_length: Fx,
    pub width: u32,
    pub height: u32,
    pub flags: u32,
}

impl View {
    /// A view on which ray generation is well defined: bounded pose, a focal
    /// length large enough that primary rays are never null, and a positive
    /// resolution small enough to index pixels safely.
    pub open spec fn wf(self) -> bool {
        &&& self.right.bounded()
        &&& self.up.bounded()
        &&& self.forward.bounded()
        &&& self.position.bounded()
        &&& 256 <= self.focal_length@ <= FX_MAX
        &&& 1 <= self.width <= 16384
        &&& 1 <= self.height <= 16384
    }
}

/// Per-frame state the external input layer writes and the renderer reads:
/// camera pose, render flags and the reset request.
#[derive(Clone, Copy, PartialEq, Eq, Structural, Debug)]
pub struct RenderContext {
    pub right: Fx3,
    pub up: Fx3,
    pub forward: Fx3,
    pub position: Fx3,
    pub flags: u32,
    pub focal_length: Fx,
    pub reset_frame_count: bool,
}

impl RenderContext {
    pub fn new() -> (r: RenderContext)
        ensures
            r.right@ == (crate::vecmath::Gv3 { x: SCALE as int, y: 0, z: 0 }),
            r.up@ == (crate::vecmath::Gv3 { x: 0, y: SCALE as int, z: 0 }),
            r.forward@ == (crate::vecmath::Gv3 { x: 0, y: 0, z: SCALE as int }),
            r.position@ == (crate::vecmath::Gv3 { x: 0, y: 0, z: 0 }),
            r.focal_length@ == 98304,
            r.reset_frame_count == true,
            r.flags == 0xFFFF_FFFFu32,
    {
        RenderContext {
            right: Fx3 { x: Fx { v: SCALE }, y: Fx { v: 0 }, z: Fx { v: 0 } },
            up: Fx3 { x: Fx { v: 0 }, y: Fx { v: SCALE }, z: Fx { v: 0 } },
            forward: Fx3 { x: Fx { v: 0 }, y: Fx { v: 0 }, z: Fx { v: SCALE } },
            position: Fx3 { x: Fx { v: 0 }, y: Fx { v: 0 }, z: Fx { v: 0 } },
            flags: 0xFFFF_FFFF,
            focal_length: Fx { v: 98304 },
            reset_frame_count: true,
        }
    }

    /// Replaces the camera pose: the position and the rotation basis.
    pub fn set_camera(&mut self, position: Fx3, right: Fx3, up: Fx3, forward: Fx3)
        ensures
            final(self).position == position,
            final(self).right == right,
            final(self).up == up,
            final(self).forward == forward,
            final(self).flags == old(self).flags,
            final(self).focal_length == old(self).focal_length,
            final(self).reset_frame_count == old(self).reset_frame_count,
    {
        self.position = position;
        self.right = right;
        self.up = up;
        self.forward = forward;
    }

    pub fn set_render_skybox(&mut self)
        ensures
            final(self).flags == old(self).flags | FLAG_SKYBOX,
            skybox_on(final(self).flags),
            disc_on(final(self).flags) == disc_on(old(self).flags),
            final(self).position == old(self).position,
            final(self).right == old(self).right,
            final(self).up == old(self).up,
            final(self).forward == old(self).forward,
            final(self).focal_length == old(self).focal_length,
            final(self).reset_frame_count == old(self).reset_frame_count,
    {
        self.flags = self.flags | FLAG_SKYBOX;
        proof {
            let f = old(self).flags;
            assert((f | 1u32) & 1 != 0 && (((f | 1u32) & 2 != 0) == (f & 2 != 0)))
                by (bit_vector);
        }
    }

    pub fn set_render_disc(&mut self)
        ensures
            final(self).flags == old(self).flags | FLAG_DISC,
            disc_on(final(self).flags),
            skybox_on(final(self).flags) == skybox_on(old(self).flags),
            final(self).position == old(self).position,
            final(self).right == old(self).right,
            final(self).up == old(self).up,
            final(self).forward == old(self).forward,
            final(self).focal_length == old(self).focal_length,
            final(self).reset_frame_count == old(self).reset_frame_count,
    {
        self.flags = self.flags | FLAG_DISC;
        proof {
            let f = old(self).flags;
            assert((f | 2u32) & 2 != 0 && (((f | 2u32) & 1 != 0) == (f & 1 != 0)))
                by (bit_vector);
        }
    }

    pub fn unset_render_skybox(&mut self)
        ensures
            final(self).flags == old(self).flags & !FLAG_SKYBOX,
            !skybox_on(final(self).flags),
            disc_on(final(self).flags) == disc_on(old(self).flags),
            final(self).position == old(self).position,
            final(self).right == old(self).right,
            final(self).up == old(self).up,
            final(self).forward == old(self).forward,
            final(self).focal_length == old(self).focal_length,
            final(self).reset_frame_count == old(self).reset_frame_count,
    {
        self.flags = self.flags & !FLAG_SKYBOX;
        proof {
            let f = old(self).flags;
            assert((f & !1u32) & 1 == 0 && (((f & !1u32) & 2 != 0) == (f & 2 != 0)))
                by (bit_vector);
        }
    }

    pub fn unset_render_disc(&mut self)
        ensures
            final(self).flags == old(self).flags & !FLAG_DISC,
            !disc_on(final(self).flags),
            skybox_on(final(self).flags) == skybox_on(old(self).flags),
            final(self).position == old(self).position,
            final(self).right == old(self).right,
            final(self).up == old(self).up,
            final(self).forward == old(self).forward,
            final(self).focal_length == old(self).focal_length,
            final(self).reset_frame_count == old(self).reset_frame_count,
    {
        self.flags = self.flags & !FLAG_DISC;
        proof {
            let f = old(self).flags;
            assert((f & !2u32) & 2 == 0 && (((f & !2u32) & 1 != 0) == (f & 1 != 0)))
                by (bit_vector);
        }
    }
}

} // verus!
