//! The volumetric accretion-disc shading model.
//!
//! A sample point is located by its cylindrical radius in the disc plane
//! (the equatorial plane of the spin axis `z`) and its height above it.
//! Smooth envelopes that are maximal inside the disc extent and decay
//! continuously and monotonically to exactly zero outside it gate a noisy
//! density proxy; the density drives a temperature, a stylized
//! blackbody-to-RGB map, and the absorption. Contributions composite
//! front to back into the ray's running radiance and opacity.

use vstd::prelude::*;
use crate::fixed::{
    Fx, addv, subv, mulv, divv, sdiv, sqrtv, iabs, clamp01v, SCALE, FX_MAX,
    lemma_mulv_nonneg, lemma_mulv_le_factor, lemma_mulv_mono, lemma_mulv_comm, lemma_mulv_unit,
    lemma_sdiv2_bounds,
};
use crate::vecmath::{Fx3, Gv3, lemma_mulv_self_nonneg};
use crate::types::BlackHole;

verus! {

/// A smooth inclusion envelope: `1` for distances up to `edge`, then the
/// square of `1 - falloff * (d - edge)` until it reaches exactly `0`.
/// Continuous, and monotonically decaying outside the edge.
pub open spec fn envelope_v(d: int, edge: int, falloff: int) -> int {
    if d <= edge {
        SCALE as int
    } else {
        let t = mulv(subv(d, edge), falloff);
        if t >= SCALE {
            0
        } else {
            let s = subv(SCALE as int, t);
            mulv(s, s)
        }
    }
}

/// A deterministic pseudo-noise in `[0, 1]`: a triangle wave over a seeded
/// offset of the (scaled) radial coordinate. The per-frame seed decorrelates
/// successive frames for progressive supersampling.
pub open spec fn noise_v(rs: int, seed: u32) -> int {
    let u = (iabs(rs) + 2654435761 * (seed as int)) % (2 * SCALE);
    if u < SCALE {
        u
    } else {
        2 * SCALE - u
    }
}

/// Cylindrical radius of a spatial point about the spin axis.
pub open spec fn cyl_radius_v(p: Gv3) -> int {
    sqrtv(addv(mulv(p.x, p.x), mulv(p.y, p.y)))
}

/// Height of a spatial point above the disc midplane.
pub open spec fn cyl_height_v(p: Gv3) -> int {
    iabs(p.z)
}

/// The density proxy at a point: the product of the radial and vertical
/// inclusion envelopes, modulated by radial noise into `[1/2, 1]`.
pub open spec fn density_v(p: Gv3, bh: BlackHole, seed: u32) -> int {
    let rc = cyl_radius_v(p);
    let h = cyl_height_v(p);
    let env = mulv(
        envelope_v(rc, bh.disc_radius@, bh.disc_falloff_radial@),
        envelope_v(h, bh.disc_height@, bh.disc_falloff_vertical@),
    );
    let amp = addv(32768, sdiv(noise_v(mulv(rc, bh.disc_radial_scale@), seed), 2));
    mulv(env, amp)
}

/// The local temperature: `offset + scale * density`.
pub open spec fn temperature_v(dens: int, bh: BlackHole) -> int {
    addv(bh.disc_temperature_offset@, mulv(bh.disc_temperature_scale@, dens))
}

/// A stylized blackbody-to-RGB approximation: each channel ramps up
/// linearly over its own temperature band and saturates at one.
pub open spec fn blackbody_v(t: int) -> Gv3 {
    Gv3 {
        x: clamp01v(divv(t, 3000 * SCALE)),
        y: clamp01v(divv(subv(t, 1000 * SCALE), 3500 * SCALE)),
        z: clamp01v(divv(subv(t, 2000 * SCALE), 4500 * SCALE)),
    }
}

/// The emitted radiance at a point: the blackbody color of the local
/// temperature, gated by the emission envelopes.
pub open spec fn emission_v(p: Gv3, bh: BlackHole, seed: u32) -> Gv3 {
    let rc = cyl_radius_v(p);
    let h = cyl_height_v(p);
    let em_env = mulv(
        envelope_v(rc, bh.disc_radius@, bh.disc_emission_falloff_radial@),
        envelope_v(h, bh.disc_height@, bh.disc_emission_falloff_vertical@),
    );
    let bb = blackbody_v(temperature_v(density_v(p, bh, seed), bh));
    Gv3 { x: mulv(em_env, bb.x), y: mulv(em_env, bb.y), z: mulv(em_env, bb.z) }
}

/// One front-to-back compositing step: the remaining transmittance weights
/// the clamped optical depth `density * dt`; radiance accumulates and the
/// opacity grows toward one.
pub open spec fn composited_color_v(rgb: Gv3, alpha: int, em: Gv3, dens: int, dt: int) -> Gv3 {
    let w = composite_weight_v(alpha, dens, dt);
    Gv3 { x: addv(rgb.x, mulv(w, em.x)), y: addv(rgb.y, mulv(w, em.y)), z: addv(rgb.z, mulv(w, em.z)) }
}

pub open spec fn composited_alpha_v(alpha: int, dens: int, dt: int) -> int {
    addv(alpha, composite_weight_v(alpha, dens, dt))
}

/// The weight of one sample: remaining transmittance times the optical
/// depth of the step, the latter clamped at one.
pub open spec fn composite_weight_v(alpha: int, dens: int, dt: int) -> int {
    let od = mulv(dens, dt);
    let odc = if od > SCALE {
        SCALE as int
    } else {
        od
    };
    mulv(subv(SCALE as int, alpha), odc)
}

/// One shading sample: emitted radiance and the absorption density.
#[derive(Clone, Copy, PartialEq, Eq, Structural, Debug)]
pub struct DiscSample {
    pub emission: Fx3,
    pub absorption: Fx,
}

fn envelope(d: Fx, edge: Fx, falloff: Fx) -> (r: Fx)
    requires
        0 <= d@ <= FX_MAX,
        0 <= edge@ <= FX_MAX,
        0 <= falloff@ <= FX_MAX,
    ensures
        r@ == envelope_v(d@, edge@, falloff@),
        0 <= r@ <= SCALE,
{
    if d.v <= edge.v {
        Fx::one()
    } else {
        let t: Fx = d.sub(edge).mul(falloff);
        proof {
            lemma_mulv_nonneg(subv(d@, edge@), falloff@);
        }
        if t.v >= SCALE {
            Fx::zero()
        } else {
            let s: Fx = Fx::one().sub(t);
            proof {
                lemma_mulv_le_factor(s@, s@);
            }
            s.mul(s)
        }
    }
}

fn noise(rs: Fx, seed: u32) -> (r: Fx)
    requires
        rs.bounded(),
    ensures
        r@ == noise_v(rs@, seed),
        0 <= r@ <= SCALE,
{
    let m: u64 = if rs.v < 0 {
        (-rs.v) as u64
    } else {
        rs.v as u64
    };
    let w: u64 = m + 2654435761u64 * (seed as u64);
    let u: u64 = w % 131072;
    if u < 65536 {
        Fx { v: u as i64 }
    } else {
        Fx { v: (131072 - u) as i64 }
    }
}

/// The cylindrical coordinates of a point relative to the disc plane.
fn cyl_coords(p: &Fx3) -> (c: (Fx, Fx))
    requires
        p.bounded(),
    ensures
        c.0@ == cyl_radius_v(p@),
        c.1@ == cyl_height_v(p@),
        0 <= c.0@ <= FX_MAX,
        0 <= c.1@ <= FX_MAX,
{
    proof {
        lemma_mulv_self_nonneg(p.x@);
        lemma_mulv_self_nonneg(p.y@);
    }
    let rc: Fx = p.x.mul(p.x).add(p.y.mul(p.y)).sqrt();
    let h: Fx = if p.z.v < 0 {
        Fx { v: -p.z.v }
    } else {
        p.z
    };
    (rc, h)
}

fn density_at(bh: &BlackHole, seed: u32, p: Ghost<Gv3>, rc: Fx, h: Fx) -> (dens: Fx)
    requires
        bh.wf(),
        rc@ == cyl_radius_v(p@),
        h@ == cyl_height_v(p@),
        0 <= rc@ <= FX_MAX,
        0 <= h@ <= FX_MAX,
    ensures
        dens@ == density_v(p@, *bh, seed),
        0 <= dens@ <= SCALE,
{
    let env_r: Fx = envelope(rc, bh.disc_radius, bh.disc_falloff_radial);
    let env_v_: Fx = envelope(h, bh.disc_height, bh.disc_falloff_vertical);
    let env: Fx = env_r.mul(env_v_);
    proof {
        lemma_mulv_le_factor(env_r@, env_v_@);
    }
    let n: Fx = noise(rc.mul(bh.disc_radial_scale), seed);
    proof {
        lemma_sdiv2_bounds(n@);
        vstd::arithmetic::div_mod::lemma_div_is_ordered(n@, SCALE as int, 2);
    }
    let amp: Fx = Fx { v: 32768 }.add(n.half());
    let dens: Fx = env.mul(amp);
    proof {
        lemma_mulv_comm(env@, amp@);
        lemma_mulv_le_factor(amp@, env@);
    }
    dens
}

fn emission_at(bh: &BlackHole, seed: u32, p: Ghost<Gv3>, rc: Fx, h: Fx, dens: Fx) -> (em: Fx3)
    requires
        bh.wf(),
        rc@ == cyl_radius_v(p@),
        h@ == cyl_height_v(p@),
        0 <= rc@ <= FX_MAX,
        0 <= h@ <= FX_MAX,
        dens@ == density_v(p@, *bh, seed),
        0 <= dens@ <= SCALE,
    ensures
        em@ == emission_v(p@, *bh, seed),
        0 <= em@.x <= SCALE,
        0 <= em@.y <= SCALE,
        0 <= em@.z <= SCALE,
{
    let temp: Fx = bh.disc_temperature_offset.add(bh.disc_temperature_scale.mul(dens));
    proof {
        lemma_mulv_nonneg(bh.disc_temperature_scale@, dens@);
    }
    let bb: Fx3 = blackbody(temp);
    let em_r: Fx = envelope(rc, bh.disc_radius, bh.disc_emission_falloff_radial);
    let em_v: Fx = envelope(h, bh.disc_height, bh.disc_emission_falloff_vertical);
    let em_env: Fx = em_r.mul(em_v);
    proof {
        lemma_mulv_le_factor(em_r@, em_v@);
        lemma_mulv_le_factor(em_env@, bb.x@);
        lemma_mulv_le_factor(em_env@, bb.y@);
        lemma_mulv_le_factor(em_env@, bb.z@);
        lemma_mulv_comm(em_env@, bb.x@);
        lemma_mulv_comm(em_env@, bb.y@);
        lemma_mulv_comm(em_env@, bb.z@);
    }
    Fx3 { x: em_env.mul(bb.x), y: em_env.mul(bb.y), z: em_env.mul(bb.z) }
}

/// Shades one sample point of the disc volume. Deterministic in the point,
/// the parameters and the per-frame seed.
pub fn shade_step(p: &Fx3, bh: &BlackHole, seed: u32) -> (s: DiscSample)
    requires
        p.bounded(),
        bh.wf(),
    ensures
        s.emission@ == emission_v(p@, *bh, seed),
        s.absorption@ == density_v(p@, *bh, seed),
        0 <= s.absorption@ <= SCALE,
        0 <= s.emission@.x <= SCALE,
        0 <= s.emission@.y <= SCALE,
        0 <= s.emission@.z <= SCALE,
{
    let (rc, h) = cyl_coords(p);
    let dens: Fx = density_at(bh, seed, Ghost(p@), rc, h);
    let emission: Fx3 = emission_at(bh, seed, Ghost(p@), rc, h, dens);
    DiscSample { emission, absorption: dens }
}

fn blackbody(t: Fx) -> (c: Fx3)
    requires
        0 <= t@ <= FX_MAX,
    ensures
        c@ == blackbody_v(t@),
        0 <= c@.x <= SCALE,
        0 <= c@.y <= SCALE,
        0 <= c@.z <= SCALE,
{
    Fx3 {
        x: t.div(Fx::from_int(3000)).saturate(),
        y: t.sub(Fx::from_int(1000)).div(Fx::from_int(3500)).saturate(),
        z: t.sub(Fx::from_int(2000)).div(Fx::from_int(4500)).saturate(),
    }
}

/// Composites one disc sample into a ray's running radiance and opacity,
/// front to back: the new opacity never decreases and never exceeds one,
/// so sufficiently opaque paths attenuate all later sky contribution.
pub fn composite(rgb: Fx3, alpha: Fx, sample: &DiscSample, dt: Fx) -> (r: (Fx3, Fx))
    requires
        rgb.bounded(),
        0 <= rgb@.x,
        0 <= rgb@.y,
        0 <= rgb@.z,
        0 <= alpha@ <= SCALE,
        0 <= sample.absorption@ <= SCALE,
        0 <= sample.emission@.x <= SCALE,
        0 <= sample.emission@.y <= SCALE,
        0 <= sample.emission@.z <= SCALE,
        0 <= dt@ <= FX_MAX,
    ensures
        r.0@ == composited_color_v(rgb@, alpha@, sample.emission@, sample.absorption@, dt@),
        r.1@ == composited_alpha_v(alpha@, sample.absorption@, dt@),
        alpha@ <= r.1@ <= SCALE,
        0 <= r.0@.x,
        0 <= r.0@.y,
        0 <= r.0@.z,
        r.0.bounded(),
        r.1.bounded(),
{
    let od: Fx = sample.absorption.mul(dt);
    proof {
        lemma_mulv_nonneg(sample.absorption@, dt@);
    }
    let odc: Fx = if od.v > SCALE {
        Fx::one()
    } else {
        od
    };
    let trans: Fx = Fx::one().sub(alpha);
    let w: Fx = trans.mul(odc);
    proof {
        lemma_mulv_le_factor(trans@, odc@);
        lemma_mulv_le_factor(w@, sample.emission@.x);
        lemma_mulv_le_factor(w@, sample.emission@.y);
        lemma_mulv_le_factor(w@, sample.emission@.z);
        lemma_mulv_nonneg(w@, sample.emission@.x);
        lemma_mulv_nonneg(w@, sample.emission@.y);
        lemma_mulv_nonneg(w@, sample.emission@.z);
    }
    let out: Fx3 = Fx3 {
        x: rgb.x.add(w.mul(sample.emission.x)),
        y: rgb.y.add(w.mul(sample.emission.y)),
        z: rgb.z.add(w.mul(sample.emission.z)),
    };
    (out, alpha.add(w))
}

/// Disc-decay law, peak: at the midplane anywhere within the disc radius
/// the envelope takes its maximal value, one.
pub proof fn lemma_envelope_peak(d: int, edge: int, falloff: int)
    requires
        0 <= d <= edge,
    ensures
        envelope_v(d, edge, falloff) == SCALE,
{
}

/// Disc-decay law, bounds: the envelope always lies in `[0, 1]`.
pub proof fn lemma_envelope_bounds(d: int, edge: int, falloff: int)
    requires
        0 <= d <= FX_MAX,
        0 <= edge <= FX_MAX,
        0 <= falloff <= FX_MAX,
    ensures
        0 <= envelope_v(d, edge, falloff) <= SCALE,
{
    if d > edge {
        let t = mulv(subv(d, edge), falloff);
        lemma_mulv_nonneg(subv(d, edge), falloff);
        if t < SCALE {
            lemma_mulv_le_factor(subv(SCALE as int, t), subv(SCALE as int, t));
        }
    }
}

/// Disc-decay law, monotone decay: the envelope never increases with the
/// distance, so there is no discontinuity on the way down from the peak.
pub proof fn lemma_envelope_monotone(d1: int, d2: int, edge: int, falloff: int)
    requires
        0 <= d1 <= d2 <= FX_MAX,
        0 <= edge <= FX_MAX,
        0 <= falloff <= FX_MAX,
    ensures
        envelope_v(d2, edge, falloff) <= envelope_v(d1, edge, falloff),
{
    lemma_envelope_bounds(d1, edge, falloff);
    lemma_envelope_bounds(d2, edge, falloff);
    if edge < d1 {
        let e1 = subv(d1, edge);
        let e2 = subv(d2, edge);
        let t1 = mulv(e1, falloff);
        let t2 = mulv(e2, falloff);
        lemma_mulv_mono(e1, e2, falloff);
        lemma_mulv_nonneg(e1, falloff);
        if t2 < SCALE {
            let s1 = subv(SCALE as int, t1);
            let s2 = subv(SCALE as int, t2);
            lemma_mulv_mono(s2, s1, s2);
            lemma_mulv_comm(s1, s2);
            lemma_mulv_mono(s2, s1, s1);
        }
    }
}

/// Disc-decay law, vanishing: beyond the falloff span the envelope is
/// exactly zero.
pub proof fn lemma_envelope_zero(d: int, edge: int, falloff: int)
    requires
        d > edge,
        mulv(subv(d, edge), falloff) >= SCALE,
    ensures
        envelope_v(d, edge, falloff) == 0,
{
}

/// Disc-decay law at the density level: at the midplane within the disc
/// radius both envelopes are maximal, so the density equals the noise
/// amplitude alone — its largest possible value at that radius.
pub proof fn lemma_density_peak(p: Gv3, bh: BlackHole, seed: u32)
    requires
        bh.wf(),
        p.z == 0,
        crate::vecmath::bounded3(p),
        0 <= cyl_radius_v(p) <= bh.disc_radius@,
    ensures
        density_v(p, bh, seed) == addv(32768, sdiv(noise_v(mulv(cyl_radius_v(p), bh.disc_radial_scale@), seed), 2)),
{
    let rc = cyl_radius_v(p);
    lemma_envelope_peak(rc, bh.disc_radius@, bh.disc_falloff_radial@);
    lemma_envelope_peak(0, bh.disc_height@, bh.disc_falloff_vertical@);
    lemma_mulv_unit(SCALE as int);
    let amp = addv(32768, sdiv(noise_v(mulv(rc, bh.disc_radial_scale@), seed), 2));
    lemma_sdiv2_bounds(noise_v(mulv(rc, bh.disc_radial_scale@), seed));
    lemma_mulv_unit(amp);
}

} // verus!
