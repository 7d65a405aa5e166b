//! The Hamiltonian geodesic integrator.
//!
//! A photon is a spacetime position and a conjugate momentum evolving
//! under `H(x, p) = (g^{-1}(x) p . p) / 2`. The position gradient of `H`
//! is obtained by centered finite differencing at `x +- eps` per spatial
//! coordinate with `eps = 0.01`: an explicitly numerical,
//! bounded-bias primitive, deliberately not an analytic derivative. Each
//! step updates the momentum first and then the position from the updated
//! momentum (a semi-implicit leapfrog). Integration stops early once the
//! oblate radius falls below the capture threshold; in the step model that
//! state is absorbing, so capture is preserved to the end of the budget.

use vstd::prelude::*;
use crate::fixed::{Fx, addv, subv, mulv, divv, sdiv, in_rangev, SCALE, lemma_mulv_zero};
use crate::vecmath::{
    Fx3, Fx4, Gv3, Gv4, bounded3, bounded4, spatial_of, addv4, scalev4, dotv4,
};
use crate::types::BlackHole;
use crate::metric::{
    Metric, radius, horizon, radius_v, horizon_v, fscalar_v, kvec_v, raise_v, lower_v, ham_v,
    lemma_radius_bounds, lemma_horizon_bounds,
};
use crate::disc::{
    shade_step, composite, emission_v, density_v, composited_color_v, composited_alpha_v,
};

verus! {

/// Finite-difference probe offset: `0.01` in fixed point.
pub const EPS_RAW: i64 = 655;

/// Twice the probe offset, the centered-difference denominator.
pub const TWO_EPS_RAW: i64 = 1310;

/// Spec-level integration state: position, momentum, and the radiance and
/// opacity accumulated from the disc.
pub struct GState {
    pub x: Gv4,
    pub p: Gv4,
    pub color: Gv3,
    pub opacity: int,
}

/// One ray's integration state.
#[derive(Clone, Copy, PartialEq, Eq, Structural, Debug)]
pub struct RayState {
    pub x: Fx4,
    pub p: Fx4,
    pub color: Fx3,
    pub opacity: Fx,
}

impl View for RayState {
    type V = GState;

    open spec fn view(&self) -> GState {
        GState { x: self.x@, p: self.p@, color: self.color@, opacity: self.opacity@ }
    }
}

/// Every component in range, the opacity in `[0, 1]`, the radiance
/// nonnegative.
pub open spec fn state_wf(s: GState) -> bool {
    &&& bounded4(s.x)
    &&& bounded4(s.p)
    &&& bounded3(s.color)
    &&& 0 <= s.opacity <= SCALE
    &&& 0 <= s.color.x
    &&& 0 <= s.color.y
    &&& 0 <= s.color.z
}

impl RayState {
    pub open spec fn wf(self) -> bool {
        state_wf(self@)
    }
}

/// The state's position has fallen inside the capture threshold.
pub open spec fn captured_v(s: GState, bh: BlackHole) -> bool {
    radius_v(spatial_of(s.x), bh.a@) < horizon_v(bh.a@)
}

/// The flat-space Hamiltonian `(eta p . p) / 2`.
pub open spec fn flat_ham_v(p: Gv4) -> int {
    sdiv(dotv4(Gv4 { t: -p.t, x: p.x, y: p.y, z: p.z }, p), 2)
}

/// The Hamiltonian at a probe position. Where the radius falls below one
/// (the near-singular region, always inside the capture threshold) the
/// flat-space Hamiltonian stands in, so probing never divides by a
/// vanishing radius and never produces a non-finite value.
pub open spec fn probe_ham_v(xs: Gv3, p: Gv4, bh: BlackHole) -> int {
    let r = radius_v(xs, bh.a@);
    if r >= SCALE {
        ham_v(fscalar_v(xs, bh.a@, bh.m@, bh.q@, r), kvec_v(xs, bh.a@, r), p)
    } else {
        flat_ham_v(p)
    }
}

/// The spatial position offset by `d` along coordinate `i` (1, 2, 3).
pub open spec fn offset3_v(v: Gv3, i: int, d: int) -> Gv3 {
    if i == 1 {
        Gv3 { x: addv(v.x, d), y: v.y, z: v.z }
    } else if i == 2 {
        Gv3 { x: v.x, y: addv(v.y, d), z: v.z }
    } else {
        Gv3 { x: v.x, y: v.y, z: addv(v.z, d) }
    }
}

/// Centered finite difference of the Hamiltonian along spatial
/// coordinate `i`.
pub open spec fn grad_comp_v(x: Gv4, p: Gv4, bh: BlackHole, i: int) -> int {
    let xs = spatial_of(x);
    let hp = probe_ham_v(offset3_v(xs, i, EPS_RAW as int), p, bh);
    let hm = probe_ham_v(offset3_v(xs, i, -(EPS_RAW as int)), p, bh);
    divv(subv(hp, hm), TWO_EPS_RAW as int)
}

/// The position gradient of the Hamiltonian. The metric field does not
/// depend on coordinate time, so the time component is identically zero.
pub open spec fn grad_v(x: Gv4, p: Gv4, bh: BlackHole) -> Gv4 {
    Gv4 {
        t: 0,
        x: grad_comp_v(x, p, bh, 1),
        y: grad_comp_v(x, p, bh, 2),
        z: grad_comp_v(x, p, bh, 3),
    }
}

/// The adaptive timestep: half the radius — smaller near the hole, larger
/// far away — clamped into the configured `[dt_min, dt_max]`.
pub open spec fn dt_v(r: int, bh: BlackHole) -> int {
    let guess = sdiv(r, 2);
    if guess < bh.dt_min@ {
        bh.dt_min@
    } else if guess > bh.dt_max@ {
        bh.dt_max@
    } else {
        guess
    }
}

/// One integration step. A captured state is absorbing: it is returned
/// unchanged, so capture persists to the end of the budget. Otherwise the
/// disc is sampled at the current position (when enabled), the momentum
/// falls along the finite-difference gradient, and the position advances
/// along the raised momentum.
pub open spec fn step_v(s: GState, bh: BlackHole, disc: bool, seed: u32) -> GState {
    let xs = spatial_of(s.x);
    let r = radius_v(xs, bh.a@);
    if r < horizon_v(bh.a@) {
        s
    } else {
        let dt = dt_v(r, bh);
        let c2 = if disc {
            composited_color_v(s.color, s.opacity, emission_v(xs, bh, seed), density_v(xs, bh, seed), dt)
        } else {
            s.color
        };
        let o2 = if disc {
            composited_alpha_v(s.opacity, density_v(xs, bh, seed), dt)
        } else {
            s.opacity
        };
        let g = grad_v(s.x, s.p, bh);
        let p2 = Gv4 {
            t: s.p.t,
            x: subv(s.p.x, mulv(dt, g.x)),
            y: subv(s.p.y, mulv(dt, g.y)),
            z: subv(s.p.z, mulv(dt, g.z)),
        };
        let up = raise_v(fscalar_v(xs, bh.a@, bh.m@, bh.q@, r), kvec_v(xs, bh.a@, r), p2);
        GState { x: addv4(s.x, scalev4(dt, up)), p: p2, color: c2, opacity: o2 }
    }
}

/// The trajectory after `n` steps from `s0`.
pub open spec fn traj_v(s0: GState, bh: BlackHole, disc: bool, seed: u32, n: nat) -> GState
    decreases n,
{
    if n == 0 {
        s0
    } else {
        step_v(traj_v(s0, bh, disc, seed, (n - 1) as nat), bh, disc, seed)
    }
}

/// The initial state of a ray: position at coordinate time zero and the
/// momentum conjugate to the velocity `(1, dir)` under the local metric
/// (or under the flat metric in the near-singular region, where the ray
/// is captured immediately anyway).
pub open spec fn init_state_v(origin: Gv3, dir: Gv3, bh: BlackHole) -> GState {
    let r = radius_v(origin, bh.a@);
    let vel = Gv4 { t: SCALE as int, x: dir.x, y: dir.y, z: dir.z };
    let p = if r >= SCALE {
        lower_v(fscalar_v(origin, bh.a@, bh.m@, bh.q@, r), kvec_v(origin, bh.a@, r), vel)
    } else {
        Gv4 { t: -(SCALE as int), x: dir.x, y: dir.y, z: dir.z }
    };
    GState {
        x: Gv4 { t: 0, x: origin.x, y: origin.y, z: origin.z },
        p,
        color: Gv3 { x: 0, y: 0, z: 0 },
        opacity: 0,
    }
}

/// The escaped ray's spatial direction: the raised final momentum.
pub open spec fn exit_dir_v(s: GState, bh: BlackHole) -> Gv3 {
    let xs = spatial_of(s.x);
    let r = radius_v(xs, bh.a@);
    spatial_of(raise_v(fscalar_v(xs, bh.a@, bh.m@, bh.q@, r), kvec_v(xs, bh.a@, r), s.p))
}

/// The outcome of tracing one ray.
#[derive(Clone, Copy, PartialEq, Eq, Structural, Debug)]
pub struct TraceResult {
    pub captured: bool,
    pub exit_dir: Fx3,
    pub color: Fx3,
    pub opacity: Fx,
}

fn probe_ham(xs: &Fx3, p: &Fx4, bh: &BlackHole) -> (h: Fx)
    requires
        xs.bounded(),
        p.bounded(),
        bh.wf(),
    ensures
        h@ == probe_ham_v(xs@, p@, *bh),
        h.bounded(),
{
    let r: Fx = radius(xs, bh.a);
    if r.v >= SCALE {
        let met: Metric = Metric::evaluate(xs, bh, r);
        met.hamiltonian(p)
    } else {
        Fx4::new(p.t.neg(), p.x, p.y, p.z).dot(*p).half()
    }
}

fn offset(v: &Fx3, i: usize, d: Fx) -> (r: Fx3)
    requires
        v.bounded(),
        d.bounded(),
        1 <= i <= 3,
    ensures
        r@ == offset3_v(v@, i as int, d@),
        r.bounded(),
{
    if i == 1 {
        Fx3 { x: v.x.add(d), y: v.y, z: v.z }
    } else if i == 2 {
        Fx3 { x: v.x, y: v.y.add(d), z: v.z }
    } else {
        Fx3 { x: v.x, y: v.y, z: v.z.add(d) }
    }
}

fn grad_comp(x: &Fx4, p: &Fx4, bh: &BlackHole, i: usize) -> (g: Fx)
    requires
        x.bounded(),
        p.bounded(),
        bh.wf(),
        1 <= i <= 3,
    ensures
        g@ == grad_comp_v(x@, p@, *bh, i as int),
        g.bounded(),
{
    let xs: Fx3 = x.spatial();
    let hp: Fx = probe_ham(&offset(&xs, i, Fx { v: EPS_RAW }), p, bh);
    let hm: Fx = probe_ham(&offset(&xs, i, Fx { v: -EPS_RAW }), p, bh);
    hp.sub(hm).div(Fx { v: TWO_EPS_RAW })
}

fn grad(x: &Fx4, p: &Fx4, bh: &BlackHole) -> (g: Fx4)
    requires
        x.bounded(),
        p.bounded(),
        bh.wf(),
    ensures
        g@ == grad_v(x@, p@, *bh),
        g.bounded(),
{
    Fx4 {
        t: Fx::zero(),
        x: grad_comp(x, p, bh, 1),
        y: grad_comp(x, p, bh, 2),
        z: grad_comp(x, p, bh, 3),
    }
}

fn dt_for(r: Fx, bh: &BlackHole) -> (dt: Fx)
    requires
        r.bounded(),
        bh.wf(),
    ensures
        dt@ == dt_v(r@, *bh),
        bh.dt_min@ <= dt@ <= bh.dt_max@,
        dt.bounded(),
{
    let guess: Fx = r.half();
    if guess.v < bh.dt_min.v {
        bh.dt_min
    } else if guess.v > bh.dt_max.v {
        bh.dt_max
    } else {
        guess
    }
}

/// Advances one uncaptured state by one leapfrog step.
pub fn step(s: &RayState, bh: &BlackHole, disc: bool, seed: u32) -> (r: RayState)
    requires
        s.wf(),
        bh.wf(),
        !captured_v(s@, *bh),
    ensures
        r@ == step_v(s@, *bh, disc, seed),
        r.wf(),
{
    let xs: Fx3 = s.x.spatial();
    let r0: Fx = radius(&xs, bh.a);
    proof {
        lemma_horizon_bounds(bh.a@);
    }
    let dt: Fx = dt_for(r0, bh);
    let (c2, o2): (Fx3, Fx) = if disc {
        let sample = shade_step(&xs, bh, seed);
        composite(s.color, s.opacity, &sample, dt)
    } else {
        (s.color, s.opacity)
    };
    let g: Fx4 = grad(&s.x, &s.p, bh);
    let p2: Fx4 = Fx4 {
        t: s.p.t,
        x: s.p.x.sub(dt.mul(g.x)),
        y: s.p.y.sub(dt.mul(g.y)),
        z: s.p.z.sub(dt.mul(g.z)),
    };
    let met: Metric = Metric::evaluate(&xs, bh, r0);
    let up: Fx4 = met.raise(&p2);
    RayState { x: s.x.add(up.scale(dt)), p: p2, color: c2, opacity: o2 }
}

/// Capture-absorbing law: once the trajectory has entered the capture
/// region, every later state equals that state — the ray stays captured
/// for the rest of the step budget.
pub proof fn lemma_capture_absorbing(
    s0: GState,
    bh: BlackHole,
    disc: bool,
    seed: u32,
    i: nat,
    n: nat,
)
    requires
        i <= n,
        captured_v(traj_v(s0, bh, disc, seed, i), bh),
    ensures
        traj_v(s0, bh, disc, seed, n) == traj_v(s0, bh, disc, seed, i),
        captured_v(traj_v(s0, bh, disc, seed, n), bh),
    decreases n,
{
    if i < n {
        lemma_capture_absorbing(s0, bh, disc, seed, i, (n - 1) as nat);
    }
}

/// The flat-space raised momentum `eta p`.
pub open spec fn eta_raise_v(p: Gv4) -> Gv4 {
    Gv4 { t: -p.t, x: p.x, y: p.y, z: p.z }
}

/// With a vanishing Kerr-Schild scalar the raised momentum and the
/// Hamiltonian reduce exactly to their flat-space forms, whatever the
/// null vector.
pub proof fn lemma_ham_flat(k: Gv4, p: Gv4)
    requires
        bounded4(p),
    ensures
        raise_v(0, k, p) == eta_raise_v(p),
        ham_v(0, k, p) == flat_ham_v(p),
{
    let kd = crate::metric::kdot_v(k, p);
    lemma_mulv_zero(kd);
    lemma_mulv_zero(mulv(k.x, kd));
    lemma_mulv_zero(mulv(k.y, kd));
    lemma_mulv_zero(mulv(k.z, kd));
}

/// With zero mass and charge every Hamiltonian probe returns the
/// flat-space value, regardless of the probe position.
pub proof fn lemma_flat_probe(xs: Gv3, p: Gv4, bh: BlackHole)
    requires
        bh.wf(),
        bh.m@ == 0,
        bh.q@ == 0,
        bounded3(xs),
        bounded4(p),
    ensures
        probe_ham_v(xs, p, bh) == flat_ham_v(p),
{
    let r = radius_v(xs, bh.a@);
    lemma_radius_bounds(xs, bh.a@);
    if r >= SCALE {
        crate::metric::lemma_flat_metric(xs, bh.a@, 0, 0, r, kvec_v(xs, bh.a@, r));
        lemma_ham_flat(kvec_v(xs, bh.a@, r), p);
    }
}

/// Flat-space motion law, one step: with zero mass and charge the
/// finite-difference gradient vanishes identically, so an uncaptured
/// step leaves the momentum (and, with the disc off, the radiance)
/// unchanged and advances the position by exactly `dt * eta p`.
pub proof fn lemma_flat_step(s: GState, bh: BlackHole, seed: u32)
    requires
        bh.wf(),
        bh.m@ == 0,
        bh.q@ == 0,
        state_wf(s),
        !captured_v(s, bh),
    ensures
        step_v(s, bh, false, seed) == (GState {
            x: addv4(
                s.x,
                scalev4(dt_v(radius_v(spatial_of(s.x), bh.a@), bh), eta_raise_v(s.p)),
            ),
            p: s.p,
            color: s.color,
            opacity: s.opacity,
        }),
{
    let xs = spatial_of(s.x);
    let r = radius_v(xs, bh.a@);
    lemma_horizon_bounds(bh.a@);
    lemma_radius_bounds(xs, bh.a@);
    let dt = dt_v(r, bh);
    // the six probes all evaluate to the flat-space Hamiltonian
    lemma_flat_probe(offset3_v(xs, 1, EPS_RAW as int), s.p, bh);
    lemma_flat_probe(offset3_v(xs, 1, -(EPS_RAW as int)), s.p, bh);
    lemma_flat_probe(offset3_v(xs, 2, EPS_RAW as int), s.p, bh);
    lemma_flat_probe(offset3_v(xs, 2, -(EPS_RAW as int)), s.p, bh);
    lemma_flat_probe(offset3_v(xs, 3, EPS_RAW as int), s.p, bh);
    lemma_flat_probe(offset3_v(xs, 3, -(EPS_RAW as int)), s.p, bh);
    // so every gradient component is the quotient of zero
    crate::fixed::lemma_abs_mul(0, SCALE as int);
    vstd::arithmetic::div_mod::lemma_div_of0(TWO_EPS_RAW as int);
    let g = grad_v(s.x, s.p, bh);
    assert(g.x == 0 && g.y == 0 && g.z == 0);
    // the momentum is unchanged, and the raised momentum is flat
    lemma_mulv_zero(dt);
    let p2 = Gv4 {
        t: s.p.t,
        x: subv(s.p.x, mulv(dt, 0)),
        y: subv(s.p.y, mulv(dt, 0)),
        z: subv(s.p.z, mulv(dt, 0)),
    };
    assert(p2 == s.p);
    crate::metric::lemma_flat_metric(xs, bh.a@, 0, 0, r, kvec_v(xs, bh.a@, r));
    lemma_ham_flat(kvec_v(xs, bh.a@, r), s.p);
}

/// The straight-line position after `i` flat steps stays representable.
pub open spec fn flat_inc_ok(s0: GState, bh: BlackHole, i: int) -> bool {
    let d = scalev4(bh.dt_min@, eta_raise_v(s0.p));
    &&& in_rangev(s0.x.t + i * d.t)
    &&& in_rangev(s0.x.x + i * d.x)
    &&& in_rangev(s0.x.y + i * d.y)
    &&& in_rangev(s0.x.z + i * d.z)
}

/// Flat-space motion law: with zero mass, zero charge, a constant
/// timestep (`dt_min == dt_max`) and the disc off, a trajectory that
/// stays uncaptured keeps its momentum exactly and advances its position
/// by the same increment `d = dt * eta p` every step, so after `n` steps
/// it sits at exactly `x0 + n * d` — straight-line motion.
pub proof fn lemma_flat_motion(s0: GState, bh: BlackHole, seed: u32, n: nat)
    requires
        bh.wf(),
        bh.m@ == 0,
        bh.q@ == 0,
        bh.dt_min == bh.dt_max,
        state_wf(s0),
        forall|i: nat| i < n ==> !captured_v(traj_v(s0, bh, false, seed, i), bh),
        forall|i: int| 0 <= i <= n ==> #[trigger] flat_inc_ok(s0, bh, i),
    ensures
        ({
            let d = scalev4(bh.dt_min@, eta_raise_v(s0.p));
            let fin = traj_v(s0, bh, false, seed, n);
            &&& fin.p == s0.p
            &&& fin.color == s0.color
            &&& fin.opacity == s0.opacity
            &&& fin.x.t == s0.x.t + n * d.t
            &&& fin.x.x == s0.x.x + n * d.x
            &&& fin.x.y == s0.x.y + n * d.y
            &&& fin.x.z == s0.x.z + n * d.z
        }),
    decreases n,
{
    let d = scalev4(bh.dt_min@, eta_raise_v(s0.p));
    if n > 0 {
        assert(flat_inc_ok(s0, bh, n - 1));
        assert(flat_inc_ok(s0, bh, n as int));
        lemma_flat_motion(s0, bh, seed, (n - 1) as nat);
        let prev = traj_v(s0, bh, false, seed, (n - 1) as nat);
        assert(!captured_v(prev, bh));
        assert(state_wf(prev));
        lemma_flat_step(prev, bh, seed);
        // the constant-dt policy yields dt_min at every radius
        let r = radius_v(spatial_of(prev.x), bh.a@);
        assert(dt_v(r, bh) == bh.dt_min@);
        assert((n - 1) * d.t + d.t == n * d.t) by (nonlinear_arith);
        assert((n - 1) * d.x + d.x == n * d.x) by (nonlinear_arith);
        assert((n - 1) * d.y + d.y == n * d.y) by (nonlinear_arith);
        assert((n - 1) * d.z + d.z == n * d.z) by (nonlinear_arith);
    }
}

/// Traces one ray for the configured step budget. The result is captured
/// exactly when the trajectory's final state lies inside the capture
/// threshold (which, by `lemma_capture_absorbing`, happens exactly when
/// the integrated radius ever fell below it within the budget).
pub fn trace(origin: &Fx3, dir: &Fx3, bh: &BlackHole, disc: bool, seed: u32) -> (tr: TraceResult)
    requires
        origin.bounded(),
        dir.bounded(),
        bh.wf(),
    ensures
        ({
            let fin = traj_v(init_state_v(origin@, dir@, *bh), *bh, disc, seed, bh.steps as nat);
            &&& tr.captured == captured_v(fin, *bh)
            &&& tr.color@ == fin.color
            &&& tr.opacity@ == fin.opacity
            &&& (!tr.captured ==> tr.exit_dir@ == exit_dir_v(fin, *bh))
        }),
        tr.captured ==> tr.exit_dir@ == (Gv3 { x: 0, y: 0, z: 0 }),
        0 <= tr.opacity@ <= SCALE,
        0 <= tr.color@.x,
        0 <= tr.color@.y,
        0 <= tr.color@.z,
        tr.color.bounded(),
        tr.exit_dir.bounded(),
{
    let r0: Fx = radius(origin, bh.a);
    let vel: Fx4 = Fx4::new(Fx::one(), dir.x, dir.y, dir.z);
    let p0: Fx4 = if r0.v >= SCALE {
        let met0 = Metric::evaluate(origin, bh, r0);
        met0.lower(&vel)
    } else {
        Fx4::new(Fx::one().neg(), dir.x, dir.y, dir.z)
    };
    let mut s: RayState = RayState {
        x: Fx4::new(Fx::zero(), origin.x, origin.y, origin.z),
        p: p0,
        color: Fx3::zero(),
        opacity: Fx::zero(),
    };
    let ghost s0 = init_state_v(origin@, dir@, *bh);
    proof {
        assert(s@ == s0);
    }
    let steps: u32 = bh.steps;
    let mut i: u32 = 0;
    while i < steps
        invariant
            bh.wf(),
            i <= steps,
            s.wf(),
            s@ == traj_v(s0, *bh, disc, seed, i as nat),
        decreases steps - i,
    {
        let xs: Fx3 = s.x.spatial();
        let r: Fx = radius(&xs, bh.a);
        let h: Fx = horizon(bh.a);
        if r.v >= h.v {
            s = step(&s, bh, disc, seed);
        }
        i = i + 1;
    }
    let xs: Fx3 = s.x.spatial();
    let r: Fx = radius(&xs, bh.a);
    let h: Fx = horizon(bh.a);
    if r.v < h.v {
        TraceResult { captured: true, exit_dir: Fx3::zero(), color: s.color, opacity: s.opacity }
    } else {
        let met: Metric = Metric::evaluate(&xs, bh, r);
        let up: Fx4 = met.raise(&s.p);
        TraceResult { captured: false, exit_dir: up.spatial(), color: s.color, opacity: s.opacity }
    }
}

} // verus!
