//! The spacetime metric evaluator.
//!
//! The metric is a Kerr-Schild-like perturbation of flat spacetime:
//! `g = eta + f * outer(k, k)` with `eta = diag(-1, 1, 1, 1)`, a null
//! vector `k` and a scalar `f` derived from an oblate-spheroidal radius
//! around a rotating, charged mass. Because `k` is null, the inverse is
//! the closed form `g^{-1} = eta - f * outer(eta k, eta k)`; the geodesic
//! module applies it through [`Metric::raise`].

use vstd::prelude::*;
use crate::fixed::{
    Fx, addv, subv, mulv, divv, sdiv, sqrtv, is_isqrt, SCALE, FX_MAX,
    lemma_mulv_nonneg, lemma_mulv_zero, lemma_mulv_le_factor, lemma_mulv_ge_unit,
    lemma_sqrtv_facts, lemma_sqrtv_le_unit, lemma_isqrt_unique,
};
use crate::vecmath::{Fx3, Fx4, Gv3, Gv4, dotv3};
use crate::types::BlackHole;

verus! {

/// Squared spatial length minus the squared spin: `p . p - a^2`.
pub open spec fn rho_v(p: Gv3, a: int) -> int {
    subv(dotv3(p, p), mulv(a, a))
}

/// The squared oblate-spheroidal radius
/// `r^2 = (rho + sqrt(rho^2 + 4 a^2 p_z^2)) / 2`, floored at zero so that
/// the degenerate ring region never yields a negative square.
pub open spec fn radius2_v(p: Gv3, a: int) -> int {
    let rho = rho_v(p, a);
    let term = addv(mulv(rho, rho), mulv(mulv(4 * SCALE, mulv(a, a)), mulv(p.z, p.z)));
    let h = sdiv(addv(rho, sqrtv(term)), 2);
    if h < 0 {
        0
    } else {
        h
    }
}

/// The oblate-spheroidal radius of a spatial position.
pub open spec fn radius_v(p: Gv3, a: int) -> int {
    sqrtv(radius2_v(p, a))
}

/// The capture threshold `1 + sqrt(1 - a^2)` (the outer event horizon).
pub open spec fn horizon_v(a: int) -> int {
    addv(SCALE as int, sqrtv(subv(SCALE as int, mulv(a, a))))
}

/// The null vector `k = (1, (r p_x + a p_y)/(r^2+a^2),
/// (r p_y - a p_x)/(r^2+a^2), p_z/r)`, for `r >= 1`.
pub open spec fn kvec_v(p: Gv3, a: int, r: int) -> Gv4 {
    let r2pa2 = addv(mulv(r, r), mulv(a, a));
    Gv4 {
        t: SCALE as int,
        x: divv(addv(mulv(r, p.x), mulv(a, p.y)), r2pa2),
        y: divv(subv(mulv(r, p.y), mulv(a, p.x)), r2pa2),
        z: divv(p.z, r),
    }
}

/// The Kerr-Schild scalar `f = r^2 (2 m r - q^2) / (r^4 + a^2 p_z^2)`,
/// for `r >= 1`.
pub open spec fn fscalar_v(p: Gv3, a: int, m: int, q: int, r: int) -> int {
    let num = mulv(mulv(r, r), subv(mulv(addv(m, m), r), mulv(q, q)));
    let den = addv(mulv(mulv(r, r), mulv(r, r)), mulv(mulv(a, a), mulv(p.z, p.z)));
    divv(num, den)
}

/// The Minkowski matrix `diag(-1, 1, 1, 1)`.
pub open spec fn eta_v(i: int, j: int) -> int {
    if i == j {
        if i == 0 {
            -(SCALE as int)
        } else {
            SCALE as int
        }
    } else {
        0
    }
}

/// Component `i` of a spacetime vector, indexed `t, x, y, z`.
pub open spec fn comp_v(k: Gv4, i: int) -> int {
    if i == 0 {
        k.t
    } else if i == 1 {
        k.x
    } else if i == 2 {
        k.y
    } else {
        k.z
    }
}

/// Entry `(i, j)` of the metric `eta + f * outer(k, k)`.
pub open spec fn metric_entry_v(f: int, k: Gv4, i: int, j: int) -> int {
    addv(eta_v(i, j), mulv(f, mulv(comp_v(k, i), comp_v(k, j))))
}

/// Contraction of the covector `k-up = (-1, k_x, k_y, k_z)` with a
/// momentum covector: `-p_t + k_s . p_s`.
pub open spec fn kdot_v(k: Gv4, mom: Gv4) -> int {
    subv(dotv3(crate::vecmath::spatial_of(k), crate::vecmath::spatial_of(mom)), mom.t)
}

/// The momentum with raised index, `g^{-1} p`, in closed form:
/// `eta p - f * (k-up . p) * k-up` with `k-up = eta k = (-1, k_s)`.
pub open spec fn raise_v(f: int, k: Gv4, mom: Gv4) -> Gv4 {
    let kd = kdot_v(k, mom);
    Gv4 {
        t: addv(-mom.t, mulv(f, kd)),
        x: subv(mom.x, mulv(f, mulv(k.x, kd))),
        y: subv(mom.y, mulv(f, mulv(k.y, kd))),
        z: subv(mom.z, mulv(f, mulv(k.z, kd))),
    }
}

/// The Hamiltonian `H(x, p) = (g^{-1} p . p) / 2` at a metric evaluation.
pub open spec fn ham_v(f: int, k: Gv4, mom: Gv4) -> int {
    sdiv(crate::vecmath::dotv4(raise_v(f, k, mom), mom), 2)
}

/// The momentum with lowered index, `g v`, in closed form:
/// `eta v + f * (k . v) * k` with `k . v = v_t + k_s . v_s`.
pub open spec fn lower_v(f: int, k: Gv4, vel: Gv4) -> Gv4 {
    let kd = addv(vel.t, dotv3(crate::vecmath::spatial_of(k), crate::vecmath::spatial_of(vel)));
    Gv4 {
        t: addv(-vel.t, mulv(f, kd)),
        x: addv(vel.x, mulv(f, mulv(k.x, kd))),
        y: addv(vel.y, mulv(f, mulv(k.y, kd))),
        z: addv(vel.z, mulv(f, mulv(k.z, kd))),
    }
}

/// A metric evaluation at one position: the scalar `f` and the null vector
/// `k` of the Kerr-Schild form `g = eta + f * outer(k, k)`.
#[derive(Clone, Copy, PartialEq, Eq, Structural, Debug)]
pub struct Metric {
    pub f: Fx,
    pub k: Fx4,
}

/// The oblate-spheroidal radius of a spatial position. Total: at the ring
/// singularity the square is floored at zero, so the result is `0` there
/// and the caller classifies the ray as captured.
pub fn radius(p: &Fx3, a: Fx) -> (r: Fx)
    requires
        p.bounded(),
        0 <= a@ < SCALE,
    ensures
        r@ == radius_v(p@, a@),
        0 <= r@ <= 0x8000_0000,
        r.bounded(),
{
    let rho: Fx = p.dot(*p).sub(a.mul(a));
    let asq: Fx = a.mul(a);
    let pz2: Fx = p.z.mul(p.z);
    let term: Fx = rho.mul(rho).add(Fx::from_int(4).mul(asq).mul(pz2));
    proof {
        crate::vecmath::lemma_mulv_self_nonneg(rho_v(p@, a@));
        lemma_mulv_nonneg(a@, a@);
        crate::vecmath::lemma_mulv_self_nonneg(p.z@);
        lemma_mulv_nonneg(4 * SCALE, mulv(a@, a@));
        lemma_mulv_nonneg(mulv(4 * SCALE, mulv(a@, a@)), mulv(p.z@, p.z@));
    }
    let s: Fx = term.sqrt();
    let r2: Fx = rho.add(s).half();
    let r2c: Fx = r2.max(Fx::zero());
    r2c.sqrt()
}

/// The capture threshold `1 + sqrt(1 - a^2)`; at least `1` and at most `2`.
pub fn horizon(a: Fx) -> (h: Fx)
    requires
        0 <= a@ < SCALE,
    ensures
        h@ == horizon_v(a@),
        SCALE <= h@ <= 2 * SCALE,
{
    proof {
        lemma_mulv_le_factor(a@, a@);
    }
    let one: Fx = Fx::one();
    let under: Fx = one.sub(a.mul(a));
    proof {
        lemma_sqrtv_le_unit(under@);
    }
    one.add(under.sqrt())
}

impl Metric {
    pub open spec fn bounded(self) -> bool {
        self.f.bounded() && self.k.bounded()
    }

    /// Evaluates the metric field at a spatial position with radius `r`.
    /// Deterministic and pure in `(p, r, parameters)`. Requires `r >= 1`,
    /// which the integrator has checked against the capture threshold, so
    /// no divisor here can vanish.
    pub fn evaluate(p: &Fx3, bh: &BlackHole, r: Fx) -> (m: Metric)
        requires
            p.bounded(),
            bh.wf(),
            SCALE <= r@ <= 0x8000_0000,
        ensures
            m.f@ == fscalar_v(p@, bh.a@, bh.m@, bh.q@, r@),
            m.k@ == kvec_v(p@, bh.a@, r@),
            m.bounded(),
    {
        let r2: Fx = r.mul(r);
        let asq: Fx = bh.a.mul(bh.a);
        proof {
            lemma_mulv_ge_unit(r@, r@);
            lemma_mulv_nonneg(bh.a@, bh.a@);
            crate::vecmath::lemma_mulv_self_nonneg(p.z@);
            lemma_mulv_nonneg(asq@, mulv(p.z@, p.z@));
            lemma_mulv_ge_unit(r2@, r2@);
        }
        let r2pa2: Fx = r2.add(asq);
        let kx: Fx = r.mul(p.x).add(bh.a.mul(p.y)).div(r2pa2);
        let ky: Fx = r.mul(p.y).sub(bh.a.mul(p.x)).div(r2pa2);
        let kz: Fx = p.z.div(r);
        let num: Fx = r2.mul(bh.m.add(bh.m).mul(r).sub(bh.q.mul(bh.q)));
        let den: Fx = r2.mul(r2).add(asq.mul(p.z.mul(p.z)));
        let f: Fx = num.div(den);
        Metric { f, k: Fx4::new(Fx::one(), kx, ky, kz) }
    }

    /// Entry `(i, j)` of the metric tensor as a symmetric 4x4 matrix,
    /// indexed `t, x, y, z`.
    pub fn entry(&self, i: usize, j: usize) -> (e: Fx)
        requires
            i < 4,
            j < 4,
            self.bounded(),
        ensures
            e@ == metric_entry_v(self.f@, self.k@, i as int, j as int),
            e.bounded(),
    {
        let ki: Fx = self.comp(i);
        let kj: Fx = self.comp(j);
        let eta: Fx = if i == j {
            if i == 0 {
                Fx { v: -SCALE }
            } else {
                Fx { v: SCALE }
            }
        } else {
            Fx { v: 0 }
        };
        eta.add(self.f.mul(ki.mul(kj)))
    }

    fn comp(&self, i: usize) -> (c: Fx)
        requires
            i < 4,
        ensures
            c@ == comp_v(self.k@, i as int),
    {
        if i == 0 {
            self.k.t
        } else if i == 1 {
            self.k.x
        } else if i == 2 {
            self.k.y
        } else {
            self.k.z
        }
    }

    /// Applies the closed-form inverse metric to a momentum covector.
    pub fn raise(&self, mom: &Fx4) -> (up: Fx4)
        requires
            self.bounded(),
            mom.bounded(),
        ensures
            up@ == raise_v(self.f@, self.k@, mom@),
            up.bounded(),
    {
        let kd: Fx = self.k.spatial().dot(mom.spatial()).sub(mom.t);
        Fx4 {
            t: mom.t.neg().add(self.f.mul(kd)),
            x: mom.x.sub(self.f.mul(self.k.x.mul(kd))),
            y: mom.y.sub(self.f.mul(self.k.y.mul(kd))),
            z: mom.z.sub(self.f.mul(self.k.z.mul(kd))),
        }
    }

    /// Applies the metric to a velocity vector, yielding its conjugate
    /// momentum covector.
    pub fn lower(&self, vel: &Fx4) -> (down: Fx4)
        requires
            self.bounded(),
            vel.bounded(),
        ensures
            down@ == lower_v(self.f@, self.k@, vel@),
            down.bounded(),
    {
        let kd: Fx = vel.t.add(self.k.spatial().dot(vel.spatial()));
        Fx4 {
            t: vel.t.neg().add(self.f.mul(kd)),
            x: vel.x.add(self.f.mul(self.k.x.mul(kd))),
            y: vel.y.add(self.f.mul(self.k.y.mul(kd))),
            z: vel.z.add(self.f.mul(self.k.z.mul(kd))),
        }
    }

    /// The Hamiltonian `H = (g^{-1} p . p) / 2` at this evaluation.
    pub fn hamiltonian(&self, mom: &Fx4) -> (h: Fx)
        requires
            self.bounded(),
            mom.bounded(),
        ensures
            h@ == ham_v(self.f@, self.k@, mom@),
            h.bounded(),
    {
        self.raise(mom).dot(*mom).half()
    }
}

/// The radius of a bounded position is nonnegative and small enough that
/// its fixed-point square cannot overflow.
pub proof fn lemma_radius_bounds(p: Gv3, a: int)
    requires
        crate::vecmath::bounded3(p),
        0 <= a < SCALE,
    ensures
        0 <= radius_v(p, a) <= 0x8000_0000,
        0 <= radius2_v(p, a) <= FX_MAX,
{
    let rho = rho_v(p, a);
    let term = addv(mulv(rho, rho), mulv(mulv(4 * SCALE, mulv(a, a)), mulv(p.z, p.z)));
    crate::fixed::lemma_sdiv2_bounds(addv(rho, sqrtv(term)));
    let r2 = radius2_v(p, a);
    lemma_sqrtv_facts(r2);
    assert(radius_v(p, a) <= 0x8000_0000) by (nonlinear_arith)
        requires
            is_isqrt(r2 * SCALE, radius_v(p, a)) && 0 <= r2 <= FX_MAX,
    ;
}

/// The capture threshold lies between one and two for every valid spin.
pub proof fn lemma_horizon_bounds(a: int)
    requires
        0 <= a < SCALE,
    ensures
        SCALE <= horizon_v(a) <= 2 * SCALE,
{
    lemma_mulv_le_factor(a, a);
    lemma_sqrtv_le_unit(subv(SCALE as int, mulv(a, a)));
}

/// Flat-space law: with zero mass and charge the Kerr-Schild scalar
/// vanishes, so the metric equals the Minkowski matrix `diag(-1, 1, 1, 1)`
/// exactly, whatever the spin and position.
pub proof fn lemma_flat_metric(p: Gv3, a: int, m: int, q: int, r: int, k: Gv4)
    requires
        m == 0,
        q == 0,
        0 <= a < SCALE,
        SCALE <= r <= 0x8000_0000,
        crate::vecmath::bounded3(p),
    ensures
        fscalar_v(p, a, m, q, r) == 0,
        forall|i: int, j: int|
            0 <= i < 4 && 0 <= j < 4 ==> metric_entry_v(0, k, i, j) == eta_v(i, j),
{
    lemma_mulv_zero(r);
    let num = mulv(mulv(r, r), subv(mulv(addv(0int, 0int), r), mulv(0int, 0int)));
    lemma_mulv_zero(mulv(r, r));
    assert(num == 0);
    let den = addv(mulv(mulv(r, r), mulv(r, r)), mulv(mulv(a, a), mulv(p.z, p.z)));
    lemma_mulv_ge_unit(r, r);
    lemma_mulv_ge_unit(mulv(r, r), mulv(r, r));
    lemma_mulv_nonneg(a, a);
    crate::vecmath::lemma_mulv_self_nonneg(p.z);
    lemma_mulv_nonneg(mulv(a, a), mulv(p.z, p.z));
    assert(den >= SCALE);
    crate::fixed::lemma_abs_mul(0, SCALE as int);
    vstd::arithmetic::div_mod::lemma_div_of0(den);
    assert(fscalar_v(p, a, m, q, r) == 0);
    assert forall|i: int, j: int|
        0 <= i < 4 && 0 <= j < 4 implies metric_entry_v(0, k, i, j) == eta_v(i, j) by {
        lemma_mulv_zero(mulv(comp_v(k, i), comp_v(k, j)));
    }
}

/// Degenerate-input law: at the spatial origin the oblate radius is exactly
/// zero, which lies below the capture threshold, so the evaluation point is
/// classified captured and no division by the radius is ever attempted.
pub proof fn lemma_origin_captured(a: int)
    requires
        0 <= a < SCALE,
    ensures
        radius_v(Gv3 { x: 0, y: 0, z: 0 }, a) == 0,
        radius_v(Gv3 { x: 0, y: 0, z: 0 }, a) < horizon_v(a),
{
    let o = Gv3 { x: 0, y: 0, z: 0 };
    lemma_mulv_zero(0);
    assert(dotv3(o, o) == 0);
    lemma_mulv_le_factor(a, a);
    let u = mulv(a, a);
    let rho = rho_v(o, a);
    assert(rho == -u);
    // the discriminant reduces to the fixed-point square of rho alone
    lemma_mulv_zero(mulv(mulv(4 * SCALE, mulv(a, a)), 0));
    lemma_mulv_zero(mulv(4 * SCALE, mulv(a, a)));
    let t1 = mulv(rho, rho);
    lemma_mulv_nonneg(u, u);
    crate::fixed::lemma_abs_mul(rho, rho);
    assert((-u) * (-u) == u * u) by (nonlinear_arith);
    assert(u * u <= SCALE * SCALE) by (nonlinear_arith)
        requires
            0 <= u <= SCALE,
    ;
    vstd::arithmetic::div_mod::lemma_div_is_ordered(u * u, SCALE * SCALE, SCALE as int);
    vstd::arithmetic::div_mod::lemma_div_multiples_vanish(SCALE as int, SCALE as int);
    assert(t1 == (u * u) / (SCALE as int));
    let term = addv(t1, 0);
    assert(term == t1);
    // the square root of the discriminant is at most the magnitude of rho
    let s = sqrtv(t1);
    lemma_sqrtv_facts(t1);
    vstd::arithmetic::div_mod::lemma_fundamental_div_mod(u * u, SCALE as int);
    vstd::arithmetic::div_mod::lemma_remainder_upper(u * u, SCALE as int);
    vstd::arithmetic::div_mod::lemma_remainder_lower(u * u, SCALE as int);
    assert(t1 * SCALE <= u * u);
    assert(s <= u) by (nonlinear_arith)
        requires
            is_isqrt(t1 * SCALE, s) && t1 * SCALE <= u * u && 0 <= u,
    ;
    // hence the halved sum is nonpositive and the squared radius is zero
    let h = sdiv(addv(rho, s), 2);
    assert(h <= 0);
    assert(radius2_v(o, a) == 0);
    crate::fixed::lemma_isqrt_unique(0, 0);
    assert(radius_v(o, a) == 0);
    lemma_sqrtv_le_unit(subv(SCALE as int, u));
    assert(horizon_v(a) >= SCALE);
}

} // verus!
