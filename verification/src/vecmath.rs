//! Fixed-point 3-vectors (spatial) and 4-vectors (spacetime), with
//! spec-level models over mathematical integers.

use vstd::prelude::*;
use crate::fixed::{Fx, addv, subv, mulv, divv, sqrtv, in_rangev, SCALE};

verus! {

/// Spec-level spatial vector: the raw fixed-point components as integers.
pub struct Gv3 {
    pub x: int,
    pub y: int,
    pub z: int,
}

/// Spec-level spacetime vector: the raw fixed-point components as integers.
pub struct Gv4 {
    pub t: int,
    pub x: int,
    pub y: int,
    pub z: int,
}

pub open spec fn bounded3(v: Gv3) -> bool {
    in_rangev(v.x) && in_rangev(v.y) && in_rangev(v.z)
}

pub open spec fn bounded4(v: Gv4) -> bool {
    in_rangev(v.t) && in_rangev(v.x) && in_rangev(v.y) && in_rangev(v.z)
}

pub open spec fn addv3(a: Gv3, b: Gv3) -> Gv3 {
    Gv3 { x: addv(a.x, b.x), y: addv(a.y, b.y), z: addv(a.z, b.z) }
}

pub open spec fn subv3(a: Gv3, b: Gv3) -> Gv3 {
    Gv3 { x: subv(a.x, b.x), y: subv(a.y, b.y), z: subv(a.z, b.z) }
}

pub open spec fn scalev3(s: int, a: Gv3) -> Gv3 {
    Gv3 { x: mulv(s, a.x), y: mulv(s, a.y), z: mulv(s, a.z) }
}

pub open spec fn dotv3(a: Gv3, b: Gv3) -> int {
    addv(addv(mulv(a.x, b.x), mulv(a.y, b.y)), mulv(a.z, b.z))
}

/// Plain component-wise contraction of a spacetime vector with a covector.
pub open spec fn dotv4(a: Gv4, b: Gv4) -> int {
    addv(addv(addv(mulv(a.t, b.t), mulv(a.x, b.x)), mulv(a.y, b.y)), mulv(a.z, b.z))
}

pub open spec fn addv4(a: Gv4, b: Gv4) -> Gv4 {
    Gv4 { t: addv(a.t, b.t), x: addv(a.x, b.x), y: addv(a.y, b.y), z: addv(a.z, b.z) }
}

pub open spec fn scalev4(s: int, a: Gv4) -> Gv4 {
    Gv4 { t: mulv(s, a.t), x: mulv(s, a.x), y: mulv(s, a.y), z: mulv(s, a.z) }
}

pub open spec fn spatial_of(a: Gv4) -> Gv3 {
    Gv3 { x: a.x, y: a.y, z: a.z }
}

/// A spatial fixed-point vector.
#[derive(Clone, Copy, PartialEq, Eq, Structural, Debug)]
pub struct Fx3 {
    pub x: Fx,
    pub y: Fx,
    pub z: Fx,
}

impl View for Fx3 {
    type V = Gv3;

    open spec fn view(&self) -> Gv3 {
        Gv3 { x: self.x@, y: self.y@, z: self.z@ }
    }
}

/// A spacetime fixed-point vector `(t, x, y, z)`.
#[derive(Clone, Copy, PartialEq, Eq, Structural, Debug)]
pub struct Fx4 {
    pub t: Fx,
    pub x: Fx,
    pub y: Fx,
    pub z: Fx,
}

impl View for Fx4 {
    type V = Gv4;

    open spec fn view(&self) -> Gv4 {
        Gv4 { t: self.t@, x: self.x@, y: self.y@, z: self.z@ }
    }
}

impl Fx3 {
    pub open spec fn bounded(self) -> bool {
        bounded3(self@)
    }

    pub fn new(x: Fx, y: Fx, z: Fx) -> (r: Fx3)
        ensures
            r@ == (Gv3 { x: x@, y: y@, z: z@ }),
    {
        Fx3 { x, y, z }
    }

    pub fn zero() -> (r: Fx3)
        ensures
            r@ == (Gv3 { x: 0, y: 0, z: 0 }),
            r.bounded(),
    {
        Fx3 { x: Fx::zero(), y: Fx::zero(), z: Fx::zero() }
    }

    pub fn add(self, o: Fx3) -> (r: Fx3)
        requires
            self.bounded(),
            o.bounded(),
        ensures
            r@ == addv3(self@, o@),
            r.bounded(),
    {
        Fx3 { x: self.x.add(o.x), y: self.y.add(o.y), z: self.z.add(o.z) }
    }

    pub fn sub(self, o: Fx3) -> (r: Fx3)
        requires
            self.bounded(),
            o.bounded(),
        ensures
            r@ == subv3(self@, o@),
            r.bounded(),
    {
        Fx3 { x: self.x.sub(o.x), y: self.y.sub(o.y), z: self.z.sub(o.z) }
    }

    pub fn scale(self, s: Fx) -> (r: Fx3)
        requires
            self.bounded(),
            s.bounded(),
        ensures
            r@ == scalev3(s@, self@),
            r.bounded(),
    {
        Fx3 { x: s.mul(self.x), y: s.mul(self.y), z: s.mul(self.z) }
    }

    pub fn dot(self, o: Fx3) -> (r: Fx)
        requires
            self.bounded(),
            o.bounded(),
        ensures
            r@ == dotv3(self@, o@),
            r.bounded(),
    {
        self.x.mul(o.x).add(self.y.mul(o.y)).add(self.z.mul(o.z))
    }

    /// The squared Euclidean length is nonnegative.
    pub proof fn lemma_dot_self_nonneg(a: Gv3)
        ensures
            dotv3(a, a) >= 0,
    {
        lemma_mulv_self_nonneg(a.x);
        lemma_mulv_self_nonneg(a.y);
        lemma_mulv_self_nonneg(a.z);
    }

    /// Euclidean length.
    pub fn norm(self) -> (r: Fx)
        requires
            self.bounded(),
        ensures
            r@ == sqrtv(dotv3(self@, self@)),
            r@ >= 0,
            r.bounded(),
    {
        proof {
            Fx3::lemma_dot_self_nonneg(self@);
        }
        self.dot(self).sqrt()
    }

    /// The vector scaled to unit length (the components divided by the norm).
    pub fn normalize(self) -> (r: Fx3)
        requires
            self.bounded(),
            dotv3(self@, self@) >= 1,
        ensures
            r@ == normalizev3(self@),
            r.bounded(),
    {
        let n: Fx = self.norm();
        proof {
            crate::fixed::lemma_isqrt_exists(dotv3(self@, self@) * SCALE);
            assert(n@ >= 1) by (nonlinear_arith)
                requires
                    crate::fixed::is_isqrt(dotv3(self@, self@) * SCALE, n@),
                    dotv3(self@, self@) >= 1,
            ;
        }
        Fx3 { x: self.x.div(n), y: self.y.div(n), z: self.z.div(n) }
    }
}

/// The vector divided by its Euclidean norm (meaningful when the squared
/// norm is at least one raw unit, so the norm is nonzero).
pub open spec fn normalizev3(a: Gv3) -> Gv3 {
    let n = sqrtv(dotv3(a, a));
    Gv3 { x: divv(a.x, n), y: divv(a.y, n), z: divv(a.z, n) }
}

/// The square of a value is nonnegative, and so is its fixed-point square.
pub proof fn lemma_mulv_self_nonneg(a: int)
    ensures
        mulv(a, a) >= 0,
{
    crate::fixed::lemma_abs_mul(a, a);
}

impl Fx4 {
    pub open spec fn bounded(self) -> bool {
        bounded4(self@)
    }

    pub fn new(t: Fx, x: Fx, y: Fx, z: Fx) -> (r: Fx4)
        ensures
            r@ == (Gv4 { t: t@, x: x@, y: y@, z: z@ }),
    {
        Fx4 { t, x, y, z }
    }

    pub fn add(self, o: Fx4) -> (r: Fx4)
        requires
            self.bounded(),
            o.bounded(),
        ensures
            r@ == addv4(self@, o@),
            r.bounded(),
    {
        Fx4 { t: self.t.add(o.t), x: self.x.add(o.x), y: self.y.add(o.y), z: self.z.add(o.z) }
    }

    pub fn scale(self, s: Fx) -> (r: Fx4)
        requires
            self.bounded(),
            s.bounded(),
        ensures
            r@ == scalev4(s@, self@),
            r.bounded(),
    {
        Fx4 { t: s.mul(self.t), x: s.mul(self.x), y: s.mul(self.y), z: s.mul(self.z) }
    }

    /// Plain component-wise contraction with another 4-vector.
    pub fn dot(self, o: Fx4) -> (r: Fx)
        requires
            self.bounded(),
            o.bounded(),
        ensures
            r@ == dotv4(self@, o@),
            r.bounded(),
    {
        self.t.mul(o.t).add(self.x.mul(o.x)).add(self.y.mul(o.y)).add(self.z.mul(o.z))
    }

    /// The spatial part `(x, y, z)`.
    pub fn spatial(self) -> (r: Fx3)
        ensures
            r@ == spatial_of(self@),
    {
        Fx3 { x: self.x, y: self.y, z: self.z }
    }
}

} // verus!
