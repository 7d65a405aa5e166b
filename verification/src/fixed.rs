//! Saturating fixed-point scalars.
//!
//! A real number `x` is represented by an `i64` raw value `v` with
//! `x = v / SCALE`. Every operation clamps its result into
//! `[-FX_MAX, FX_MAX]`, so no operation can overflow or produce a
//! non-finite value. Each executable operation is specified exactly by a
//! spec-level model over mathematical integers (`addv`, `mulv`, ...).

use vstd::prelude::*;

verus! {

/// Number of raw units in one: a raw value `v` denotes the real `v / SCALE`.
pub const SCALE: i64 = 65536;

/// Largest raw magnitude; all arithmetic saturates at this bound.
pub const FX_MAX: i64 = 0x4000_0000_0000;

/// Magnitude of an integer.
pub open spec fn iabs(n: int) -> int {
    if n < 0 {
        -n
    } else {
        n
    }
}

/// Quotient rounded toward zero, for `d != 0`.
pub open spec fn sdiv(n: int, d: int) -> int {
    let q = iabs(n) / iabs(d);
    if (n < 0) != (d < 0) {
        -q
    } else {
        q
    }
}

/// Saturation of a raw value into the representable range.
pub open spec fn clampv(v: int) -> int {
    if v > FX_MAX {
        FX_MAX as int
    } else if v < -FX_MAX {
        -(FX_MAX as int)
    } else {
        v
    }
}

/// The raw value lies in the representable range.
pub open spec fn in_rangev(v: int) -> bool {
    -FX_MAX <= v <= FX_MAX
}

/// Raw value of a saturating fixed-point sum.
pub open spec fn addv(a: int, b: int) -> int {
    clampv(a + b)
}

/// Raw value of a saturating fixed-point difference.
pub open spec fn subv(a: int, b: int) -> int {
    clampv(a - b)
}

/// Raw value of a saturating fixed-point product (rounded toward zero).
pub open spec fn mulv(a: int, b: int) -> int {
    clampv(sdiv(a * b, SCALE as int))
}

/// Raw value of a saturating fixed-point quotient (rounded toward zero),
/// for `b != 0`.
pub open spec fn divv(a: int, b: int) -> int {
    clampv(sdiv(a * SCALE, b))
}

/// Raw value clamped into the unit interval `[0, SCALE]`.
pub open spec fn clamp01v(v: int) -> int {
    if v < 0 {
        0
    } else if v > SCALE {
        SCALE as int
    } else {
        v
    }
}

/// `s` is the integer square root of `n`.
pub open spec fn is_isqrt(n: int, s: int) -> bool {
    0 <= s && s * s <= n && n < (s + 1) * (s + 1)
}

/// The integer square root of `n` (meaningful for `n >= 0`).
pub open spec fn isqrt(n: int) -> int {
    choose|s: int| is_isqrt(n, s)
}

/// Raw value of the fixed-point square root of a nonnegative raw value.
pub open spec fn sqrtv(a: int) -> int {
    isqrt(a * SCALE)
}

/// For every nonnegative `n` the chosen integer square root satisfies its
/// defining inequalities.
pub proof fn lemma_isqrt_exists(n: int)
    requires
        n >= 0,
    ensures
        is_isqrt(n, isqrt(n)),
    decreases n,
{
    if n == 0 {
        assert(is_isqrt(0, 0));
    } else {
        lemma_isqrt_exists(n - 1);
        let s = isqrt(n - 1);
        if n < (s + 1) * (s + 1) {
            assert(is_isqrt(n, s));
        } else {
            assert(n == (s + 1) * (s + 1));
            assert((s + 1) * (s + 1) < (s + 2) * (s + 2)) by (nonlinear_arith)
                requires
                    s >= 0,
            ;
            assert(is_isqrt(n, s + 1));
        }
    }
}

/// The integer square root is unique.
pub proof fn lemma_isqrt_unique(n: int, s: int)
    requires
        is_isqrt(n, s),
    ensures
        s == isqrt(n),
{
    assert(n >= 0) by (nonlinear_arith)
        requires
            0 <= s && s * s <= n,
    ;
    lemma_isqrt_exists(n);
    let t = isqrt(n);
    assert(s == t) by (nonlinear_arith)
        requires
            0 <= s,
            0 <= t,
            s * s <= n,
            n < (s + 1) * (s + 1),
            t * t <= n,
            n < (t + 1) * (t + 1),
    ;
}

/// Magnitudes multiply, and the sign of a product follows the signs of its
/// factors.
pub proof fn lemma_abs_mul(a: int, b: int)
    by (nonlinear_arith)
    ensures
        iabs(a * b) == iabs(a) * iabs(b),
        ((a < 0) != (b < 0)) ==> a * b <= 0,
        ((a < 0) == (b < 0)) ==> a * b >= 0,
{
}

/// Integer square root of a 64-bit value, by bisection.
pub fn isqrt_u64(n: u64) -> (s: u64)
    requires
        n <= 0x4000_0000_0000_0000,
    ensures
        is_isqrt(n as int, s as int),
        s <= 0x8000_0000,
{
    let mut lo: u64 = 0;
    let mut hi: u64 = 0x8000_0001;
    proof {
        assert((0x8000_0001 as int) * (0x8000_0001 as int) == 0x4000_0001_0000_0001) by (nonlinear_arith);
    }
    while lo + 1 < hi
        invariant
            (lo as int) * (lo as int) <= n as int,
            (n as int) < (hi as int) * (hi as int),
            lo < hi <= 0x8000_0001,
        decreases hi - lo,
    {
        let mid: u64 = lo + (hi - lo) / 2;
        proof {
            assert(lo < mid < hi);
            assert((mid as int) * (mid as int) <= 0x4000_0000_0000_0000) by (nonlinear_arith)
                requires
                    0 <= mid <= 0x8000_0000,
            ;
        }
        let sq: u64 = mid * mid;
        if sq <= n {
            lo = mid;
        } else {
            hi = mid;
        }
    }
    lo
}

/// The fixed-point product of nonnegative values is nonnegative.
pub proof fn lemma_mulv_nonneg(a: int, b: int)
    requires
        a >= 0,
        b >= 0,
    ensures
        0 <= mulv(a, b),
{
    lemma_abs_mul(a, b);
    vstd::arithmetic::div_mod::lemma_div_pos_is_pos(a * b, SCALE as int);
}

/// Anything times zero is zero, also in fixed point.
pub proof fn lemma_mulv_zero(b: int)
    ensures
        mulv(0, b) == 0,
        mulv(b, 0) == 0,
{
    vstd::arithmetic::div_mod::lemma_div_of0(SCALE as int);
}

/// Multiplying a nonnegative value by a factor of at most one does not
/// increase it.
pub proof fn lemma_mulv_le_factor(a: int, b: int)
    requires
        0 <= a <= FX_MAX,
        0 <= b <= SCALE,
    ensures
        0 <= mulv(a, b) <= a,
{
    lemma_mulv_nonneg(a, b);
    lemma_abs_mul(a, b);
    assert(a * b <= a * SCALE) by (nonlinear_arith)
        requires
            0 <= a && b <= SCALE,
    ;
    vstd::arithmetic::div_mod::lemma_div_is_ordered(a * b, a * SCALE, SCALE as int);
    vstd::arithmetic::div_mod::lemma_div_multiples_vanish(a, SCALE as int);
}

/// Fixed-point multiplication by a nonnegative factor is monotone.
pub proof fn lemma_mulv_mono(a1: int, a2: int, b: int)
    requires
        0 <= a1 <= a2,
        0 <= b,
    ensures
        mulv(a1, b) <= mulv(a2, b),
{
    lemma_abs_mul(a1, b);
    lemma_abs_mul(a2, b);
    assert(a1 * b <= a2 * b) by (nonlinear_arith)
        requires
            a1 <= a2 && 0 <= b,
    ;
    vstd::arithmetic::div_mod::lemma_div_is_ordered(a1 * b, a2 * b, SCALE as int);
    lemma_mulv_nonneg(a1, b);
}

/// The fixed-point product of values both at least one is at least one.
pub proof fn lemma_mulv_ge_unit(a: int, b: int)
    requires
        SCALE <= a,
        SCALE <= b,
    ensures
        SCALE <= mulv(a, b),
{
    lemma_abs_mul(a, b);
    assert(SCALE * SCALE <= a * b) by (nonlinear_arith)
        requires
            SCALE <= a && SCALE <= b,
    ;
    vstd::arithmetic::div_mod::lemma_div_is_ordered(SCALE * SCALE, a * b, SCALE as int);
    vstd::arithmetic::div_mod::lemma_div_multiples_vanish(SCALE as int, SCALE as int);
}

/// The fixed-point square root of a nonnegative value is its integer square
/// root at the finer scale; it is nonnegative.
pub proof fn lemma_sqrtv_facts(a: int)
    requires
        0 <= a,
    ensures
        is_isqrt(a * SCALE, sqrtv(a)),
        0 <= sqrtv(a),
{
    lemma_isqrt_exists(a * SCALE);
}

/// The fixed-point square root of a value at most one is at most one.
pub proof fn lemma_sqrtv_le_unit(a: int)
    requires
        0 <= a <= SCALE,
    ensures
        0 <= sqrtv(a) <= SCALE,
{
    lemma_sqrtv_facts(a);
    assert(sqrtv(a) <= SCALE) by (nonlinear_arith)
        requires
            is_isqrt(a * SCALE, sqrtv(a)) && 0 <= a <= SCALE,
    ;
}

/// One is the multiplicative unit of fixed-point multiplication.
pub proof fn lemma_mulv_unit(x: int)
    requires
        in_rangev(x),
    ensures
        mulv(SCALE as int, x) == x,
        mulv(x, SCALE as int) == x,
{
    lemma_abs_mul(SCALE as int, x);
    lemma_abs_mul(x, SCALE as int);
    vstd::arithmetic::div_mod::lemma_div_multiples_vanish(iabs(x), SCALE as int);
}

/// Fixed-point multiplication is commutative.
pub proof fn lemma_mulv_comm(a: int, b: int)
    ensures
        mulv(a, b) == mulv(b, a),
{
    assert(a * b == b * a) by (nonlinear_arith);
}

/// Halving keeps the sign and does not increase the magnitude.
pub proof fn lemma_sdiv2_bounds(n: int)
    ensures
        0 <= n ==> 0 <= sdiv(n, 2) <= n,
        n <= 0 ==> n <= sdiv(n, 2) <= 0,
{
    vstd::arithmetic::div_mod::lemma_div_nonincreasing(iabs(n), 2);
    vstd::arithmetic::div_mod::lemma_div_pos_is_pos(iabs(n), 2);
}

fn clamp_i64(x: i64) -> (r: i64)
    ensures
        r as int == clampv(x as int),
        in_rangev(r as int),
{
    if x > FX_MAX {
        FX_MAX
    } else if x < -FX_MAX {
        -FX_MAX
    } else {
        x
    }
}

fn abs_i64(x: i64) -> (r: u64)
    requires
        in_rangev(x as int),
    ensures
        r as int == iabs(x as int),
{
    if x < 0 {
        (-x) as u64
    } else {
        x as u64
    }
}

/// A saturating fixed-point scalar; the raw value `v` denotes `v / SCALE`.
#[derive(Clone, Copy, PartialEq, Eq, Structural, Debug)]
pub struct Fx {
    pub v: i64,
}

impl View for Fx {
    type V = int;

    open spec fn view(&self) -> int {
        self.v as int
    }
}

impl Fx {
    /// The raw value lies in the representable range.
    pub open spec fn bounded(self) -> bool {
        in_rangev(self.v as int)
    }

    pub fn zero() -> (r: Fx)
        ensures
            r@ == 0,
            r.bounded(),
    {
        Fx { v: 0 }
    }

    pub fn one() -> (r: Fx)
        ensures
            r@ == SCALE,
            r.bounded(),
    {
        Fx { v: SCALE }
    }

    /// Builds a scalar from its raw representation.
    pub fn from_raw(v: i64) -> (r: Fx)
        requires
            in_rangev(v as int),
        ensures
            r@ == v,
            r.bounded(),
    {
        Fx { v }
    }

    /// The fixed-point image of a small integer.
    pub fn from_int(i: i64) -> (r: Fx)
        requires
            -0x4000_0000 <= i <= 0x4000_0000,
        ensures
            r@ == i * SCALE,
            r.bounded(),
    {
        Fx { v: i * SCALE }
    }

    /// The nearest-toward-zero fixed-point value of `num / den`.
    pub fn from_ratio(num: i64, den: i64) -> (r: Fx)
        requires
            in_rangev(num as int),
            den > 0,
        ensures
            r@ == divv(num as int, den as int),
            r.bounded(),
    {
        let neg: bool = num < 0;
        let ma: u64 = abs_i64(num);
        let wide: u128 = (ma as u128) * (SCALE as u128);
        let q: u128 = wide / (den as u128);
        let mag: i64 = if q > (FX_MAX as u128) {
            FX_MAX
        } else {
            q as i64
        };
        proof {
            lemma_abs_mul(num as int, SCALE as int);
        }
        if neg {
            Fx { v: -mag }
        } else {
            Fx { v: mag }
        }
    }

    pub fn neg(self) -> (r: Fx)
        requires
            self.bounded(),
        ensures
            r@ == -self@,
            r.bounded(),
    {
        Fx { v: -self.v }
    }

    pub fn add(self, o: Fx) -> (r: Fx)
        requires
            self.bounded(),
            o.bounded(),
        ensures
            r@ == addv(self@, o@),
            r.bounded(),
    {
        let s: i64 = self.v + o.v;
        Fx { v: clamp_i64(s) }
    }

    pub fn sub(self, o: Fx) -> (r: Fx)
        requires
            self.bounded(),
            o.bounded(),
        ensures
            r@ == subv(self@, o@),
            r.bounded(),
    {
        let s: i64 = self.v - o.v;
        Fx { v: clamp_i64(s) }
    }

    pub fn mul(self, o: Fx) -> (r: Fx)
        requires
            self.bounded(),
            o.bounded(),
        ensures
            r@ == mulv(self@, o@),
            r.bounded(),
    {
        let neg: bool = (self.v < 0) != (o.v < 0);
        let ma: u64 = abs_i64(self.v);
        let mb: u64 = abs_i64(o.v);
        proof {
            assert((ma as int) * (mb as int) <= 0x4000_0000_0000 * 0x4000_0000_0000) by (nonlinear_arith)
                requires
                    ma <= 0x4000_0000_0000 && mb <= 0x4000_0000_0000,
            ;
        }
        let prod: u128 = (ma as u128) * (mb as u128);
        let q: u128 = prod / (SCALE as u128);
        let mag: i64 = if q > (FX_MAX as u128) {
            FX_MAX
        } else {
            q as i64
        };
        proof {
            lemma_abs_mul(self@, o@);
        }
        if neg {
            Fx { v: -mag }
        } else {
            Fx { v: mag }
        }
    }

    pub fn div(self, o: Fx) -> (r: Fx)
        requires
            self.bounded(),
            o.bounded(),
            o@ != 0,
        ensures
            r@ == divv(self@, o@),
            r.bounded(),
    {
        let neg: bool = (self.v < 0) != (o.v < 0);
        let ma: u64 = abs_i64(self.v);
        let mb: u64 = abs_i64(o.v);
        proof {
            assert((ma as int) * (SCALE as int) <= 0x4000_0000_0000 * 0x10000) by (nonlinear_arith)
                requires
                    ma <= 0x4000_0000_0000,
            ;
        }
        let num: u128 = (ma as u128) * (SCALE as u128);
        let q: u128 = num / (mb as u128);
        let mag: i64 = if q > (FX_MAX as u128) {
            FX_MAX
        } else {
            q as i64
        };
        proof {
            lemma_abs_mul(self@, SCALE as int);
        }
        if neg {
            Fx { v: -mag }
        } else {
            Fx { v: mag }
        }
    }

    /// Half of the value, rounded toward zero.
    pub fn half(self) -> (r: Fx)
        requires
            self.bounded(),
        ensures
            r@ == sdiv(self@, 2),
            r.bounded(),
    {
        let m: u64 = abs_i64(self.v);
        let h: i64 = (m / 2) as i64;
        if self.v < 0 {
            Fx { v: -h }
        } else {
            Fx { v: h }
        }
    }

    pub fn sqrt(self) -> (r: Fx)
        requires
            self.bounded(),
            self@ >= 0,
        ensures
            r@ == sqrtv(self@),
            0 <= r@ <= 0x8000_0000,
            r.bounded(),
    {
        let n: u64 = (self.v as u64) * (SCALE as u64);
        let s: u64 = isqrt_u64(n);
        proof {
            lemma_isqrt_unique(n as int, s as int);
        }
        Fx { v: s as i64 }
    }

    pub fn min(self, o: Fx) -> (r: Fx)
        ensures
            r@ == if self@ <= o@ {
                self@
            } else {
                o@
            },
    {
        if self.v <= o.v {
            self
        } else {
            o
        }
    }

    pub fn max(self, o: Fx) -> (r: Fx)
        ensures
            r@ == if self@ >= o@ {
                self@
            } else {
                o@
            },
    {
        if self.v >= o.v {
            self
        } else {
            o
        }
    }

    /// The value clamped into the unit interval `[0, 1]`.
    pub fn saturate(self) -> (r: Fx)
        requires
            self.bounded(),
        ensures
            r@ == clamp01v(self@),
            r.bounded(),
    {
        if self.v < 0 {
            Fx { v: 0 }
        } else if self.v > SCALE {
            Fx { v: SCALE }
        } else {
            self
        }
    }
}

} // verus!
