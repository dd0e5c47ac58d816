//! Square root and circular functions on fixed-point scalars.
//!
//! `sqrt` returns the exact integer square root of the scaled radicand.
//! `sin` and `cos` reduce their argument to a quarter turn and evaluate a
//! degree-9/8 polynomial in fixed-point arithmetic; the spec functions in
//! this module state that computation exactly, so two calls on equal
//! arguments are provably equal.

use vstd::arithmetic::div_mod::{lemma_fundamental_div_mod, lemma_mod_bound};
use vstd::prelude::*;

use crate::fixed::{
    div_raw, mul_raw, neg_raw, rdiv, sat, sub_raw, Fix, FIX_MAX, SCALE,
};

verus! {

/// A quarter turn in raw units: `round(pi / 2 * SCALE)`.
pub const HALF_PI_RAW: i64 = 1_570_796_327;

/// Division by a small positive constant, saturating.
pub open spec fn divi_raw(a: int, d: int) -> int {
    sat(rdiv(a, d))
}

/// The integer square root: the largest `r` with `r * r <= n`.
pub open spec fn isqrt(n: nat) -> nat
    decreases n,
{
    if n == 0 {
        0
    } else {
        let r = isqrt((n - 1) as nat);
        if (r + 1) * (r + 1) <= n {
            r + 1
        } else {
            r
        }
    }
}

/// The raw value of the square root of a scaled value: `isqrt(a * SCALE)`.
pub open spec fn sqrt_raw(a: int) -> int {
    isqrt((a * SCALE) as nat) as int
}

/// `isqrt` is bracketed by the two neighbouring squares.
pub proof fn lemma_isqrt_bounds(n: nat)
    ensures
        isqrt(n) * isqrt(n) <= n,
        n < (isqrt(n) + 1) * (isqrt(n) + 1),
    decreases n,
{
    if n == 0 {
        assert(isqrt(n) == 0);
        assert(n < (isqrt(n) + 1) * (isqrt(n) + 1)) by (nonlinear_arith)
            requires
                n == 0,
                isqrt(n) == 0,
        ;
    } else {
        lemma_isqrt_bounds((n - 1) as nat);
        let r = isqrt((n - 1) as nat);
        assert(isqrt(n) == if (r + 1) * (r + 1) <= n {
            r + 1
        } else {
            r
        });
        if (r + 1) * (r + 1) <= n {
            assert(isqrt(n) == r + 1);
            assert(n < (isqrt(n) + 1) * (isqrt(n) + 1)) by (nonlinear_arith)
                requires
                    n - 1 < (r + 1) * (r + 1),
                    isqrt(n) == r + 1,
                    r >= 0,
            ;
        } else {
            assert(isqrt(n) == r);
            assert(n < (isqrt(n) + 1) * (isqrt(n) + 1));
        }
    }
}

/// The bracketing squares pin the integer square root down uniquely.
pub proof fn lemma_isqrt_unique(n: nat, r: nat)
    requires
        r * r <= n,
        n < (r + 1) * (r + 1),
    ensures
        r == isqrt(n),
{
    lemma_isqrt_bounds(n);
    assert(r == isqrt(n)) by (nonlinear_arith)
        requires
            r * r <= n < (r + 1) * (r + 1),
            isqrt(n) * isqrt(n) <= n < (isqrt(n) + 1) * (isqrt(n) + 1),
            r >= 0,
            isqrt(n) >= 0,
    ;
}

/// The sine polynomial on a reduced argument:
/// `y - y^3/6 + y^5/120 - y^7/5040 + y^9/362880`, evaluated inside out.
pub open spec fn poly_sin(y: int) -> int {
    let u = mul_raw(y, y);
    let t4 = sub_raw(SCALE as int, divi_raw(u, 72));
    let t3 = sub_raw(SCALE as int, divi_raw(mul_raw(u, t4), 42));
    let t2 = sub_raw(SCALE as int, divi_raw(mul_raw(u, t3), 20));
    let t1 = sub_raw(SCALE as int, divi_raw(mul_raw(u, t2), 6));
    mul_raw(y, t1)
}

/// The cosine polynomial on a reduced argument:
/// `1 - y^2/2 + y^4/24 - y^6/720 + y^8/40320`, evaluated inside out.
pub open spec fn poly_cos(y: int) -> int {
    let u = mul_raw(y, y);
    let c4 = sub_raw(SCALE as int, divi_raw(u, 56));
    let c3 = sub_raw(SCALE as int, divi_raw(mul_raw(u, c4), 30));
    let c2 = sub_raw(SCALE as int, divi_raw(mul_raw(u, c3), 12));
    sub_raw(SCALE as int, divi_raw(mul_raw(u, c2), 2))
}

/// The nearest quarter-turn count of a nonnegative raw angle.
pub open spec fn quarter_turns(x: int) -> int {
    sat(rdiv(x, HALF_PI_RAW as int))
}

/// What remains of a nonnegative raw angle after removing its quarter turns.
pub open spec fn reduced_angle(x: int) -> int {
    x - quarter_turns(x) * HALF_PI_RAW
}

/// Sine of a nonnegative raw angle, by quadrant.
pub open spec fn sin_pos(x: int) -> int {
    let q = quarter_turns(x) % 4;
    let y = reduced_angle(x);
    if q == 0 {
        poly_sin(y)
    } else if q == 1 {
        poly_cos(y)
    } else if q == 2 {
        neg_raw(poly_sin(y))
    } else {
        neg_raw(poly_cos(y))
    }
}

/// Cosine of a nonnegative raw angle, by quadrant.
pub open spec fn cos_pos(x: int) -> int {
    let q = quarter_turns(x) % 4;
    let y = reduced_angle(x);
    if q == 0 {
        poly_cos(y)
    } else if q == 1 {
        neg_raw(poly_sin(y))
    } else if q == 2 {
        neg_raw(poly_cos(y))
    } else {
        poly_sin(y)
    }
}

/// Sine of any raw angle: odd extension of `sin_pos`.
pub open spec fn sin_raw(x: int) -> int {
    if x >= 0 {
        sin_pos(x)
    } else {
        neg_raw(sin_pos(sat(-x)))
    }
}

/// Cosine of any raw angle: even extension of `cos_pos`.
pub open spec fn cos_raw(x: int) -> int {
    if x >= 0 {
        cos_pos(x)
    } else {
        cos_pos(sat(-x))
    }
}

/// Tangent: sine over cosine, saturated where the cosine vanishes.
pub open spec fn tan_raw(x: int) -> int {
    if cos_raw(x) == 0 {
        if sin_raw(x) >= 0 {
            FIX_MAX as int
        } else {
            -(FIX_MAX as int)
        }
    } else {
        div_raw(sin_raw(x), cos_raw(x))
    }
}

impl Fix {
    /// Square root: the largest representable value whose square does not
    /// exceed the argument.
    pub fn sqrt(self) -> (r: Fix)
        requires
            self@ >= 0,
        ensures
            r@ == sqrt_raw(self@),
            r@ >= 0,
    {
        let n: u128 = (self.raw as u128) * (SCALE as u128);
        let mut lo: u128 = 0;
        let mut hi: u128 = 0x1_0000_0000_0000_0000;
        proof {
            assert((n as int) < 0x1_0000_0000_0000_0000 * 0x1_0000_0000_0000_0000)
                by (nonlinear_arith)
                requires
                    n <= 0x7fff_ffff_ffff_ffff * 0x3b9a_ca00,
            ;
        }
        while lo + 1 < hi
            invariant
                lo < hi <= 0x1_0000_0000_0000_0000,
                lo * lo <= n as int,
                (n as int) < hi * hi,
            decreases hi - lo,
        {
            let mid: u128 = lo + (hi - lo) / 2;
            proof {
                assert(mid * mid < 0x1_0000_0000_0000_0000 * 0x1_0000_0000_0000_0000)
                    by (nonlinear_arith)
                    requires
                        mid < 0x1_0000_0000_0000_0000,
                ;
            }
            if mid * mid <= n {
                lo = mid;
            } else {
                hi = mid;
            }
        }
        proof {
            assert(lo < 0x8000_0000_0000_0000) by (nonlinear_arith)
                requires
                    lo * lo <= n,
                    n <= 0x7fff_ffff_ffff_ffff * 0x3b9a_ca00,
            ;
            lemma_isqrt_unique((self.raw as int * SCALE as int) as nat, lo as nat);
        }
        Fix { raw: lo as i64 }
    }

    /// Divide by a small positive whole number, rounding to the nearest unit.
    pub fn div_by(self, d: i64) -> (r: Fix)
        requires
            0 < d,
        ensures
            r@ == divi_raw(self@, d as int),
    {
        Fix { raw: crate::fixed::rdiv_sat(self.raw as i128, d as i128) }
    }

    /// Sine of an angle in radians.
    pub fn sin(self) -> (r: Fix)
        ensures
            r@ == sin_raw(self@),
    {
        if self.raw >= 0 {
            sin_of_nonneg(self)
        } else {
            sin_of_nonneg(self.neg()).neg()
        }
    }

    /// Cosine of an angle in radians.
    pub fn cos(self) -> (r: Fix)
        ensures
            r@ == cos_raw(self@),
    {
        if self.raw >= 0 {
            cos_of_nonneg(self)
        } else {
            cos_of_nonneg(self.neg())
        }
    }

    /// Tangent of an angle in radians, saturated at a vanishing cosine.
    pub fn tan(self) -> (r: Fix)
        ensures
            r@ == tan_raw(self@),
    {
        let s = self.sin();
        let c = self.cos();
        if c.raw == 0 {
            if s.raw >= 0 {
                Fix { raw: FIX_MAX }
            } else {
                Fix { raw: -FIX_MAX }
            }
        } else {
            s.div(c)
        }
    }
}

/// The quarter-turn count and remainder of a nonnegative angle.
fn reduce(x: Fix) -> (r: (u64, Fix))
    requires
        x@ >= 0,
    ensures
        r.0 as int == quarter_turns(x@) % 4,
        r.1@ == reduced_angle(x@),
{
    proof {
        lemma_fundamental_div_mod(x@ + HALF_PI_RAW / 2, HALF_PI_RAW as int);
        lemma_mod_bound(x@ + HALF_PI_RAW / 2, HALF_PI_RAW as int);
    }
    let k: i64 = crate::fixed::rdiv_sat(x.raw as i128, HALF_PI_RAW as i128);
    let y: i128 = (x.raw as i128) - (k as i128) * (HALF_PI_RAW as i128);
    ((k as u64) % 4, Fix { raw: y as i64 })
}

/// Sine on nonnegative angles, by quadrant.
fn sin_of_nonneg(x: Fix) -> (r: Fix)
    requires
        x@ >= 0,
    ensures
        r@ == sin_pos(x@),
{
    let (q, y) = reduce(x);
    if q == 0 {
        poly_sin_at(y)
    } else if q == 1 {
        poly_cos_at(y)
    } else if q == 2 {
        poly_sin_at(y).neg()
    } else {
        poly_cos_at(y).neg()
    }
}

/// Cosine on nonnegative angles, by quadrant.
fn cos_of_nonneg(x: Fix) -> (r: Fix)
    requires
        x@ >= 0,
    ensures
        r@ == cos_pos(x@),
{
    let (q, y) = reduce(x);
    if q == 0 {
        poly_cos_at(y)
    } else if q == 1 {
        poly_sin_at(y).neg()
    } else if q == 2 {
        poly_cos_at(y).neg()
    } else {
        poly_sin_at(y)
    }
}

/// Evaluate the sine polynomial.
fn poly_sin_at(y: Fix) -> (r: Fix)
    ensures
        r@ == poly_sin(y@),
{
    let u = y.mul(y);
    let one = Fix::one();
    let t4 = one.sub(u.div_by(72));
    let t3 = one.sub(u.mul(t4).div_by(42));
    let t2 = one.sub(u.mul(t3).div_by(20));
    let t1 = one.sub(u.mul(t2).div_by(6));
    y.mul(t1)
}

/// Evaluate the cosine polynomial.
fn poly_cos_at(y: Fix) -> (r: Fix)
    ensures
        r@ == poly_cos(y@),
{
    let u = y.mul(y);
    let one = Fix::one();
    let c4 = one.sub(u.div_by(56));
    let c3 = one.sub(u.mul(c4).div_by(30));
    let c2 = one.sub(u.mul(c3).div_by(12));
    one.sub(u.mul(c2).div_by(2))
}

} // verus!
