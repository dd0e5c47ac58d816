//! Fixed-point scalars.
//!
//! A [`Fix`] stores a signed count of billionths: the real number `x` is
//! represented by the integer `round(x * 1_000_000_000)`. Every operation
//! rounds to the nearest representable value (ties away from zero) and
//! saturates at `FIX_MAX` units in either direction, so all operations are
//! total and their results are pinned down exactly by the spec functions
//! in this module.

use vstd::prelude::*;

verus! {

/// Raw units per 1.0: one billion.
pub const SCALE: i64 = 1_000_000_000;

/// Largest raw magnitude a `Fix` can carry; results saturate here.
pub const FIX_MAX: i64 = 9_223_372_036_854_775_807;

/// Raw tolerance used by every fuzzy comparison: 1e-5.
pub const EPSILON_RAW: i64 = 10_000;

/// Clamp a mathematical result into the representable range.
pub open spec fn sat(x: int) -> int {
    if x > FIX_MAX as int {
        FIX_MAX as int
    } else if x < -(FIX_MAX as int) {
        -(FIX_MAX as int)
    } else {
        x
    }
}

/// Division rounded to the nearest integer, ties away from zero.
/// Unspecified when `q == 0` (never applied there).
pub open spec fn rdiv(p: int, q: int) -> int {
    let pm = if p >= 0 { p } else { -p };
    let qm = if q >= 0 { q } else { -q };
    let m = (pm + qm / 2) / qm;
    if (p >= 0) == (q >= 0) {
        m
    } else {
        -m
    }
}

/// Raw-level addition.
pub open spec fn add_raw(a: int, b: int) -> int {
    sat(a + b)
}

/// Raw-level subtraction.
pub open spec fn sub_raw(a: int, b: int) -> int {
    sat(a - b)
}

/// Raw-level negation.
pub open spec fn neg_raw(a: int) -> int {
    sat(-a)
}

/// Raw-level multiplication: the product of two scaled values, rescaled.
pub open spec fn mul_raw(a: int, b: int) -> int {
    sat(rdiv(a * b, SCALE as int))
}

/// Raw-level division: the quotient of two scaled values, rescaled.
/// Unspecified when `b == 0` (callers must rule that out).
pub open spec fn div_raw(a: int, b: int) -> int {
    sat(rdiv(a * SCALE, b))
}

/// The `Fix` holding a raw value already known to be in range.
pub open spec fn fixv(x: int) -> Fix {
    Fix { raw: x as i64 }
}

/// A saturated value lies in the representable range.
pub proof fn lemma_sat_range(x: int)
    ensures
        -(FIX_MAX as int) <= sat(x) <= FIX_MAX as int,
        fixv(sat(x))@ == sat(x),
{
}

/// Rounded division of nonnegatives is nonnegative.
pub proof fn lemma_rdiv_nonneg(p: int, q: int)
    requires
        p >= 0,
        q > 0,
    ensures
        rdiv(p, q) >= 0,
{
    assert((p + q / 2) / q >= 0) by (nonlinear_arith)
        requires
            p >= 0,
            q > 0,
    ;
}

/// A product of nonnegatives rescales to a nonnegative.
pub proof fn lemma_mul_raw_nonneg(a: int, b: int)
    requires
        a >= 0,
        b >= 0,
    ensures
        mul_raw(a, b) >= 0,
{
    assert(a * b >= 0) by (nonlinear_arith)
        requires
            a >= 0,
            b >= 0,
    ;
    lemma_rdiv_nonneg(a * b, SCALE as int);
}

/// Bound on a product from bounds on its factors.
pub proof fn lemma_mul_bound(a: int, b: int, am: int, bm: int)
    by (nonlinear_arith)
    requires
        -am <= a <= am,
        -bm <= b <= bm,
        0 <= am,
        0 <= bm,
    ensures
        -(am * bm) <= a * b <= am * bm,
{
}

/// A fixed-point scalar: `raw` billionths.
#[derive(Clone, Copy, Debug, PartialEq, Eq, Structural)]
pub struct Fix {
    pub raw: i64,
}

impl View for Fix {
    type V = int;

    open spec fn view(&self) -> int {
        self.raw as int
    }
}

impl Fix {
    /// Wrap a raw count of billionths, saturating the one unrepresentable
    /// value `i64::MIN` to `-FIX_MAX`.
    pub fn from_raw(raw: i64) -> (r: Fix)
        ensures
            r@ == sat(raw as int),
    {
        if raw == -9_223_372_036_854_775_808i64 {
            Fix { raw: -FIX_MAX }
        } else {
            Fix { raw }
        }
    }

    /// The raw count of billionths.
    pub fn raw(self) -> (r: i64)
        ensures
            r as int == self@,
    {
        self.raw
    }

    /// Zero.
    pub fn zero() -> (r: Fix)
        ensures
            r@ == 0,
    {
        Fix { raw: 0 }
    }

    /// One, i.e. `SCALE` raw units.
    pub fn one() -> (r: Fix)
        ensures
            r@ == SCALE as int,
    {
        Fix { raw: SCALE }
    }

    /// A whole number of units, saturating.
    pub fn from_units(n: i64) -> (r: Fix)
        ensures
            r@ == sat(n * SCALE),
    {
        proof {
            lemma_mul_bound(n as int, SCALE as int, 0x8000_0000_0000_0000, SCALE as int);
        }
        let wide: i128 = (n as i128) * (SCALE as i128);
        Fix { raw: clamp_i128(wide) }
    }

    /// A whole (unsigned) number of units, saturating.
    pub fn from_units_u64(n: u64) -> (r: Fix)
        ensures
            r@ == sat(n * SCALE),
    {
        proof {
            lemma_mul_bound(n as int, SCALE as int, 0x1_0000_0000_0000_0000, SCALE as int);
        }
        let wide: i128 = (n as i128) * (SCALE as i128);
        Fix { raw: clamp_i128(wide) }
    }

    /// Saturating addition.
    pub fn add(self, rhs: Fix) -> (r: Fix)
        ensures
            r@ == add_raw(self@, rhs@),
    {
        let wide: i128 = (self.raw as i128) + (rhs.raw as i128);
        Fix { raw: clamp_i128(wide) }
    }

    /// Saturating subtraction.
    pub fn sub(self, rhs: Fix) -> (r: Fix)
        ensures
            r@ == sub_raw(self@, rhs@),
    {
        let wide: i128 = (self.raw as i128) - (rhs.raw as i128);
        Fix { raw: clamp_i128(wide) }
    }

    /// Saturating negation.
    pub fn neg(self) -> (r: Fix)
        ensures
            r@ == neg_raw(self@),
    {
        let wide: i128 = -(self.raw as i128);
        Fix { raw: clamp_i128(wide) }
    }
}

impl Fix {
    /// Saturating multiplication, rounded to the nearest unit.
    pub fn mul(self, rhs: Fix) -> (r: Fix)
        ensures
            r@ == mul_raw(self@, rhs@),
    {
        proof {
            lemma_mul_bound(
                self.raw as int,
                rhs.raw as int,
                0x8000_0000_0000_0000,
                0x8000_0000_0000_0000,
            );
        }
        let p: i128 = (self.raw as i128) * (rhs.raw as i128);
        Fix { raw: rdiv_sat(p, SCALE as i128) }
    }

    /// Saturating division, rounded to the nearest unit.
    pub fn div(self, rhs: Fix) -> (r: Fix)
        requires
            rhs@ != 0,
        ensures
            r@ == div_raw(self@, rhs@),
    {
        proof {
            lemma_mul_bound(self.raw as int, SCALE as int, 0x8000_0000_0000_0000, SCALE as int);
        }
        let p: i128 = (self.raw as i128) * (SCALE as i128);
        let q: i128 = rhs.raw as i128;
        if q >= 0 {
            Fix { raw: rdiv_sat(p, q) }
        } else {
            proof {
                lemma_rdiv_negate(p as int, q as int);
            }
            Fix { raw: rdiv_sat(-p, -q) }
        }
    }

    /// Saturating absolute value.
    pub fn abs(self) -> (r: Fix)
        ensures
            r@ == sat(if self@ >= 0 { self@ } else { -self@ }),
    {
        if self.raw >= 0 {
            self
        } else {
            self.neg()
        }
    }

    /// Strictly less.
    pub fn lt(self, rhs: Fix) -> (r: bool)
        ensures
            r == (self@ < rhs@),
    {
        self.raw < rhs.raw
    }

    /// Less or equal.
    pub fn le(self, rhs: Fix) -> (r: bool)
        ensures
            r == (self@ <= rhs@),
    {
        self.raw <= rhs.raw
    }

    /// Strictly greater.
    pub fn gt(self, rhs: Fix) -> (r: bool)
        ensures
            r == (self@ > rhs@),
    {
        self.raw > rhs.raw
    }

    /// Greater or equal.
    pub fn ge(self, rhs: Fix) -> (r: bool)
        ensures
            r == (self@ >= rhs@),
    {
        self.raw >= rhs.raw
    }

    /// Clamp into `[lower, upper]`, as the corresponding float method does.
    pub fn clamp(self, lower: Fix, upper: Fix) -> (r: Fix)
        requires
            lower@ <= upper@,
        ensures
            r@ == clamp_raw(self@, lower@, upper@),
    {
        if self.raw < lower.raw {
            lower
        } else if self.raw > upper.raw {
            upper
        } else {
            self
        }
    }

    /// Round to the nearest whole number of units, ties away from zero.
    pub fn round_units(self) -> (r: i64)
        ensures
            r as int == rdiv(self@, SCALE as int),
    {
        rdiv_sat(self.raw as i128, SCALE as i128)
    }

    /// The largest whole number of units at most `self`.
    pub fn floor_units(self) -> (r: i64)
        requires
            self@ >= 0,
        ensures
            r as int == self@ / (SCALE as int),
    {
        (self.raw as u64 / SCALE as u64) as i64
    }

    /// Raise to a whole-number power; `pow_raw` names the exact result.
    pub fn powi(self, n: u64) -> (r: Fix)
        ensures
            r@ == pow_raw(self@, n as nat),
    {
        let mut acc: Fix = Fix::one();
        let mut i: u64 = 0;
        while i < n
            invariant
                i <= n,
                acc@ == pow_raw(self@, i as nat),
            decreases n - i,
        {
            acc = acc.mul(self);
            i = i + 1;
        }
        acc
    }
}

/// Clamp a raw value into `[lower, upper]`.
pub open spec fn clamp_raw(x: int, lower: int, upper: int) -> int {
    if x < lower {
        lower
    } else if x > upper {
        upper
    } else {
        x
    }
}

/// Repeated saturating multiplication: `pow_raw(b, n)` is `b` to the `n`th.
pub open spec fn pow_raw(b: int, n: nat) -> int
    decreases n,
{
    if n == 0 {
        SCALE as int
    } else {
        mul_raw(pow_raw(b, (n - 1) as nat), b)
    }
}

/// Rounded division is unchanged when both operands are negated.
proof fn lemma_rdiv_negate(p: int, q: int)
    requires
        q != 0,
    ensures
        rdiv(p, q) == rdiv(-p, -q),
{
    if p == 0 {
        let qm = if q >= 0 { q } else { -q };
        assert((qm / 2) / qm == 0) by (nonlinear_arith)
            requires
                qm > 0,
        ;
    }
}

/// Divide `p` by positive `q`, round to nearest (ties away from zero),
/// and saturate into the `Fix` range.
pub(crate) fn rdiv_sat(p: i128, q: i128) -> (r: i64)
    requires
        0 < q <= 0x8000_0000_0000_0000,
        -0x4000_0000_0000_0000_0000_0000_0000_0000 <= p
            <= 0x4000_0000_0000_0000_0000_0000_0000_0000,
    ensures
        r as int == sat(rdiv(p as int, q as int)),
{
    let pm: u128 = if p >= 0 {
        p as u128
    } else {
        (-p) as u128
    };
    let qm: u128 = q as u128;
    let m: u128 = (pm + qm / 2) / qm;
    let ms: i64 = if m > FIX_MAX as u128 {
        FIX_MAX
    } else {
        m as i64
    };
    if p >= 0 {
        ms
    } else {
        -ms
    }
}

/// Clamp a wide intermediate into the `Fix` range.
fn clamp_i128(wide: i128) -> (r: i64)
    ensures
        r as int == sat(wide as int),
{
    if wide > FIX_MAX as i128 {
        FIX_MAX
    } else if wide < -(FIX_MAX as i128) {
        -FIX_MAX
    } else {
        wide as i64
    }
}

} // verus!
