//! Direction vectors.
//!
//! A [`Vector`] is the direction half of the homogeneous tuple algebra: a
//! 4-component tuple whose fourth component is always 0, stored as its three
//! free components. Its view is the [`Vec3`] of raw component values.

use vstd::prelude::*;

use crate::fixed::{
    add_raw, div_raw, mul_raw, neg_raw, sub_raw, Fix, SCALE,
};
use crate::trig::sqrt_raw;
use crate::utils::{fuzzy_raw, FuzzyEq};

verus! {

/// The mathematical value of a three-component tuple: raw units per axis.
pub ghost struct Vec3 {
    pub x: int,
    pub y: int,
    pub z: int,
}

/// Sum of componentwise products (the `w` components are both 0 and drop out).
pub open spec fn dot3(a: Vec3, b: Vec3) -> int {
    add_raw(add_raw(mul_raw(a.x, b.x), mul_raw(a.y, b.y)), mul_raw(a.z, b.z))
}

/// The cross product of the direction parts.
pub open spec fn cross3(a: Vec3, b: Vec3) -> Vec3 {
    Vec3 {
        x: sub_raw(mul_raw(a.y, b.z), mul_raw(a.z, b.y)),
        y: sub_raw(mul_raw(a.z, b.x), mul_raw(a.x, b.z)),
        z: sub_raw(mul_raw(a.x, b.y), mul_raw(a.y, b.x)),
    }
}

/// Componentwise sum.
pub open spec fn add3(a: Vec3, b: Vec3) -> Vec3 {
    Vec3 { x: add_raw(a.x, b.x), y: add_raw(a.y, b.y), z: add_raw(a.z, b.z) }
}

/// Componentwise difference.
pub open spec fn sub3(a: Vec3, b: Vec3) -> Vec3 {
    Vec3 { x: sub_raw(a.x, b.x), y: sub_raw(a.y, b.y), z: sub_raw(a.z, b.z) }
}

/// Componentwise negation.
pub open spec fn neg3(a: Vec3) -> Vec3 {
    Vec3 { x: neg_raw(a.x), y: neg_raw(a.y), z: neg_raw(a.z) }
}

/// Every component scaled by `s`.
pub open spec fn scale3(a: Vec3, s: int) -> Vec3 {
    Vec3 { x: mul_raw(a.x, s), y: mul_raw(a.y, s), z: mul_raw(a.z, s) }
}

/// Every component divided by `s` (`s != 0`).
pub open spec fn div3(a: Vec3, s: int) -> Vec3 {
    Vec3 { x: div_raw(a.x, s), y: div_raw(a.y, s), z: div_raw(a.z, s) }
}

/// The length of a vector: the square root of its self-dot.
pub open spec fn magnitude3(a: Vec3) -> int {
    sqrt_raw(dot3(a, a))
}

/// The unit vector in the direction of `a`; the zero vector stays zero
/// (the documented behaviour of normalizing a degenerate vector).
pub open spec fn normalize3(a: Vec3) -> Vec3 {
    let m = magnitude3(a);
    if m == 0 {
        Vec3 { x: 0, y: 0, z: 0 }
    } else {
        div3(a, m)
    }
}

/// `v - n * 2 * dot(v, n)`: `v` mirrored about the plane with normal `n`.
pub open spec fn reflect3(v: Vec3, n: Vec3) -> Vec3 {
    sub3(v, scale3(n, mul_raw(2 * crate::fixed::SCALE as int, dot3(v, n))))
}

/// All three components agree within tolerance.
pub open spec fn fuzzy3(a: Vec3, b: Vec3) -> bool {
    fuzzy_raw(a.x, b.x) && fuzzy_raw(a.y, b.y) && fuzzy_raw(a.z, b.z)
}

/// A direction in space; the homogeneous `w` component is fixed at 0.
#[derive(Clone, Copy, Debug, PartialEq, Eq, Structural)]
pub struct Vector {
    pub x: Fix,
    pub y: Fix,
    pub z: Fix,
}

impl View for Vector {
    type V = Vec3;

    open spec fn view(&self) -> Vec3 {
        Vec3 { x: self.x@, y: self.y@, z: self.z@ }
    }
}

impl Vector {
    /// The vector with the given components.
    pub fn new(x: Fix, y: Fix, z: Fix) -> (r: Vector)
        ensures
            r@ == (Vec3 { x: x@, y: y@, z: z@ }),
    {
        Vector { x, y, z }
    }

    /// The zero vector.
    pub fn zero() -> (r: Vector)
        ensures
            r@ == (Vec3 { x: 0, y: 0, z: 0 }),
    {
        Vector { x: Fix::zero(), y: Fix::zero(), z: Fix::zero() }
    }

    /// Dot product over all four tuple components; both `w` terms are 0.
    pub fn dot(&self, other: &Vector) -> (r: Fix)
        ensures
            r@ == dot3(self@, other@),
    {
        self.x.mul(other.x).add(self.y.mul(other.y)).add(self.z.mul(other.z))
    }

    /// Cross product of the direction parts.
    pub fn cross(&self, other: &Vector) -> (r: Vector)
        ensures
            r@ == cross3(self@, other@),
    {
        Vector {
            x: self.y.mul(other.z).sub(self.z.mul(other.y)),
            y: self.z.mul(other.x).sub(self.x.mul(other.z)),
            z: self.x.mul(other.y).sub(self.y.mul(other.x)),
        }
    }

    /// Componentwise sum.
    pub fn add(self, rhs: Vector) -> (r: Vector)
        ensures
            r@ == add3(self@, rhs@),
    {
        Vector { x: self.x.add(rhs.x), y: self.y.add(rhs.y), z: self.z.add(rhs.z) }
    }

    /// Componentwise difference.
    pub fn sub(self, rhs: Vector) -> (r: Vector)
        ensures
            r@ == sub3(self@, rhs@),
    {
        Vector { x: self.x.sub(rhs.x), y: self.y.sub(rhs.y), z: self.z.sub(rhs.z) }
    }

    /// Componentwise negation.
    pub fn neg(self) -> (r: Vector)
        ensures
            r@ == neg3(self@),
    {
        Vector { x: self.x.neg(), y: self.y.neg(), z: self.z.neg() }
    }

    /// Every component scaled by `s`.
    pub fn scale(self, s: Fix) -> (r: Vector)
        ensures
            r@ == scale3(self@, s@),
    {
        Vector { x: self.x.mul(s), y: self.y.mul(s), z: self.z.mul(s) }
    }

    /// Every component divided by `s`.
    pub fn div_scale(self, s: Fix) -> (r: Vector)
        requires
            s@ != 0,
        ensures
            r@ == div3(self@, s@),
    {
        Vector { x: self.x.div(s), y: self.y.div(s), z: self.z.div(s) }
    }

    /// The vector's length.
    pub fn magnitude(&self) -> (r: Fix)
        ensures
            r@ == magnitude3(self@),
            r@ >= 0,
    {
        let d = self.dot(self);
        proof {
            lemma_dot_self_nonneg(self@);
        }
        d.sqrt()
    }

    /// The unit vector in this direction; the zero vector stays zero.
    pub fn normalize(&self) -> (r: Vector)
        ensures
            r@ == normalize3(self@),
    {
        let m = self.magnitude();
        if m.raw == 0 {
            Vector::zero()
        } else {
            Vector { x: self.x.div(m), y: self.y.div(m), z: self.z.div(m) }
        }
    }

    /// This vector mirrored about the plane with unit normal `normal`.
    pub fn reflect(&self, normal: Vector) -> (r: Vector)
        ensures
            r@ == reflect3(self@, normal@),
    {
        let two = Fix::from_units(2);
        self.sub(normal.scale(two.mul(self.dot(&normal))))
    }
}

impl FuzzyEq for Vector {
    open spec fn fuzzy_spec(&self, other: Self) -> bool {
        fuzzy3(self@, other@)
    }

    fn fuzzy_eq(&self, other: Self) -> (r: bool) {
        self.x.fuzzy_eq(other.x) && self.y.fuzzy_eq(other.y) && self.z.fuzzy_eq(other.z)
    }

    fn fuzzy_ne(&self, other: Self) -> (r: bool) {
        !self.fuzzy_eq(other)
    }
}

/// Rounded division lands within one divisor of the true quotient:
/// `q * rdiv(p, q)` sits within `q` of `p`.
pub proof fn lemma_rdiv_close(p: int, q: int)
    requires
        q > 0,
    ensures
        -q <= q * crate::fixed::rdiv(p, q) - p <= q,
{
    let pm = if p >= 0 {
        p
    } else {
        -p
    };
    let k = (pm + q / 2) / q;
    vstd::arithmetic::div_mod::lemma_fundamental_div_mod(pm + q / 2, q);
    vstd::arithmetic::div_mod::lemma_mod_bound(pm + q / 2, q);
    assert(q * k - pm == q / 2 - ((pm + q / 2) % q));
    if p >= 0 {
    } else {
        assert(q * (-k) - p == -(q * k - pm)) by (nonlinear_arith)
            requires
                pm == -p,
        ;
    }
}

/// Squaring a component of at most ten thousand units stays within one
/// raw unit of the rescaled true square, far from saturation.
proof fn lemma_square_close(x: int)
    requires
        -10_000_000_000_000 <= x <= 10_000_000_000_000,
    ensures
        0 <= mul_raw(x, x) <= 100_000_000_000_000_001,
        -(SCALE as int) <= (SCALE as int) * mul_raw(x, x) - x * x <= SCALE as int,
{
    let s = SCALE as int;
    assert(0 <= x * x <= 100_000_000_000_000_000_000_000_000) by (nonlinear_arith)
        requires
            -10_000_000_000_000 <= x <= 10_000_000_000_000,
    ;
    lemma_rdiv_close(x * x, s);
    crate::fixed::lemma_rdiv_nonneg(x * x, s);
    assert(s * crate::fixed::rdiv(x * x, s) <= x * x + s);
    assert(crate::fixed::rdiv(x * x, s) <= 100_000_000_000_000_001) by (nonlinear_arith)
        requires
            s == 1_000_000_000,
            s * crate::fixed::rdiv(x * x, s) <= x * x + s,
            x * x <= 100_000_000_000_000_000_000_000_000,
    ;
}

/// The self-dot of a vector with components of at most ten thousand units
/// stays within three raw units of the rescaled true sum of squares.
proof fn lemma_dot_self_close(v: Vec3)
    requires
        -10_000_000_000_000 <= v.x <= 10_000_000_000_000,
        -10_000_000_000_000 <= v.y <= 10_000_000_000_000,
        -10_000_000_000_000 <= v.z <= 10_000_000_000_000,
    ensures
        0 <= dot3(v, v) <= 300_000_000_000_000_003,
        -3 * (SCALE as int) <= (SCALE as int) * dot3(v, v) - (v.x * v.x + v.y * v.y + v.z * v.z),
        (SCALE as int) * dot3(v, v) - (v.x * v.x + v.y * v.y + v.z * v.z) <= 3 * (SCALE as int),
{
    lemma_square_close(v.x);
    lemma_square_close(v.y);
    lemma_square_close(v.z);
}

/// Law: normalizing scales a vector to magnitude 1 within tolerance.
/// This holds for every vector whose components are at most ten thousand
/// units and whose magnitude is at least 0.03 units; below that, the
/// rounding error of the fixed-point self-dot can swamp the tolerance.
pub proof fn lemma_normalize_magnitude(v: Vec3)
    requires
        30_000_000 <= magnitude3(v),
        -10_000_000_000_000 <= v.x <= 10_000_000_000_000,
        -10_000_000_000_000 <= v.y <= 10_000_000_000_000,
        -10_000_000_000_000 <= v.z <= 10_000_000_000_000,
    ensures
        crate::utils::fuzzy_raw(magnitude3(normalize3(v)), SCALE as int),
{
    let s = SCALE as int;
    let d = dot3(v, v);
    let q = v.x * v.x + v.y * v.y + v.z * v.z;
    lemma_dot_self_close(v);
    let m = magnitude3(v);
    crate::trig::lemma_isqrt_bounds((d * s) as nat);
    assert(m == isqrt_int(d * s));
    assert(m * m <= d * s < (m + 1) * (m + 1));
    assert(d * s - m * m <= 2 * m) by (nonlinear_arith)
        requires
            d * s < (m + 1) * (m + 1),
            m >= 0,
    ;
    assert(d * s <= 300_000_000_000_000_003_000_000_000);
    assert(m <= 20_000_000_000_000) by (nonlinear_arith)
        requires
            m * m <= 300_000_000_000_000_003_000_000_000,
            m >= 0,
    ;
    // Each component is at most a little past the magnitude.
    assert(q <= m * m + 2 * m + 3 * s);
    assert(v.x * v.x <= q && v.y * v.y <= q && v.z * v.z <= q) by (nonlinear_arith)
        requires
            q == v.x * v.x + v.y * v.y + v.z * v.z,
    ;
    lemma_component_bound(v.x, q, m, s);
    lemma_component_bound(v.y, q, m, s);
    lemma_component_bound(v.z, q, m, s);
    // The normalized components carry a rounding error of at most one
    // part in the magnitude, and stay far from saturation.
    let n = normalize3(v);
    lemma_normalized_component(v.x, m, s);
    lemma_normalized_component(v.y, m, s);
    lemma_normalized_component(v.z, m, s);
    assert(n.x == crate::fixed::rdiv(v.x * s, m));
    assert(n.y == crate::fixed::rdiv(v.y * s, m));
    assert(n.z == crate::fixed::rdiv(v.z * s, m));
    let qn = n.x * n.x + n.y * n.y + n.z * n.z;
    lemma_scaled_square(v.x, n.x, m, s);
    lemma_scaled_square(v.y, n.y, m, s);
    lemma_scaled_square(v.z, n.z, m, s);
    lemma_distribute3(m * m, n.x * n.x, n.y * n.y, n.z * n.z);
    lemma_distribute3(s * s, v.x * v.x, v.y * v.y, v.z * v.z);
    assert(-(3 * (2 * s * m * (m + 3 * s) + m * m)) <= m * m * qn - s * s * q <= 3 * (2 * s * m * (
    m + 3 * s) + m * m));
    let dn = dot3(n, n);
    lemma_dot_self_close(n);
    // Put the pieces together: the rescaled self-dot of the normalized
    // vector sits within a small window of one squared unit.
    assert(-8_600_000_000_000 <= s * dn - s * s <= 8_600_000_000_000) by (nonlinear_arith)
        requires
            s == 1_000_000_000,
            m >= 30_000_000,
            m <= 20_000_000_000_000,
            -3 * s <= s * dn - qn <= 3 * s,
            -(3 * (2 * s * m * (m + 3 * s) + m * m)) <= m * m * qn - s * s * q <= 3 * (2 * s * m
                * (m + 3 * s) + m * m),
            -3 * s <= s * d - q <= 3 * s,
            0 <= d * s - m * m <= 2 * m,
            d * s == s * d,
    ;
    // And so its square root sits within tolerance of one unit.
    crate::trig::lemma_isqrt_bounds((dn * s) as nat);
    let mag = magnitude3(n);
    assert(mag == isqrt_int(dn * s));
    assert(mag * mag <= dn * s < (mag + 1) * (mag + 1));
    assert(s - 10_000 < mag < s + 10_000) by (nonlinear_arith)
        requires
            s == 1_000_000_000,
            -8_600_000_000_000 <= s * dn - s * s <= 8_600_000_000_000,
            dn * s == s * dn,
            mag * mag <= dn * s < (mag + 1) * (mag + 1),
            mag >= 0,
    ;
}

/// Multiplication distributes over a three-term sum.
proof fn lemma_distribute3(c: int, x: int, y: int, z: int)
    by (nonlinear_arith)
    ensures
        c * (x + y + z) == c * x + c * y + c * z,
{
}

/// The integer square root as an `int`, for stating bracket facts.
pub open spec fn isqrt_int(n: int) -> int {
    crate::trig::isqrt(n as nat) as int
}

/// No component can outgrow the magnitude by more than three units.
proof fn lemma_component_bound(x: int, q: int, m: int, s: int)
    by (nonlinear_arith)
    requires
        s == 1_000_000_000,
        x * x <= q,
        q <= m * m + 2 * m + 3 * s,
        m >= 0,
    ensures
        -(m + 3 * s) <= x <= m + 3 * s,
{
}

/// A normalized component is the rounded quotient, unsaturated, and
/// within one rounding step of the exact ratio.
proof fn lemma_normalized_component(x: int, m: int, s: int)
    requires
        s == 1_000_000_000,
        30_000_000 <= m <= 20_000_000_000_000,
        -(m + 3 * s) <= x <= m + 3 * s,
    ensures
        crate::fixed::div_raw(x, m) == crate::fixed::rdiv(x * s, m),
        -m <= m * crate::fixed::rdiv(x * s, m) - x * s <= m,
        -200_000_000_000 <= crate::fixed::rdiv(x * s, m) <= 200_000_000_000,
{
    lemma_rdiv_close(x * s, m);
    let r = crate::fixed::rdiv(x * s, m);
    assert(-200_000_000_000 <= r <= 200_000_000_000) by (nonlinear_arith)
        requires
            s == 1_000_000_000,
            30_000_000 <= m,
            -(m + 3 * s) <= x <= m + 3 * s,
            -m <= m * r - x * s <= m,
    ;
}

/// Scaling the rounding error of one component up to squares.
proof fn lemma_scaled_square(x: int, nx: int, m: int, s: int)
    by (nonlinear_arith)
    requires
        s == 1_000_000_000,
        m >= 1,
        -(m + 3 * s) <= x <= m + 3 * s,
        -m <= m * nx - x * s <= m,
    ensures
        -(2 * s * m * (m + 3 * s) + m * m) <= m * m * (nx * nx) - s * s * (x * x) <= 2 * s * m * (
        m + 3 * s) + m * m,
{
}

/// A dot of a vector with itself is a sum of squares, hence nonnegative.
pub proof fn lemma_dot_self_nonneg(a: Vec3)
    ensures
        dot3(a, a) >= 0,
{
    lemma_square_raw_nonneg(a.x);
    lemma_square_raw_nonneg(a.y);
    lemma_square_raw_nonneg(a.z);
}

/// A raw square is nonnegative.
pub proof fn lemma_square_raw_nonneg(a: int)
    ensures
        mul_raw(a, a) >= 0,
{
    assert(a * a >= 0) by (nonlinear_arith);
}

} // verus!
