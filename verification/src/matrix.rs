//! Square matrices of sizes 2, 3 and 4.
//!
//! Determinants use cofactor expansion along the first row, with the closed
//! form at 2x2. `inverse` writes `cofactor(i, j) / det` into the transposed
//! slot and is only defined on invertible matrices (a singular transform in
//! a scene is a programming error and fails loudly). Transform constructors
//! build translation, scaling, rotation and shear; composed transforms
//! multiply left to right, so `T * R * S * point` scales first.

use vstd::prelude::*;

use crate::fixed::{add_raw, div_raw, mul_raw, neg_raw, rdiv, Fix, SCALE};
use crate::point::Point;
use crate::trig::{cos_raw, sin_raw};
use crate::utils::{fuzzy_raw, FuzzyEq};
use crate::vector::{Vec3, Vector};

verus! {

/// The mathematical value of a 2x2 matrix, row major.
pub ghost struct Mat2V {
    pub m00: int,
    pub m01: int,
    pub m10: int,
    pub m11: int,
}

/// The mathematical value of a 3x3 matrix, row major.
pub ghost struct Mat3V {
    pub m00: int,
    pub m01: int,
    pub m02: int,
    pub m10: int,
    pub m11: int,
    pub m12: int,
    pub m20: int,
    pub m21: int,
    pub m22: int,
}

/// The mathematical value of a 4x4 matrix, row major.
pub ghost struct Mat4V {
    pub m00: int,
    pub m01: int,
    pub m02: int,
    pub m03: int,
    pub m10: int,
    pub m11: int,
    pub m12: int,
    pub m13: int,
    pub m20: int,
    pub m21: int,
    pub m22: int,
    pub m23: int,
    pub m30: int,
    pub m31: int,
    pub m32: int,
    pub m33: int,
}

/// Index arithmetic of removing one row or column: entry `k` of the
/// submatrix comes from entry `k` or `k + 1` of the source.
pub open spec fn skip_idx(k: int, removed: int) -> int {
    if k < removed {
        k
    } else {
        k + 1
    }
}

/// Entry `(i, j)` of a 3x3 value.
pub open spec fn at3(m: Mat3V, i: int, j: int) -> int {
    if i == 0 {
        if j == 0 { m.m00 } else if j == 1 { m.m01 } else { m.m02 }
    } else if i == 1 {
        if j == 0 { m.m10 } else if j == 1 { m.m11 } else { m.m12 }
    } else {
        if j == 0 { m.m20 } else if j == 1 { m.m21 } else { m.m22 }
    }
}

/// Entry `(i, j)` of a 4x4 value.
pub open spec fn at4(m: Mat4V, i: int, j: int) -> int {
    if i == 0 {
        if j == 0 { m.m00 } else if j == 1 { m.m01 } else if j == 2 { m.m02 } else { m.m03 }
    } else if i == 1 {
        if j == 0 { m.m10 } else if j == 1 { m.m11 } else if j == 2 { m.m12 } else { m.m13 }
    } else if i == 2 {
        if j == 0 { m.m20 } else if j == 1 { m.m21 } else if j == 2 { m.m22 } else { m.m23 }
    } else {
        if j == 0 { m.m30 } else if j == 1 { m.m31 } else if j == 2 { m.m32 } else { m.m33 }
    }
}

/// `ad - cb`: the closed-form 2x2 determinant.
pub open spec fn det2v(m: Mat2V) -> int {
    crate::fixed::sub_raw(mul_raw(m.m00, m.m11), mul_raw(m.m10, m.m01))
}

/// Remove row `rr` and column `rc` of a 3x3 value, keeping relative order.
pub open spec fn sub3v(m: Mat3V, rr: int, rc: int) -> Mat2V {
    Mat2V {
        m00: at3(m, skip_idx(0, rr), skip_idx(0, rc)),
        m01: at3(m, skip_idx(0, rr), skip_idx(1, rc)),
        m10: at3(m, skip_idx(1, rr), skip_idx(0, rc)),
        m11: at3(m, skip_idx(1, rr), skip_idx(1, rc)),
    }
}

/// The determinant of a 3x3 minor.
pub open spec fn minor3v(m: Mat3V, rr: int, rc: int) -> int {
    det2v(sub3v(m, rr, rc))
}

/// The minor with the checkerboard sign `(-1)^(rr + rc)`.
pub open spec fn cof3v(m: Mat3V, rr: int, rc: int) -> int {
    if (rr + rc) % 2 == 0 {
        minor3v(m, rr, rc)
    } else {
        neg_raw(minor3v(m, rr, rc))
    }
}

/// Cofactor expansion of a 3x3 determinant along the first row.
pub open spec fn det3v(m: Mat3V) -> int {
    add_raw(
        add_raw(mul_raw(m.m00, cof3v(m, 0, 0)), mul_raw(m.m01, cof3v(m, 0, 1))),
        mul_raw(m.m02, cof3v(m, 0, 2)),
    )
}

/// Remove row `rr` and column `rc` of a 4x4 value, keeping relative order.
pub open spec fn sub4v(m: Mat4V, rr: int, rc: int) -> Mat3V {
    Mat3V {
        m00: at4(m, skip_idx(0, rr), skip_idx(0, rc)),
        m01: at4(m, skip_idx(0, rr), skip_idx(1, rc)),
        m02: at4(m, skip_idx(0, rr), skip_idx(2, rc)),
        m10: at4(m, skip_idx(1, rr), skip_idx(0, rc)),
        m11: at4(m, skip_idx(1, rr), skip_idx(1, rc)),
        m12: at4(m, skip_idx(1, rr), skip_idx(2, rc)),
        m20: at4(m, skip_idx(2, rr), skip_idx(0, rc)),
        m21: at4(m, skip_idx(2, rr), skip_idx(1, rc)),
        m22: at4(m, skip_idx(2, rr), skip_idx(2, rc)),
    }
}

/// The determinant of a 4x4 minor.
pub open spec fn minor4v(m: Mat4V, rr: int, rc: int) -> int {
    det3v(sub4v(m, rr, rc))
}

/// The minor with the checkerboard sign `(-1)^(rr + rc)`.
pub open spec fn cof4v(m: Mat4V, rr: int, rc: int) -> int {
    if (rr + rc) % 2 == 0 {
        minor4v(m, rr, rc)
    } else {
        neg_raw(minor4v(m, rr, rc))
    }
}

/// Cofactor expansion of a 4x4 determinant along the first row.
pub open spec fn det4v(m: Mat4V) -> int {
    add_raw(
        add_raw(
            add_raw(mul_raw(m.m00, cof4v(m, 0, 0)), mul_raw(m.m01, cof4v(m, 0, 1))),
            mul_raw(m.m02, cof4v(m, 0, 2)),
        ),
        mul_raw(m.m03, cof4v(m, 0, 3)),
    )
}

/// A matrix is invertible when its determinant is not zero within tolerance.
pub open spec fn invertible4(m: Mat4V) -> bool {
    !fuzzy_raw(det4v(m), 0)
}

/// Entry `(i, j)` of the inverse: `cofactor(j, i) / det` (transpose as you go).
pub open spec fn inv4at(m: Mat4V, i: int, j: int) -> int {
    div_raw(cof4v(m, j, i), det4v(m))
}

/// The inverse as a whole value.
pub open spec fn inv4v(m: Mat4V) -> Mat4V {
    Mat4V {
        m00: inv4at(m, 0, 0), m01: inv4at(m, 0, 1), m02: inv4at(m, 0, 2), m03: inv4at(m, 0, 3),
        m10: inv4at(m, 1, 0), m11: inv4at(m, 1, 1), m12: inv4at(m, 1, 2), m13: inv4at(m, 1, 3),
        m20: inv4at(m, 2, 0), m21: inv4at(m, 2, 1), m22: inv4at(m, 2, 2), m23: inv4at(m, 2, 3),
        m30: inv4at(m, 3, 0), m31: inv4at(m, 3, 1), m32: inv4at(m, 3, 2), m33: inv4at(m, 3, 3),
    }
}

/// A four-term product row accumulated left to right.
pub open spec fn dot4_raw(a0: int, b0: int, a1: int, b1: int, a2: int, b2: int, a3: int, b3: int) -> int {
    add_raw(add_raw(add_raw(mul_raw(a0, b0), mul_raw(a1, b1)), mul_raw(a2, b2)), mul_raw(a3, b3))
}

/// Entry `(i, j)` of a 4x4 product: row `i` of `a` against column `j` of `b`.
pub open spec fn mul4at(a: Mat4V, b: Mat4V, i: int, j: int) -> int {
    dot4_raw(at4(a, i, 0), at4(b, 0, j), at4(a, i, 1), at4(b, 1, j), at4(a, i, 2), at4(b, 2, j), at4(a, i, 3), at4(b, 3, j))
}

/// The 4x4 matrix product.
pub open spec fn mul4v(a: Mat4V, b: Mat4V) -> Mat4V {
    Mat4V {
        m00: mul4at(a, b, 0, 0), m01: mul4at(a, b, 0, 1), m02: mul4at(a, b, 0, 2), m03: mul4at(a, b, 0, 3),
        m10: mul4at(a, b, 1, 0), m11: mul4at(a, b, 1, 1), m12: mul4at(a, b, 1, 2), m13: mul4at(a, b, 1, 3),
        m20: mul4at(a, b, 2, 0), m21: mul4at(a, b, 2, 1), m22: mul4at(a, b, 2, 2), m23: mul4at(a, b, 2, 3),
        m30: mul4at(a, b, 3, 0), m31: mul4at(a, b, 3, 1), m32: mul4at(a, b, 3, 2), m33: mul4at(a, b, 3, 3),
    }
}

/// The transpose.
pub open spec fn transpose4v(m: Mat4V) -> Mat4V {
    Mat4V {
        m00: m.m00, m01: m.m10, m02: m.m20, m03: m.m30,
        m10: m.m01, m11: m.m11, m12: m.m21, m13: m.m31,
        m20: m.m02, m21: m.m12, m22: m.m22, m23: m.m32,
        m30: m.m03, m31: m.m13, m32: m.m23, m33: m.m33,
    }
}

/// The 4x4 identity.
pub open spec fn ident4v() -> Mat4V {
    Mat4V {
        m00: SCALE as int, m01: 0, m02: 0, m03: 0,
        m10: 0, m11: SCALE as int, m12: 0, m13: 0,
        m20: 0, m21: 0, m22: SCALE as int, m23: 0,
        m30: 0, m31: 0, m32: 0, m33: SCALE as int,
    }
}

/// A matrix applied to a point (`w = 1`): each row dotted with the
/// coordinates, plus the row's translation entry.
pub open spec fn mul4p(m: Mat4V, p: Vec3) -> Vec3 {
    Vec3 {
        x: add_raw(add_raw(add_raw(mul_raw(m.m00, p.x), mul_raw(m.m01, p.y)), mul_raw(m.m02, p.z)), m.m03),
        y: add_raw(add_raw(add_raw(mul_raw(m.m10, p.x), mul_raw(m.m11, p.y)), mul_raw(m.m12, p.z)), m.m13),
        z: add_raw(add_raw(add_raw(mul_raw(m.m20, p.x), mul_raw(m.m21, p.y)), mul_raw(m.m22, p.z)), m.m23),
    }
}

/// A matrix applied to a vector (`w = 0`): the translation column drops out.
pub open spec fn mul4d(m: Mat4V, v: Vec3) -> Vec3 {
    Vec3 {
        x: add_raw(add_raw(mul_raw(m.m00, v.x), mul_raw(m.m01, v.y)), mul_raw(m.m02, v.z)),
        y: add_raw(add_raw(mul_raw(m.m10, v.x), mul_raw(m.m11, v.y)), mul_raw(m.m12, v.z)),
        z: add_raw(add_raw(mul_raw(m.m20, v.x), mul_raw(m.m21, v.y)), mul_raw(m.m22, v.z)),
    }
}

/// The translation by `(x, y, z)`.
pub open spec fn translate4v(x: int, y: int, z: int) -> Mat4V {
    Mat4V {
        m00: SCALE as int, m01: 0, m02: 0, m03: x,
        m10: 0, m11: SCALE as int, m12: 0, m13: y,
        m20: 0, m21: 0, m22: SCALE as int, m23: z,
        m30: 0, m31: 0, m32: 0, m33: SCALE as int,
    }
}

/// The scaling by `(x, y, z)`.
pub open spec fn scale4v(x: int, y: int, z: int) -> Mat4V {
    Mat4V {
        m00: x, m01: 0, m02: 0, m03: 0,
        m10: 0, m11: y, m12: 0, m13: 0,
        m20: 0, m21: 0, m22: z, m23: 0,
        m30: 0, m31: 0, m32: 0, m33: SCALE as int,
    }
}

/// The right-handed rotation about the X axis by `theta` radians.
pub open spec fn rotate_x4v(theta: int) -> Mat4V {
    Mat4V {
        m00: SCALE as int, m01: 0, m02: 0, m03: 0,
        m10: 0, m11: cos_raw(theta), m12: neg_raw(sin_raw(theta)), m13: 0,
        m20: 0, m21: sin_raw(theta), m22: cos_raw(theta), m23: 0,
        m30: 0, m31: 0, m32: 0, m33: SCALE as int,
    }
}

/// The right-handed rotation about the Y axis by `theta` radians.
pub open spec fn rotate_y4v(theta: int) -> Mat4V {
    Mat4V {
        m00: cos_raw(theta), m01: 0, m02: sin_raw(theta), m03: 0,
        m10: 0, m11: SCALE as int, m12: 0, m13: 0,
        m20: neg_raw(sin_raw(theta)), m21: 0, m22: cos_raw(theta), m23: 0,
        m30: 0, m31: 0, m32: 0, m33: SCALE as int,
    }
}

/// The right-handed rotation about the Z axis by `theta` radians.
pub open spec fn rotate_z4v(theta: int) -> Mat4V {
    Mat4V {
        m00: cos_raw(theta), m01: neg_raw(sin_raw(theta)), m02: 0, m03: 0,
        m10: sin_raw(theta), m11: cos_raw(theta), m12: 0, m13: 0,
        m20: 0, m21: 0, m22: SCALE as int, m23: 0,
        m30: 0, m31: 0, m32: 0, m33: SCALE as int,
    }
}

/// One shear coefficient applied to an accumulating matrix.
pub open spec fn apply_shear(m: Mat4V, s: Shear) -> Mat4V {
    match s {
        Shear::XY(v) => Mat4V { m01: v@, ..m },
        Shear::XZ(v) => Mat4V { m02: v@, ..m },
        Shear::YX(v) => Mat4V { m10: v@, ..m },
        Shear::YZ(v) => Mat4V { m12: v@, ..m },
        Shear::ZX(v) => Mat4V { m20: v@, ..m },
        Shear::ZY(v) => Mat4V { m21: v@, ..m },
    }
}

/// The shear coefficients applied in order, starting from the identity.
pub open spec fn shear4v(shears: Seq<Shear>, upto: int) -> Mat4V
    decreases upto,
{
    if upto <= 0 {
        ident4v()
    } else {
        apply_shear(shear4v(shears, upto - 1), shears[upto - 1])
    }
}

/// All sixteen entries agree within tolerance.
pub open spec fn fuzzy4(a: Mat4V, b: Mat4V) -> bool {
    &&& fuzzy_raw(a.m00, b.m00) &&& fuzzy_raw(a.m01, b.m01)
    &&& fuzzy_raw(a.m02, b.m02) &&& fuzzy_raw(a.m03, b.m03)
    &&& fuzzy_raw(a.m10, b.m10) &&& fuzzy_raw(a.m11, b.m11)
    &&& fuzzy_raw(a.m12, b.m12) &&& fuzzy_raw(a.m13, b.m13)
    &&& fuzzy_raw(a.m20, b.m20) &&& fuzzy_raw(a.m21, b.m21)
    &&& fuzzy_raw(a.m22, b.m22) &&& fuzzy_raw(a.m23, b.m23)
    &&& fuzzy_raw(a.m30, b.m30) &&& fuzzy_raw(a.m31, b.m31)
    &&& fuzzy_raw(a.m32, b.m32) &&& fuzzy_raw(a.m33, b.m33)
}

/// Which axis a rotation turns about.
pub enum Rotation {
    X,
    Y,
    Z,
}

/// One off-diagonal shear proportionality coefficient.
#[derive(Clone, Copy, Debug)]
pub enum Shear {
    XY(Fix),
    XZ(Fix),
    YX(Fix),
    YZ(Fix),
    ZX(Fix),
    ZY(Fix),
}

/// A 2x2 matrix.
#[derive(Clone, Copy, Debug, PartialEq, Eq, Structural)]
pub struct Matrix2 {
    pub m00: Fix,
    pub m01: Fix,
    pub m10: Fix,
    pub m11: Fix,
}

impl View for Matrix2 {
    type V = Mat2V;

    open spec fn view(&self) -> Mat2V {
        Mat2V { m00: self.m00@, m01: self.m01@, m10: self.m10@, m11: self.m11@ }
    }
}

impl Matrix2 {
    /// The matrix with the given rows.
    pub fn from_rows(rows: [[Fix; 2]; 2]) -> (r: Matrix2)
        ensures
            r@ == (Mat2V {
                m00: rows[0][0]@,
                m01: rows[0][1]@,
                m10: rows[1][0]@,
                m11: rows[1][1]@,
            }),
    {
        Matrix2 { m00: rows[0][0], m01: rows[0][1], m10: rows[1][0], m11: rows[1][1] }
    }

    /// `ad - cb`.
    pub fn determinant(&self) -> (r: Fix)
        ensures
            r@ == det2v(self@),
    {
        self.m00.mul(self.m11).sub(self.m10.mul(self.m01))
    }
}

impl FuzzyEq for Matrix2 {
    open spec fn fuzzy_spec(&self, other: Self) -> bool {
        fuzzy_raw(self@.m00, other@.m00) && fuzzy_raw(self@.m01, other@.m01)
            && fuzzy_raw(self@.m10, other@.m10) && fuzzy_raw(self@.m11, other@.m11)
    }

    fn fuzzy_eq(&self, other: Self) -> (r: bool) {
        self.m00.fuzzy_eq(other.m00) && self.m01.fuzzy_eq(other.m01)
            && self.m10.fuzzy_eq(other.m10) && self.m11.fuzzy_eq(other.m11)
    }

    fn fuzzy_ne(&self, other: Self) -> (r: bool) {
        !self.fuzzy_eq(other)
    }
}

/// A 3x3 matrix.
#[derive(Clone, Copy, Debug, PartialEq, Eq, Structural)]
pub struct Matrix3 {
    pub m00: Fix,
    pub m01: Fix,
    pub m02: Fix,
    pub m10: Fix,
    pub m11: Fix,
    pub m12: Fix,
    pub m20: Fix,
    pub m21: Fix,
    pub m22: Fix,
}

impl View for Matrix3 {
    type V = Mat3V;

    open spec fn view(&self) -> Mat3V {
        Mat3V {
            m00: self.m00@, m01: self.m01@, m02: self.m02@,
            m10: self.m10@, m11: self.m11@, m12: self.m12@,
            m20: self.m20@, m21: self.m21@, m22: self.m22@,
        }
    }
}

impl Matrix3 {
    /// The matrix with the given rows.
    pub fn from_rows(rows: [[Fix; 3]; 3]) -> (r: Matrix3)
        ensures
            r@ == (Mat3V {
                m00: rows[0][0]@, m01: rows[0][1]@, m02: rows[0][2]@,
                m10: rows[1][0]@, m11: rows[1][1]@, m12: rows[1][2]@,
                m20: rows[2][0]@, m21: rows[2][1]@, m22: rows[2][2]@,
            }),
    {
        Matrix3 {
            m00: rows[0][0], m01: rows[0][1], m02: rows[0][2],
            m10: rows[1][0], m11: rows[1][1], m12: rows[1][2],
            m20: rows[2][0], m21: rows[2][1], m22: rows[2][2],
        }
    }

    /// Entry `(i, j)`.
    pub fn at(&self, i: usize, j: usize) -> (r: Fix)
        requires
            i < 3,
            j < 3,
        ensures
            r@ == at3(self@, i as int, j as int),
    {
        if i == 0 {
            if j == 0 { self.m00 } else if j == 1 { self.m01 } else { self.m02 }
        } else if i == 1 {
            if j == 0 { self.m10 } else if j == 1 { self.m11 } else { self.m12 }
        } else {
            if j == 0 { self.m20 } else if j == 1 { self.m21 } else { self.m22 }
        }
    }

    /// Remove row `rr` and column `rc`, keeping relative order.
    pub fn submatrix(&self, rr: usize, rc: usize) -> (r: Matrix2)
        requires
            rr < 3,
            rc < 3,
        ensures
            r@ == sub3v(self@, rr as int, rc as int),
    {
        let r0: usize = if rr == 0 { 1 } else { 0 };
        let r1: usize = if rr <= 1 { 2 } else { 1 };
        let c0: usize = if rc == 0 { 1 } else { 0 };
        let c1: usize = if rc <= 1 { 2 } else { 1 };
        Matrix2 {
            m00: self.at(r0, c0),
            m01: self.at(r0, c1),
            m10: self.at(r1, c0),
            m11: self.at(r1, c1),
        }
    }

    /// The determinant of the submatrix at `(rr, rc)`.
    pub fn minor(&self, rr: usize, rc: usize) -> (r: Fix)
        requires
            rr < 3,
            rc < 3,
        ensures
            r@ == minor3v(self@, rr as int, rc as int),
    {
        self.submatrix(rr, rc).determinant()
    }

    /// The minor with the checkerboard sign.
    pub fn cofactor(&self, rr: usize, rc: usize) -> (r: Fix)
        requires
            rr < 3,
            rc < 3,
        ensures
            r@ == cof3v(self@, rr as int, rc as int),
    {
        let m = self.minor(rr, rc);
        if (rr + rc) % 2 == 0 {
            m
        } else {
            m.neg()
        }
    }

    /// Cofactor expansion along the first row.
    pub fn determinant(&self) -> (r: Fix)
        ensures
            r@ == det3v(self@),
    {
        self.m00.mul(self.cofactor(0, 0)).add(self.m01.mul(self.cofactor(0, 1))).add(
            self.m02.mul(self.cofactor(0, 2)),
        )
    }
}

impl FuzzyEq for Matrix3 {
    open spec fn fuzzy_spec(&self, other: Self) -> bool {
        &&& fuzzy_raw(self@.m00, other@.m00) &&& fuzzy_raw(self@.m01, other@.m01)
        &&& fuzzy_raw(self@.m02, other@.m02) &&& fuzzy_raw(self@.m10, other@.m10)
        &&& fuzzy_raw(self@.m11, other@.m11) &&& fuzzy_raw(self@.m12, other@.m12)
        &&& fuzzy_raw(self@.m20, other@.m20) &&& fuzzy_raw(self@.m21, other@.m21)
        &&& fuzzy_raw(self@.m22, other@.m22)
    }

    fn fuzzy_eq(&self, other: Self) -> (r: bool) {
        self.m00.fuzzy_eq(other.m00) && self.m01.fuzzy_eq(other.m01)
            && self.m02.fuzzy_eq(other.m02) && self.m10.fuzzy_eq(other.m10)
            && self.m11.fuzzy_eq(other.m11) && self.m12.fuzzy_eq(other.m12)
            && self.m20.fuzzy_eq(other.m20) && self.m21.fuzzy_eq(other.m21)
            && self.m22.fuzzy_eq(other.m22)
    }

    fn fuzzy_ne(&self, other: Self) -> (r: bool) {
        !self.fuzzy_eq(other)
    }
}

/// A 4x4 matrix: the workhorse of every affine transform.
#[derive(Clone, Copy, Debug, PartialEq, Eq, Structural)]
pub struct Matrix4 {
    pub m00: Fix,
    pub m01: Fix,
    pub m02: Fix,
    pub m03: Fix,
    pub m10: Fix,
    pub m11: Fix,
    pub m12: Fix,
    pub m13: Fix,
    pub m20: Fix,
    pub m21: Fix,
    pub m22: Fix,
    pub m23: Fix,
    pub m30: Fix,
    pub m31: Fix,
    pub m32: Fix,
    pub m33: Fix,
}

impl View for Matrix4 {
    type V = Mat4V;

    open spec fn view(&self) -> Mat4V {
        Mat4V {
            m00: self.m00@, m01: self.m01@, m02: self.m02@, m03: self.m03@,
            m10: self.m10@, m11: self.m11@, m12: self.m12@, m13: self.m13@,
            m20: self.m20@, m21: self.m21@, m22: self.m22@, m23: self.m23@,
            m30: self.m30@, m31: self.m31@, m32: self.m32@, m33: self.m33@,
        }
    }
}

impl Matrix4 {
    /// The matrix with the given rows.
    pub fn from_rows(rows: [[Fix; 4]; 4]) -> (r: Matrix4)
        ensures
            r@ == (Mat4V {
                m00: rows[0][0]@, m01: rows[0][1]@, m02: rows[0][2]@, m03: rows[0][3]@,
                m10: rows[1][0]@, m11: rows[1][1]@, m12: rows[1][2]@, m13: rows[1][3]@,
                m20: rows[2][0]@, m21: rows[2][1]@, m22: rows[2][2]@, m23: rows[2][3]@,
                m30: rows[3][0]@, m31: rows[3][1]@, m32: rows[3][2]@, m33: rows[3][3]@,
            }),
    {
        Matrix4 {
            m00: rows[0][0], m01: rows[0][1], m02: rows[0][2], m03: rows[0][3],
            m10: rows[1][0], m11: rows[1][1], m12: rows[1][2], m13: rows[1][3],
            m20: rows[2][0], m21: rows[2][1], m22: rows[2][2], m23: rows[2][3],
            m30: rows[3][0], m31: rows[3][1], m32: rows[3][2], m33: rows[3][3],
        }
    }

    /// Entry `(i, j)`.
    pub fn at(&self, i: usize, j: usize) -> (r: Fix)
        requires
            i < 4,
            j < 4,
        ensures
            r@ == at4(self@, i as int, j as int),
    {
        if i == 0 {
            if j == 0 { self.m00 } else if j == 1 { self.m01 } else if j == 2 { self.m02 } else { self.m03 }
        } else if i == 1 {
            if j == 0 { self.m10 } else if j == 1 { self.m11 } else if j == 2 { self.m12 } else { self.m13 }
        } else if i == 2 {
            if j == 0 { self.m20 } else if j == 1 { self.m21 } else if j == 2 { self.m22 } else { self.m23 }
        } else {
            if j == 0 { self.m30 } else if j == 1 { self.m31 } else if j == 2 { self.m32 } else { self.m33 }
        }
    }

    /// The identity: ones on the diagonal.
    pub fn identity() -> (r: Matrix4)
        ensures
            r@ == ident4v(),
    {
        let o = Fix::one();
        let z = Fix::zero();
        Matrix4 {
            m00: o, m01: z, m02: z, m03: z,
            m10: z, m11: o, m12: z, m13: z,
            m20: z, m21: z, m22: o, m23: z,
            m30: z, m31: z, m32: z, m33: o,
        }
    }

    /// Rows become columns.
    pub fn transpose(&self) -> (r: Matrix4)
        ensures
            r@ == transpose4v(self@),
    {
        Matrix4 {
            m00: self.m00, m01: self.m10, m02: self.m20, m03: self.m30,
            m10: self.m01, m11: self.m11, m12: self.m21, m13: self.m31,
            m20: self.m02, m21: self.m12, m22: self.m22, m23: self.m32,
            m30: self.m03, m31: self.m13, m32: self.m23, m33: self.m33,
        }
    }

    /// The matrix product; composed transforms apply right to left.
    pub fn mul(&self, rhs: &Matrix4) -> (r: Matrix4)
        ensures
            r@ == mul4v(self@, rhs@),
    {
        Matrix4 {
            m00: row_dot(self.m00, rhs.m00, self.m01, rhs.m10, self.m02, rhs.m20, self.m03, rhs.m30),
            m01: row_dot(self.m00, rhs.m01, self.m01, rhs.m11, self.m02, rhs.m21, self.m03, rhs.m31),
            m02: row_dot(self.m00, rhs.m02, self.m01, rhs.m12, self.m02, rhs.m22, self.m03, rhs.m32),
            m03: row_dot(self.m00, rhs.m03, self.m01, rhs.m13, self.m02, rhs.m23, self.m03, rhs.m33),
            m10: row_dot(self.m10, rhs.m00, self.m11, rhs.m10, self.m12, rhs.m20, self.m13, rhs.m30),
            m11: row_dot(self.m10, rhs.m01, self.m11, rhs.m11, self.m12, rhs.m21, self.m13, rhs.m31),
            m12: row_dot(self.m10, rhs.m02, self.m11, rhs.m12, self.m12, rhs.m22, self.m13, rhs.m32),
            m13: row_dot(self.m10, rhs.m03, self.m11, rhs.m13, self.m12, rhs.m23, self.m13, rhs.m33),
            m20: row_dot(self.m20, rhs.m00, self.m21, rhs.m10, self.m22, rhs.m20, self.m23, rhs.m30),
            m21: row_dot(self.m20, rhs.m01, self.m21, rhs.m11, self.m22, rhs.m21, self.m23, rhs.m31),
            m22: row_dot(self.m20, rhs.m02, self.m21, rhs.m12, self.m22, rhs.m22, self.m23, rhs.m32),
            m23: row_dot(self.m20, rhs.m03, self.m21, rhs.m13, self.m22, rhs.m23, self.m23, rhs.m33),
            m30: row_dot(self.m30, rhs.m00, self.m31, rhs.m10, self.m32, rhs.m20, self.m33, rhs.m30),
            m31: row_dot(self.m30, rhs.m01, self.m31, rhs.m11, self.m32, rhs.m21, self.m33, rhs.m31),
            m32: row_dot(self.m30, rhs.m02, self.m31, rhs.m12, self.m32, rhs.m22, self.m33, rhs.m32),
            m33: row_dot(self.m30, rhs.m03, self.m31, rhs.m13, self.m32, rhs.m23, self.m33, rhs.m33),
        }
    }

    /// The matrix applied to a point (`w = 1`).
    pub fn mul_point(&self, p: Point) -> (r: Point)
        ensures
            r@ == mul4p(self@, p@),
    {
        Point::new(
            self.m00.mul(p.x).add(self.m01.mul(p.y)).add(self.m02.mul(p.z)).add(self.m03),
            self.m10.mul(p.x).add(self.m11.mul(p.y)).add(self.m12.mul(p.z)).add(self.m13),
            self.m20.mul(p.x).add(self.m21.mul(p.y)).add(self.m22.mul(p.z)).add(self.m23),
        )
    }

    /// The matrix applied to a vector (`w = 0`): translation drops out.
    pub fn mul_vector(&self, v: Vector) -> (r: Vector)
        ensures
            r@ == mul4d(self@, v@),
    {
        Vector::new(
            self.m00.mul(v.x).add(self.m01.mul(v.y)).add(self.m02.mul(v.z)),
            self.m10.mul(v.x).add(self.m11.mul(v.y)).add(self.m12.mul(v.z)),
            self.m20.mul(v.x).add(self.m21.mul(v.y)).add(self.m22.mul(v.z)),
        )
    }

    /// Remove row `rr` and column `rc`, keeping relative order.
    pub fn submatrix(&self, rr: usize, rc: usize) -> (r: Matrix3)
        requires
            rr < 4,
            rc < 4,
        ensures
            r@ == sub4v(self@, rr as int, rc as int),
    {
        let r0: usize = if rr == 0 { 1 } else { 0 };
        let r1: usize = if rr <= 1 { 2 } else { 1 };
        let r2: usize = if rr <= 2 { 3 } else { 2 };
        let c0: usize = if rc == 0 { 1 } else { 0 };
        let c1: usize = if rc <= 1 { 2 } else { 1 };
        let c2: usize = if rc <= 2 { 3 } else { 2 };
        Matrix3 {
            m00: self.at(r0, c0), m01: self.at(r0, c1), m02: self.at(r0, c2),
            m10: self.at(r1, c0), m11: self.at(r1, c1), m12: self.at(r1, c2),
            m20: self.at(r2, c0), m21: self.at(r2, c1), m22: self.at(r2, c2),
        }
    }

    /// The determinant of the submatrix at `(rr, rc)`.
    pub fn minor(&self, rr: usize, rc: usize) -> (r: Fix)
        requires
            rr < 4,
            rc < 4,
        ensures
            r@ == minor4v(self@, rr as int, rc as int),
    {
        self.submatrix(rr, rc).determinant()
    }

    /// The minor with the checkerboard sign.
    pub fn cofactor(&self, rr: usize, rc: usize) -> (r: Fix)
        requires
            rr < 4,
            rc < 4,
        ensures
            r@ == cof4v(self@, rr as int, rc as int),
    {
        let m = self.minor(rr, rc);
        if (rr + rc) % 2 == 0 {
            m
        } else {
            m.neg()
        }
    }

    /// Cofactor expansion along the first row.
    pub fn determinant(&self) -> (r: Fix)
        ensures
            r@ == det4v(self@),
    {
        self.m00.mul(self.cofactor(0, 0)).add(self.m01.mul(self.cofactor(0, 1))).add(
            self.m02.mul(self.cofactor(0, 2)),
        ).add(self.m03.mul(self.cofactor(0, 3)))
    }

    /// The determinant is not zero within tolerance.
    pub fn is_invertible(&self) -> (r: bool)
        ensures
            r == invertible4(self@),
    {
        self.determinant().fuzzy_ne(Fix::zero())
    }

    /// The inverse, by cofactors over the determinant. Only invertible
    /// matrices may be inverted; a singular one is a programming error.
    pub fn inverse(&self) -> (r: Matrix4)
        requires
            invertible4(self@),
        ensures
            r@ == inv4v(self@),
    {
        let det = self.determinant();
        Matrix4 {
            m00: self.cofactor(0, 0).div(det),
            m01: self.cofactor(1, 0).div(det),
            m02: self.cofactor(2, 0).div(det),
            m03: self.cofactor(3, 0).div(det),
            m10: self.cofactor(0, 1).div(det),
            m11: self.cofactor(1, 1).div(det),
            m12: self.cofactor(2, 1).div(det),
            m13: self.cofactor(3, 1).div(det),
            m20: self.cofactor(0, 2).div(det),
            m21: self.cofactor(1, 2).div(det),
            m22: self.cofactor(2, 2).div(det),
            m23: self.cofactor(3, 2).div(det),
            m30: self.cofactor(0, 3).div(det),
            m31: self.cofactor(1, 3).div(det),
            m32: self.cofactor(2, 3).div(det),
            m33: self.cofactor(3, 3).div(det),
        }
    }

    /// The translation by `(x, y, z)`.
    pub fn translate(x: Fix, y: Fix, z: Fix) -> (r: Matrix4)
        ensures
            r@ == translate4v(x@, y@, z@),
    {
        let o = Fix::one();
        let zr = Fix::zero();
        Matrix4 {
            m00: o, m01: zr, m02: zr, m03: x,
            m10: zr, m11: o, m12: zr, m13: y,
            m20: zr, m21: zr, m22: o, m23: z,
            m30: zr, m31: zr, m32: zr, m33: o,
        }
    }

    /// The scaling by `(x, y, z)`.
    pub fn scale(x: Fix, y: Fix, z: Fix) -> (r: Matrix4)
        ensures
            r@ == scale4v(x@, y@, z@),
    {
        let o = Fix::one();
        let zr = Fix::zero();
        Matrix4 {
            m00: x, m01: zr, m02: zr, m03: zr,
            m10: zr, m11: y, m12: zr, m13: zr,
            m20: zr, m21: zr, m22: z, m23: zr,
            m30: zr, m31: zr, m32: zr, m33: o,
        }
    }

    /// The rotation about the given axis by `theta` radians.
    pub fn rotate(dir: Rotation, theta: Fix) -> (r: Matrix4)
        ensures
            dir is X ==> r@ == rotate_x4v(theta@),
            dir is Y ==> r@ == rotate_y4v(theta@),
            dir is Z ==> r@ == rotate_z4v(theta@),
    {
        match dir {
            Rotation::X => Matrix4::rotate_x(theta),
            Rotation::Y => Matrix4::rotate_y(theta),
            Rotation::Z => Matrix4::rotate_z(theta),
        }
    }

    /// The rotation about the X axis by `theta` radians.
    pub fn rotate_x(theta: Fix) -> (r: Matrix4)
        ensures
            r@ == rotate_x4v(theta@),
    {
        let o = Fix::one();
        let zr = Fix::zero();
        let c = theta.cos();
        let s = theta.sin();
        Matrix4 {
            m00: o, m01: zr, m02: zr, m03: zr,
            m10: zr, m11: c, m12: s.neg(), m13: zr,
            m20: zr, m21: s, m22: c, m23: zr,
            m30: zr, m31: zr, m32: zr, m33: o,
        }
    }

    /// The rotation about the Y axis by `theta` radians.
    pub fn rotate_y(theta: Fix) -> (r: Matrix4)
        ensures
            r@ == rotate_y4v(theta@),
    {
        let o = Fix::one();
        let zr = Fix::zero();
        let c = theta.cos();
        let s = theta.sin();
        Matrix4 {
            m00: c, m01: zr, m02: s, m03: zr,
            m10: zr, m11: o, m12: zr, m13: zr,
            m20: s.neg(), m21: zr, m22: c, m23: zr,
            m30: zr, m31: zr, m32: zr, m33: o,
        }
    }

    /// The rotation about the Z axis by `theta` radians.
    pub fn rotate_z(theta: Fix) -> (r: Matrix4)
        ensures
            r@ == rotate_z4v(theta@),
    {
        let o = Fix::one();
        let zr = Fix::zero();
        let c = theta.cos();
        let s = theta.sin();
        Matrix4 {
            m00: c, m01: s.neg(), m02: zr, m03: zr,
            m10: s, m11: c, m12: zr, m13: zr,
            m20: zr, m21: zr, m22: o, m23: zr,
            m30: zr, m31: zr, m32: zr, m33: o,
        }
    }

    /// The identity with the given shear coefficients written in, in order.
    pub fn shear(shears: &Vec<Shear>) -> (r: Matrix4)
        ensures
            r@ == shear4v(shears@, shears@.len() as int),
    {
        let mut res = Matrix4::identity();
        let mut i: usize = 0;
        while i < shears.len()
            invariant
                i <= shears@.len(),
                res@ == shear4v(shears@, i as int),
            decreases shears@.len() - i,
        {
            let sh = shears[i];
            match sh {
                Shear::XY(v) => res.m01 = v,
                Shear::XZ(v) => res.m02 = v,
                Shear::YX(v) => res.m10 = v,
                Shear::YZ(v) => res.m12 = v,
                Shear::ZX(v) => res.m20 = v,
                Shear::ZY(v) => res.m21 = v,
            }
            i = i + 1;
        }
        res
    }
}

/// Raw values whose translation sums stay clear of saturation: half the
/// representable range.
pub open spec fn half_range(a: int) -> bool {
    -4_611_686_018_427_387_903 <= a <= 4_611_686_018_427_387_903
}

/// Multiplying by zero or one and dividing by one are exact in fixed
/// point, and small sums and negations do not saturate.
pub proof fn lemma_unit_arith()
    ensures
        forall|a: int| #[trigger] mul_raw(0, a) == 0,
        forall|a: int| #[trigger] mul_raw(a, 0) == 0,
        forall|a: int|
            -(crate::fixed::FIX_MAX as int) <= a <= crate::fixed::FIX_MAX as int ==> #[trigger] mul_raw(
                SCALE as int,
                a,
            ) == a,
        forall|a: int|
            -(crate::fixed::FIX_MAX as int) <= a <= crate::fixed::FIX_MAX as int ==> #[trigger] mul_raw(
                a,
                SCALE as int,
            ) == a,
        forall|a: int|
            -(crate::fixed::FIX_MAX as int) <= a <= crate::fixed::FIX_MAX as int ==> #[trigger] div_raw(
                a,
                SCALE as int,
            ) == a,
{
    assert forall|a: int| #[trigger] mul_raw(0, a) == 0 by {
        lemma_exact_rescale(0);
    }
    assert forall|a: int| #[trigger] mul_raw(a, 0) == 0 by {
        lemma_exact_rescale(0);
    }
    assert forall|a: int|
        -(crate::fixed::FIX_MAX as int) <= a <= crate::fixed::FIX_MAX as int implies #[trigger] mul_raw(
        SCALE as int,
        a,
    ) == a by {
        lemma_exact_rescale(a);
    }
    assert forall|a: int|
        -(crate::fixed::FIX_MAX as int) <= a <= crate::fixed::FIX_MAX as int implies #[trigger] mul_raw(
        a,
        SCALE as int,
    ) == a by {
        lemma_exact_rescale(a);
    }
    assert forall|a: int|
        -(crate::fixed::FIX_MAX as int) <= a <= crate::fixed::FIX_MAX as int implies #[trigger] div_raw(
        a,
        SCALE as int,
    ) == a by {
        lemma_exact_rescale(a);
    }
}

/// `(a * SCALE) / SCALE` rounds to exactly `a`, whichever factor order the
/// product came from.
proof fn lemma_exact_rescale(a: int)
    ensures
        rdiv(a * SCALE, SCALE as int) == a,
        rdiv(SCALE * a, SCALE as int) == a,
        -(crate::fixed::FIX_MAX as int) <= a <= crate::fixed::FIX_MAX as int ==> mul_raw(
            SCALE as int,
            a,
        ) == a && mul_raw(a, SCALE as int) == a && div_raw(a, SCALE as int) == a,
{
    let s = SCALE as int;
    let am = if a >= 0 {
        a
    } else {
        -a
    };
    assert(am * s == a * s || am * s == -(a * s)) by (nonlinear_arith)
        requires
            am == a || am == -a,
    ;
    assert(s * a == a * s) by (nonlinear_arith);
    vstd::arithmetic::div_mod::lemma_fundamental_div_mod_converse(am * s + s / 2, s, am, s / 2);
}

/// The inverse of a translation is the opposite translation, exactly: the
/// determinant and every cofactor reduce to sums of products with 0 and 1.
pub proof fn lemma_translate_inverse(x: int, y: int, z: int)
    requires
        half_range(x),
        half_range(y),
        half_range(z),
    ensures
        det4v(translate4v(x, y, z)) == SCALE as int,
        invertible4(translate4v(x, y, z)),
        inv4v(translate4v(x, y, z)) == translate4v(-x, -y, -z),
{
    lemma_unit_arith();
}

/// Law: a translation composed with its inverse is the identity, on
/// either side — exactly, not merely within tolerance.
pub proof fn lemma_translate_inverse_identity(x: int, y: int, z: int)
    requires
        half_range(x),
        half_range(y),
        half_range(z),
    ensures
        mul4v(inv4v(translate4v(x, y, z)), translate4v(x, y, z)) == ident4v(),
        mul4v(translate4v(x, y, z), inv4v(translate4v(x, y, z))) == ident4v(),
        fuzzy4(mul4v(inv4v(translate4v(x, y, z)), translate4v(x, y, z)), ident4v()),
        fuzzy4(mul4v(translate4v(x, y, z), inv4v(translate4v(x, y, z))), ident4v()),
{
    lemma_translate_inverse(x, y, z);
    lemma_unit_arith();
}

/// Law: translating a point and then applying the inverse translation
/// gives the point back, exactly (and so within tolerance), as long as the
/// sums stay clear of saturation.
pub proof fn lemma_translate_round_trip(x: int, y: int, z: int, p: Vec3)
    requires
        half_range(x),
        half_range(y),
        half_range(z),
        half_range(p.x),
        half_range(p.y),
        half_range(p.z),
    ensures
        mul4p(inv4v(translate4v(x, y, z)), mul4p(translate4v(x, y, z), p)) == p,
        crate::vector::fuzzy3(
            mul4p(inv4v(translate4v(x, y, z)), mul4p(translate4v(x, y, z), p)),
            p,
        ),
{
    lemma_translate_inverse(x, y, z);
    lemma_unit_arith();
}

/// A four-term row-by-column product, accumulated left to right.
fn row_dot(a0: Fix, b0: Fix, a1: Fix, b1: Fix, a2: Fix, b2: Fix, a3: Fix, b3: Fix) -> (r: Fix)
    ensures
        r@ == dot4_raw(a0@, b0@, a1@, b1@, a2@, b2@, a3@, b3@),
{
    a0.mul(b0).add(a1.mul(b1)).add(a2.mul(b2)).add(a3.mul(b3))
}

impl FuzzyEq for Matrix4 {
    open spec fn fuzzy_spec(&self, other: Self) -> bool {
        fuzzy4(self@, other@)
    }

    fn fuzzy_eq(&self, other: Self) -> (r: bool) {
        let rows_match = self.m00.fuzzy_eq(other.m00) && self.m01.fuzzy_eq(other.m01)
            && self.m02.fuzzy_eq(other.m02) && self.m03.fuzzy_eq(other.m03)
            && self.m10.fuzzy_eq(other.m10) && self.m11.fuzzy_eq(other.m11)
            && self.m12.fuzzy_eq(other.m12) && self.m13.fuzzy_eq(other.m13)
            && self.m20.fuzzy_eq(other.m20) && self.m21.fuzzy_eq(other.m21)
            && self.m22.fuzzy_eq(other.m22) && self.m23.fuzzy_eq(other.m23)
            && self.m30.fuzzy_eq(other.m30) && self.m31.fuzzy_eq(other.m31)
            && self.m32.fuzzy_eq(other.m32) && self.m33.fuzzy_eq(other.m33);
        proof {
            assert(self.fuzzy_spec(other) == fuzzy4(self@, other@));
        }
        rows_match
    }

    fn fuzzy_ne(&self, other: Self) -> (r: bool) {
        !self.fuzzy_eq(other)
    }
}

} // verus!
