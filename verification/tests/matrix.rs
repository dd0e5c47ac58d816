use std::f64::consts::{FRAC_1_SQRT_2, FRAC_PI_2, FRAC_PI_4};

use raytracer::fixed::Fix;
use raytracer::matrix::{Matrix2, Matrix3, Matrix4, Rotation, Shear};
use raytracer::point::Point;
use raytracer::utils::FuzzyEq;
use raytracer::vector::Vector;

fn fx(v: f64) -> Fix {
    Fix::from_raw((v * 1_000_000_000f64).round() as i64)
}

fn m2(rows: [[f64; 2]; 2]) -> Matrix2 {
    Matrix2::from_rows([
        [fx(rows[0][0]), fx(rows[0][1])],
        [fx(rows[1][0]), fx(rows[1][1])],
    ])
}

fn m3(rows: [[f64; 3]; 3]) -> Matrix3 {
    Matrix3::from_rows([
        [fx(rows[0][0]), fx(rows[0][1]), fx(rows[0][2])],
        [fx(rows[1][0]), fx(rows[1][1]), fx(rows[1][2])],
        [fx(rows[2][0]), fx(rows[2][1]), fx(rows[2][2])],
    ])
}

fn m4(rows: [[f64; 4]; 4]) -> Matrix4 {
    Matrix4::from_rows([
        [fx(rows[0][0]), fx(rows[0][1]), fx(rows[0][2]), fx(rows[0][3])],
        [fx(rows[1][0]), fx(rows[1][1]), fx(rows[1][2]), fx(rows[1][3])],
        [fx(rows[2][0]), fx(rows[2][1]), fx(rows[2][2]), fx(rows[2][3])],
        [fx(rows[3][0]), fx(rows[3][1]), fx(rows[3][2]), fx(rows[3][3])],
    ])
}

fn point(x: f64, y: f64, z: f64) -> Point {
    Point::new(fx(x), fx(y), fx(z))
}

fn vector(x: f64, y: f64, z: f64) -> Vector {
    Vector::new(fx(x), fx(y), fx(z))
}

fn mat3_mul(a: Matrix3, b: Matrix3) -> Matrix3 {
    let mut rows = [[Fix::zero(); 3]; 3];
    for i in 0..3 {
        for j in 0..3 {
            let mut sum = Fix::zero();
            for k in 0..3 {
                sum = sum.add(a.at(i, k).mul(b.at(k, j)));
            }
            rows[i][j] = sum;
        }
    }
    Matrix3::from_rows(rows)
}

fn mat2_mul(a: Matrix2, b: Matrix2) -> Matrix2 {
    Matrix2 {
        m00: a.m00.mul(b.m00).add(a.m01.mul(b.m10)),
        m01: a.m00.mul(b.m01).add(a.m01.mul(b.m11)),
        m10: a.m10.mul(b.m00).add(a.m11.mul(b.m10)),
        m11: a.m10.mul(b.m01).add(a.m11.mul(b.m11)),
    }
}

fn ident2() -> Matrix2 {
    m2([[1.0, 0.0], [0.0, 1.0]])
}

fn ident3() -> Matrix3 {
    m3([[1.0, 0.0, 0.0], [0.0, 1.0, 0.0], [0.0, 0.0, 1.0]])
}

#[test]
fn matrix_equality() {
    let a1 = m2([[1.0, 2.0], [3.0, 4.0]]);
    let a2 = m2([[1.0, 2.0], [3.0, 4.0]]);
    assert!(a1.fuzzy_eq(a2));

    let b1 = m3([[1.0, 2.0, 3.0], [3.0, 4.0, 5.0], [5.0, 6.0, 7.0]]);
    let b2 = m3([[1.0, 2.0, 3.0], [3.0, 4.0, 5.0], [5.0, 6.0, 7.0]]);
    assert!(b1.fuzzy_eq(b2));

    let c1 = m4([
        [1.0, 2.0, 3.0, 4.0],
        [3.0, 4.0, 5.0, 6.0],
        [6.0, 7.0, 8.0, 0.3],
        [9.0, 10.0, 11.0, 12.0],
    ]);
    let c2 = m4([
        [1.0, 2.0, 3.0, 4.0],
        [3.0, 4.0, 5.0, 6.0],
        [6.0, 7.0, 8.0, 3.0 / 10.0],
        [9.0, 10.0, 11.0, 12.0],
    ]);
    assert!(c1.fuzzy_eq(c2));
}

#[test]
fn matrix_multiplication_with_vector() {
    let m = m4([
        [1.0, 2.0, 3.0, 4.0],
        [2.0, 4.0, 4.0, 2.0],
        [8.0, 6.0, 4.0, 1.0],
        [0.0, 0.0, 0.0, 1.0],
    ]);
    let v = vector(1.0, 2.0, 3.0);
    let exp = vector(14.0, 22.0, 32.0);
    let res = m.mul_vector(v);
    assert!(exp.fuzzy_eq(res));
}

#[test]
fn matrix_multiplication_with_point() {
    let m = m4([
        [1.0, 2.0, 3.0, 4.0],
        [2.0, 4.0, 4.0, 2.0],
        [8.0, 6.0, 4.0, 1.0],
        [0.0, 0.0, 0.0, 1.0],
    ]);
    let v = point(1.0, 2.0, 3.0);
    let exp = point(18.0, 24.0, 33.0);
    let res = m.mul_point(v);
    assert!(exp.fuzzy_eq(res));
}

#[test]
fn matrix_multiplication_with_matrix() {
    let a1 = m2([[1.0, 2.0], [3.0, 4.0]]);
    let a2 = m2([[-1.0, -2.0], [3.0, 4.0]]);
    let aexp = m2([[5.0, 6.0], [9.0, 10.0]]);
    assert!(aexp.fuzzy_eq(mat2_mul(a1, a2)));

    let b1 = m3([[1.0, 2.0, -5.0], [3.0, 4.0, 1.0], [0.5, 0.6, 1.0]]);
    let b2 = m3([[-1.0, -2.0, 1.0], [3.0, 4.0, 2.0], [1.0, 1.0, 2.5]]);
    let bexp = m3([[0.0, 1.0, -7.5], [10.0, 11.0, 13.5], [2.3, 2.4, 4.2]]);
    assert!(bexp.fuzzy_eq(mat3_mul(b1, b2)));

    let c1 = m4([
        [1.0, 2.0, 3.0, 4.0],
        [5.0, 6.0, 7.0, 8.0],
        [9.0, 8.0, 7.0, 6.0],
        [5.0, 4.0, 3.0, 2.0],
    ]);
    let c2 = m4([
        [-2.0, 1.0, 2.0, 3.0],
        [3.0, 2.0, 1.0, -1.0],
        [4.0, 3.0, 6.0, 5.0],
        [1.0, 2.0, 7.0, 8.0],
    ]);
    let cexp = m4([
        [20.0, 22.0, 50.0, 48.0],
        [44.0, 54.0, 114.0, 108.0],
        [40.0, 58.0, 110.0, 102.0],
        [16.0, 26.0, 46.0, 42.0],
    ]);
    assert!(cexp.fuzzy_eq(c1.mul(&c2)));
}

#[test]
fn matrix_identity_multiplication() {
    let a = m2([[1.0, 2.0], [3.0, 4.0]]);
    assert!(mat2_mul(ident2(), a).fuzzy_eq(a));
    assert!(mat2_mul(a, ident2()).fuzzy_eq(a));

    let b = m3([[1.0, 2.0, -5.0], [3.0, 4.0, 1.0], [0.5, 0.6, 1.0]]);
    assert!(mat3_mul(ident3(), b).fuzzy_eq(b));
    assert!(mat3_mul(b, ident3()).fuzzy_eq(b));

    let c = m4([
        [1.0, 2.0, 3.0, 4.0],
        [5.0, 6.0, 7.0, 8.0],
        [9.0, 8.0, 7.0, 6.0],
        [5.0, 4.0, 3.0, 2.0],
    ]);
    assert!(Matrix4::identity().mul(&c).fuzzy_eq(c));
    assert!(c.mul(&Matrix4::identity()).fuzzy_eq(c));
}

#[test]
fn matrix_transpose() {
    let c1 = m4([
        [1.0, 2.0, 3.0, 4.0],
        [5.0, 6.0, 7.0, 8.0],
        [9.0, 8.0, 7.0, 6.0],
        [5.0, 4.0, 3.0, 2.0],
    ]);
    let c2 = m4([
        [1.0, 5.0, 9.0, 5.0],
        [2.0, 6.0, 8.0, 4.0],
        [3.0, 7.0, 7.0, 3.0],
        [4.0, 8.0, 6.0, 2.0],
    ]);
    assert!(c1.transpose().fuzzy_eq(c2));
    assert!(c2.transpose().fuzzy_eq(c1));
    assert!(Matrix4::identity().transpose().fuzzy_eq(Matrix4::identity()));
}

#[test]
fn matrix_determinant() {
    let a = m2([[1.0, 5.0], [-3.0, 2.0]]);
    assert!(fx(17.0).fuzzy_eq(a.determinant()));

    let b = m3([[1.0, 2.0, 6.0], [-5.0, 8.0, -4.0], [2.0, 6.0, 4.0]]);
    assert!(fx(56.0).fuzzy_eq(b.cofactor(0, 0)));
    assert!(fx(12.0).fuzzy_eq(b.cofactor(0, 1)));
    assert!(fx(-46.0).fuzzy_eq(b.cofactor(0, 2)));
    assert!(fx(-196.0).fuzzy_eq(b.determinant()));

    let c = m4([
        [-2.0, -8.0, 3.0, 5.0],
        [-3.0, 1.0, 7.0, 3.0],
        [1.0, 2.0, -9.0, 6.0],
        [-6.0, 7.0, 7.0, -9.0],
    ]);
    assert!(fx(690.0).fuzzy_eq(c.cofactor(0, 0)));
    assert!(fx(447.0).fuzzy_eq(c.cofactor(0, 1)));
    assert!(fx(210.0).fuzzy_eq(c.cofactor(0, 2)));
    assert!(fx(51.0).fuzzy_eq(c.cofactor(0, 3)));
    assert!(fx(-4071.0).fuzzy_eq(c.determinant()));
}

#[test]
fn matrix_submatrix() {
    let a = m3([[1.0, 5.0, 0.0], [-3.0, 2.0, 7.0], [0.0, 6.0, 3.0]]);
    let exp1 = m2([[-3.0, 2.0], [0.0, 6.0]]);
    assert!(exp1.fuzzy_eq(a.submatrix(0, 2)));
    let exp2 = m2([[1.0, 0.0], [0.0, 3.0]]);
    assert!(exp2.fuzzy_eq(a.submatrix(1, 1)));

    let b = m4([
        [1.0, 2.0, 3.0, 4.0],
        [2.0, 3.0, 4.0, 5.0],
        [3.0, 4.0, 5.0, 6.0],
        [4.0, 5.0, 6.0, 7.0],
    ]);
    let exp3 = m3([[1.0, 3.0, 4.0], [3.0, 5.0, 6.0], [4.0, 6.0, 7.0]]);
    assert!(exp3.fuzzy_eq(b.submatrix(1, 1)));
    let exp4 = m3([[1.0, 2.0, 4.0], [2.0, 3.0, 5.0], [3.0, 4.0, 6.0]]);
    assert!(exp4.fuzzy_eq(b.submatrix(3, 2)));
}

#[test]
fn matrix_minor() {
    let a = m3([[3.0, 5.0, 0.0], [2.0, -1.0, -7.0], [6.0, -1.0, 5.0]]);
    let sub = a.submatrix(1, 0);
    let det = sub.determinant();
    let minor = a.minor(1, 0);
    assert!(det.fuzzy_eq(minor));

    let b = m4([
        [1.0, 2.0, 3.0, 4.0],
        [2.0, 3.0, 4.0, 5.0],
        [3.0, 4.0, 5.0, 6.0],
        [4.0, 5.0, 6.0, 7.0],
    ]);
    let sub2 = b.submatrix(2, 3);
    let det2 = sub2.determinant();
    let minor2 = b.minor(2, 3);
    assert!(det2.fuzzy_eq(minor2));
}

#[test]
fn matrix_cofactor() {
    let a = m3([[3.0, 5.0, 0.0], [2.0, -1.0, -7.0], [6.0, -1.0, 5.0]]);
    assert!(fx(-12.0).fuzzy_eq(a.minor(0, 0)));
    assert!(fx(-12.0).fuzzy_eq(a.cofactor(0, 0)));
    assert!(fx(25.0).fuzzy_eq(a.minor(1, 0)));
    assert!(fx(-25.0).fuzzy_eq(a.cofactor(1, 0)));

    let b = m4([
        [-1.0, 2.0, 3.0, 4.0],
        [6.0, 6.0, 7.0, 8.0],
        [9.0, 8.0, -7.0, 6.0],
        [5.0, 4.0, 3.0, 2.0],
    ]);
    assert!(fx(-188.0).fuzzy_eq(b.minor(1, 3)));
    assert!(fx(-188.0).fuzzy_eq(b.cofactor(1, 3)));
    assert!(fx(16.0).fuzzy_eq(b.minor(1, 2)));
    assert!(fx(-16.0).fuzzy_eq(b.cofactor(1, 2)));
}

#[test]
fn matrix_invertibility() {
    let a = m4([
        [6.0, 4.0, 4.0, 4.0],
        [5.0, 5.0, 7.0, 6.0],
        [4.0, -9.0, 3.0, -7.0],
        [9.0, 1.0, 7.0, -6.0],
    ]);
    assert!(fx(-2120.0).fuzzy_eq(a.determinant()));
    assert!(a.is_invertible());

    let b = m4([
        [-4.0, 2.0, -2.0, -3.0],
        [9.0, 6.0, 2.0, 6.0],
        [0.0, -5.0, 1.0, -5.0],
        [0.0, 0.0, 0.0, 0.0],
    ]);
    assert!(fx(0.0).fuzzy_eq(b.determinant()));
    assert!(!b.is_invertible());
}

#[test]
fn matrix_invert() {
    let m = m4([
        [-5.0, 2.0, 6.0, -8.0],
        [1.0, -5.0, 1.0, 8.0],
        [7.0, 7.0, -6.0, -7.0],
        [1.0, -3.0, 7.0, 4.0],
    ]);
    let exp = m4([
        [0.21805, 0.45113, 0.24060, -0.04511],
        [-0.80827, -1.45677, -0.44361, 0.52068],
        [-0.07895, -0.22368, -0.05263, 0.19737],
        [-0.52256, -0.81391, -0.30075, 0.30639],
    ]);
    let act = m.inverse();
    assert!(fx(532.0).fuzzy_eq(m.determinant()));
    assert!(fx(-160.0).fuzzy_eq(m.cofactor(2, 3)));
    assert!(fx(-160.0 / 532.0).fuzzy_eq(act.m32));
    assert!(fx(105.0).fuzzy_eq(m.cofactor(3, 2)));
    assert!(fx(105.0 / 532.0).fuzzy_eq(act.m23));
    assert!(exp.fuzzy_eq(act));
    assert!(Matrix4::identity().fuzzy_eq(act.mul(&m)));
    assert!(Matrix4::identity().fuzzy_eq(m.mul(&act)));
}

#[test]
fn matrix_inverse_undoes_a_product() {
    let m1 = m4([
        [3.0, -9.0, 7.0, 3.0],
        [3.0, -8.0, 2.0, -9.0],
        [-4.0, 4.0, 4.0, 1.0],
        [-6.0, 5.0, -1.0, 1.0],
    ]);
    let m2 = m4([
        [8.0, 2.0, 2.0, 2.0],
        [3.0, -1.0, 7.0, 0.0],
        [7.0, 0.0, 5.0, 4.0],
        [6.0, -2.0, 0.0, 5.0],
    ]);
    let m3 = m1.mul(&m2);
    let act = m3.mul(&m2.inverse());
    assert!(m1.fuzzy_eq(act));
}

#[test]
fn matrix_translate() {
    let p = point(1.0, 2.0, 3.0);
    let t = Matrix4::translate(fx(1.0), fx(-2.0), fx(3.0));
    let res = t.mul_point(p);
    assert!(point(2.0, 0.0, 6.0).fuzzy_eq(res));

    let back = t.inverse().mul_point(res);
    assert!(p.fuzzy_eq(back));
}

#[test]
fn matrix_scale_point() {
    let p = point(1.0, 2.0, 3.0);
    let t = Matrix4::scale(fx(1.0), fx(-2.0), fx(3.0));
    let res = t.mul_point(p);
    assert!(point(1.0, -4.0, 9.0).fuzzy_eq(res));

    let back = t.inverse().mul_point(res);
    assert!(p.fuzzy_eq(back));
}

#[test]
fn matrix_scale_vector() {
    let p = vector(1.0, 2.0, 3.0);
    let t = Matrix4::scale(fx(1.0), fx(-2.0), fx(3.0));
    let res = t.mul_vector(p);
    assert!(vector(1.0, -4.0, 9.0).fuzzy_eq(res));

    let back = t.inverse().mul_vector(res);
    assert!(p.fuzzy_eq(back));
}

#[test]
fn matrix_rotations_about_each_axis() {
    let p = point(0.0, 1.0, 0.0);
    let rx = Matrix4::rotate(Rotation::X, fx(FRAC_PI_2));
    assert!(point(0.0, 0.0, 1.0).fuzzy_eq(rx.mul_point(p)));
    let rx8 = Matrix4::rotate(Rotation::X, fx(FRAC_PI_4));
    assert!(point(0.0, FRAC_1_SQRT_2, FRAC_1_SQRT_2).fuzzy_eq(rx8.mul_point(p)));
    assert!(p.fuzzy_eq(rx.inverse().mul_point(rx.mul_point(p))));

    let q = point(0.0, 0.0, 1.0);
    let ry = Matrix4::rotate(Rotation::Y, fx(FRAC_PI_2));
    assert!(point(1.0, 0.0, 0.0).fuzzy_eq(ry.mul_point(q)));
    let ry8 = Matrix4::rotate(Rotation::Y, fx(FRAC_PI_4));
    assert!(point(FRAC_1_SQRT_2, 0.0, FRAC_1_SQRT_2).fuzzy_eq(ry8.mul_point(q)));

    let rz = Matrix4::rotate(Rotation::Z, fx(FRAC_PI_2));
    assert!(point(-1.0, 0.0, 0.0).fuzzy_eq(rz.mul_point(p)));
    let rz8 = Matrix4::rotate(Rotation::Z, fx(FRAC_PI_4));
    assert!(point(-FRAC_1_SQRT_2, FRAC_1_SQRT_2, 0.0).fuzzy_eq(rz8.mul_point(p)));
}

#[test]
fn matrix_shearing_x() {
    let transform = Matrix4::shear(&vec![Shear::XY(fx(1.0))]);
    let p = point(2.0, 3.0, 4.0);
    assert!(transform.mul_point(p).fuzzy_eq(point(5.0, 3.0, 4.0)));

    let transform = Matrix4::shear(&vec![Shear::XZ(fx(1.0))]);
    let p = point(2.0, 3.0, 4.0);
    assert!(transform.mul_point(p).fuzzy_eq(point(6.0, 3.0, 4.0)));
}

#[test]
fn matrix_shearing_y() {
    let transform = Matrix4::shear(&vec![Shear::YX(fx(1.0))]);
    let p = point(2.0, 3.0, 4.0);
    assert!(transform.mul_point(p).fuzzy_eq(point(2.0, 5.0, 4.0)));

    let transform = Matrix4::shear(&vec![Shear::YZ(fx(1.0))]);
    let p = point(2.0, 3.0, 4.0);
    assert!(transform.mul_point(p).fuzzy_eq(point(2.0, 7.0, 4.0)));
}

#[test]
fn matrix_shearing_z() {
    let transform = Matrix4::shear(&vec![Shear::ZX(fx(1.0))]);
    let p = point(2.0, 3.0, 4.0);
    assert!(transform.mul_point(p).fuzzy_eq(point(2.0, 3.0, 6.0)));

    let transform = Matrix4::shear(&vec![Shear::ZY(fx(1.0))]);
    let p = point(2.0, 3.0, 4.0);
    assert!(transform.mul_point(p).fuzzy_eq(point(2.0, 3.0, 7.0)));
}

#[test]
fn matrix_transforms_in_sequence() {
    let p = point(1.0, 0.0, 1.0);
    let a = Matrix4::rotate(Rotation::X, fx(FRAC_PI_2));
    let b = Matrix4::scale(fx(5.0), fx(5.0), fx(5.0));
    let c = Matrix4::translate(fx(10.0), fx(5.0), fx(7.0));

    let p2 = a.mul_point(p);
    assert!(point(1.0, -1.0, 0.0).fuzzy_eq(p2));

    let p3 = b.mul_point(p2);
    assert!(point(5.0, -5.0, 0.0).fuzzy_eq(p3));

    let p4 = c.mul_point(p3);
    assert!(point(15.0, 0.0, 7.0).fuzzy_eq(p4));

    let transform = c.mul(&b).mul(&a);
    let p5 = transform.mul_point(p);
    assert!(point(15.0, 0.0, 7.0).fuzzy_eq(p5));
}

#[test]
fn translation_round_trip_is_exact() {
    let t = Matrix4::translate(fx(5.5), fx(-3.25), fx(70.125));
    let p = point(-12.0, 4.75, 9.5);
    let back = t.inverse().mul_point(t.mul_point(p));
    assert_eq!(back, p);
    let id = t.inverse().mul(&t);
    assert_eq!(id, Matrix4::identity());
    let id2 = t.mul(&t.inverse());
    assert_eq!(id2, Matrix4::identity());
}
