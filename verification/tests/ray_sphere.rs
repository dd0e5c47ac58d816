use std::f64::consts::{FRAC_1_SQRT_2, PI};

use raytracer::body::Body;
use raytracer::color::Color;
use raytracer::fixed::Fix;
use raytracer::material::{Material, Phong};
use raytracer::matrix::{Matrix4, Rotation};
use raytracer::point::Point;
use raytracer::ray::Ray;
use raytracer::sphere::Sphere;
use raytracer::utils::FuzzyEq;
use raytracer::vector::Vector;

const FRAC_1_SQRT_3: f64 = 0.57735026919;

fn fx(v: f64) -> Fix {
    Fix::from_raw((v * 1_000_000_000f64).round() as i64)
}

fn point(x: f64, y: f64, z: f64) -> Point {
    Point::new(fx(x), fx(y), fx(z))
}

fn vector(x: f64, y: f64, z: f64) -> Vector {
    Vector::new(fx(x), fx(y), fx(z))
}

#[test]
fn creating_and_querying_a_ray() {
    let origin = point(1.0, 2.0, 3.0);
    let direction = vector(4.0, 5.0, 6.0);
    let ray = Ray::new(origin, direction);
    assert!(ray.origin.fuzzy_eq(origin));
    assert!(ray.direction.fuzzy_eq(direction));
}

#[test]
fn computing_a_point_from_a_distance() {
    let ray = Ray::new(point(2.0, 3.0, 4.0), vector(1.0, 0.0, 0.0));
    assert!(ray.position(fx(0.0)).fuzzy_eq(point(2.0, 3.0, 4.0)));
    assert!(ray.position(fx(1.0)).fuzzy_eq(point(3.0, 3.0, 4.0)));
    assert!(ray.position(fx(-1.0)).fuzzy_eq(point(1.0, 3.0, 4.0)));
    assert!(ray.position(fx(2.5)).fuzzy_eq(point(4.5, 3.0, 4.0)));
}

#[test]
fn translating_a_ray() {
    let r = Ray::new(point(1.0, 2.0, 3.0), vector(0.0, 1.0, 0.0));
    let m = Matrix4::translate(fx(3.0), fx(4.0), fx(5.0));
    let r2 = r.transform(&m);
    assert!(point(4.0, 6.0, 8.0).fuzzy_eq(r2.origin));
    assert!(vector(0.0, 1.0, 0.0).fuzzy_eq(r2.direction));
}

#[test]
fn scaling_a_ray() {
    let r = Ray::new(point(1.0, 2.0, 3.0), vector(0.0, 1.0, 0.0));
    let m = Matrix4::scale(fx(2.0), fx(3.0), fx(4.0));
    let r2 = r.transform(&m);
    assert!(point(2.0, 6.0, 12.0).fuzzy_eq(r2.origin));
    assert!(vector(0.0, 3.0, 0.0).fuzzy_eq(r2.direction));
}

#[test]
fn a_ray_intersects_a_sphere_at_two_points() {
    let r = Ray::new(point(0.0, 0.0, -5.0), vector(0.0, 0.0, 1.0));
    let s = Sphere::default();
    let xs = s.intersect(r);
    assert_eq!(2, xs.len());
    assert!(fx(4.0).fuzzy_eq(xs.get(0).t));
    assert!(fx(6.0).fuzzy_eq(xs.get(1).t));
}

#[test]
fn a_ray_intersects_a_sphere_at_a_tangent() {
    let r = Ray::new(point(0.0, 1.0, -5.0), vector(0.0, 0.0, 1.0));
    let s = Sphere::default();
    let xs = s.intersect(r);
    assert_eq!(2, xs.len());
    assert!(fx(5.0).fuzzy_eq(xs.get(0).t));
    assert!(fx(5.0).fuzzy_eq(xs.get(1).t));
}

#[test]
fn a_ray_misses_a_sphere() {
    let r = Ray::new(point(0.0, 2.0, -5.0), vector(0.0, 0.0, 1.0));
    let s = Sphere::default();
    let xs = s.intersect(r);
    assert_eq!(0, xs.len());
}

#[test]
fn a_ray_originates_inside_a_sphere() {
    let r = Ray::new(point(0.0, 0.0, 0.0), vector(0.0, 0.0, 1.0));
    let s = Sphere::default();
    let xs = s.intersect(r);
    assert_eq!(2, xs.len());
    assert!(fx(-1.0).fuzzy_eq(xs.get(0).t));
    assert!(fx(1.0).fuzzy_eq(xs.get(1).t));
}

#[test]
fn hit_inside_sphere_selects_the_forward_root() {
    let r = Ray::new(point(0.0, 0.0, 0.0), vector(0.0, 0.0, 1.0));
    let s = Sphere::default();
    let xs = s.intersect(r);
    let hit = xs.hit().expect("the forward root is a hit");
    assert!(fx(1.0).fuzzy_eq(hit.t));
}

#[test]
fn a_sphere_is_behind_a_ray() {
    let r = Ray::new(point(0.0, 0.0, 5.0), vector(0.0, 0.0, 1.0));
    let s = Sphere::default();
    let xs = s.intersect(r);
    assert_eq!(2, xs.len());
    assert!(fx(-6.0).fuzzy_eq(xs.get(0).t));
    assert!(fx(-4.0).fuzzy_eq(xs.get(1).t));
}

#[test]
fn a_spheres_default_transform() {
    let s = Sphere::default();
    assert!(s.transform.fuzzy_eq(Matrix4::identity()));
}

#[test]
fn changing_a_spheres_transform() {
    let mut s = Sphere::default();
    let m = Matrix4::translate(fx(2.0), fx(3.0), fx(4.0));
    s.transform = m;
    assert!(s.transform.fuzzy_eq(m));
}

#[test]
fn intersecting_a_scaled_sphere_with_a_ray() {
    let r = Ray::new(point(0.0, 0.0, -5.0), vector(0.0, 0.0, 1.0));
    let s = Sphere::default().with_transform(Matrix4::scale(fx(2.0), fx(2.0), fx(2.0)));
    let xs = s.intersect(r);
    assert_eq!(2, xs.len());
    assert_eq!(fx(3.0), xs.get(0).t);
    assert_eq!(fx(7.0), xs.get(1).t);
}

#[test]
fn intersecting_a_translated_sphere_with_a_ray() {
    let r = Ray::new(point(0.0, 0.0, -5.0), vector(0.0, 0.0, 1.0));
    let s = Sphere::default().with_transform(Matrix4::translate(fx(5.0), fx(0.0), fx(0.0)));
    let xs = s.intersect(r);
    assert_eq!(0, xs.len());
}

#[test]
fn the_normal_on_a_sphere_at_a_point_on_the_x_axis() {
    let s = Sphere::default();
    let n = s.normal_at(point(1.0, 0.0, 0.0));
    assert!(vector(1.0, 0.0, 0.0).fuzzy_eq(n));
}

#[test]
fn the_normal_on_a_sphere_at_a_point_on_the_y_axis() {
    let s = Sphere::default();
    let n = s.normal_at(point(0.0, 1.0, 0.0));
    assert!(vector(0.0, 1.0, 0.0).fuzzy_eq(n));
}

#[test]
fn the_normal_on_a_sphere_at_a_point_on_the_z_axis() {
    let s = Sphere::default();
    let n = s.normal_at(point(0.0, 0.0, 1.0));
    assert!(vector(0.0, 0.0, 1.0).fuzzy_eq(n));
}

#[test]
fn the_normal_on_a_sphere_at_a_non_axial_point() {
    let s = Sphere::default();
    let p = point(FRAC_1_SQRT_3, FRAC_1_SQRT_3, FRAC_1_SQRT_3);
    let n = s.normal_at(p);
    assert!(vector(FRAC_1_SQRT_3, FRAC_1_SQRT_3, FRAC_1_SQRT_3).fuzzy_eq(n));
}

#[test]
fn computing_the_normal_on_a_translated_sphere() {
    let s = Sphere::default().with_transform(Matrix4::translate(fx(0.0), fx(1.0), fx(0.0)));
    let p = point(0.0, 1.70711, -0.70711);
    let n = s.normal_at(p);
    assert!(vector(0.0, 0.70711, -0.70711).fuzzy_eq(n));
}

#[test]
fn computing_the_normal_on_a_scaled_and_rotated_sphere() {
    let s = Sphere::default().with_transform(
        Matrix4::scale(fx(1.0), fx(0.5), fx(1.0)).mul(&Matrix4::rotate(Rotation::Z, fx(PI / 5.0))),
    );
    let p = point(0.0, FRAC_1_SQRT_2, -FRAC_1_SQRT_2);
    let n = s.normal_at(p);
    assert!(vector(0.0, 0.97014, -0.24254).fuzzy_eq(n));
}

#[test]
fn the_normal_vector_is_always_normalized() {
    let s = Sphere::default();
    let p = point(FRAC_1_SQRT_3, FRAC_1_SQRT_3, FRAC_1_SQRT_3);
    let n = s.normal_at(p);
    assert!(n.normalize().fuzzy_eq(n));
}

#[test]
fn the_normal_vector_is_normalized_on_transformed_sphere() {
    let s = Sphere::default().with_transform(
        Matrix4::scale(fx(1.0), fx(0.5), fx(1.0)).mul(&Matrix4::rotate(Rotation::Z, fx(PI / 5.0))),
    );
    let p = point(0.0, FRAC_1_SQRT_2, -FRAC_1_SQRT_2);
    let n = s.normal_at(p);
    assert!(n.normalize().fuzzy_eq(n));
}

#[test]
fn sphere_has_default_phong_material() {
    let s = Sphere::default();
    let m = Material::from_phong(Phong::default());
    assert!(m.fuzzy_eq(s.material));
}

#[test]
fn sphere_may_be_assigned_a_material() {
    let phong = Material::from_phong(Phong::new(
        Color::new(fx(1.0), fx(1.0), fx(0.0)),
        fx(0.05),
        fx(0.7),
        fx(0.95),
        fx(400.0),
    ));
    let s = Sphere::default().with_material(phong);
    assert!(phong.fuzzy_eq(s.material));
}

#[test]
fn intersect_twice_returns_identical_records() {
    let r = Ray::new(point(0.0, 0.0, -5.0), vector(0.0, 0.0, 1.0));
    let s = Sphere::default().with_transform(Matrix4::scale(fx(2.0), fx(1.0), fx(2.0)));
    let b = Body::from_sphere(s);
    let first = b.intersect(r);
    let second = b.intersect(r);
    assert_eq!(first.len(), second.len());
    for i in 0..first.len() {
        assert_eq!(first.get(i), second.get(i));
    }
}
