use std::f64::consts::FRAC_1_SQRT_2;

use raytracer::body::Body;
use raytracer::color::Color;
use raytracer::computed_intersection::Orientation;
use raytracer::fixed::Fix;
use raytracer::intersection::{Intersection, Intersections};
use raytracer::light::PointLight;
use raytracer::material::{Phong, ShadowState};
use raytracer::point::Point;
use raytracer::ray::Ray;
use raytracer::sphere::Sphere;
use raytracer::utils::FuzzyEq;
use raytracer::vector::Vector;

fn fx(v: f64) -> Fix {
    Fix::from_raw((v * 1_000_000_000f64).round() as i64)
}

fn point(x: f64, y: f64, z: f64) -> Point {
    Point::new(fx(x), fx(y), fx(z))
}

fn vector(x: f64, y: f64, z: f64) -> Vector {
    Vector::new(fx(x), fx(y), fx(z))
}

fn color(r: f64, g: f64, b: f64) -> Color {
    Color::new(fx(r), fx(g), fx(b))
}

#[test]
fn intersection_encapsulates_t_and_body() {
    let b = Body::from_sphere(Sphere::default());
    let r = Ray::new(point(0.0, 0.0, -5.0), vector(0.0, 0.0, 1.0));
    let i = Intersection::new(fx(3.5), r, b);
    assert!(fx(3.5).fuzzy_eq(i.t));
    assert!(b.fuzzy_eq(i.body));
}

#[test]
fn the_hit_when_all_intersections_have_positive_t() {
    let b = Body::from_sphere(Sphere::default());
    let r = Ray::new(point(0.0, 0.0, -5.0), vector(0.0, 0.0, 1.0));
    let i1 = Intersection::new(fx(1.0), r, b);
    let i2 = Intersection::new(fx(2.0), r, b);
    let xs = Intersections::from_vec(vec![i2, i1]);
    assert!(xs.hit().fuzzy_eq(Some(i1)));
}

#[test]
fn the_hit_when_some_intersections_have_negative_t() {
    let b = Body::from_sphere(Sphere::default());
    let r = Ray::new(point(0.0, 0.0, -5.0), vector(0.0, 0.0, 1.0));
    let i1 = Intersection::new(fx(-1.0), r, b);
    let i2 = Intersection::new(fx(1.0), r, b);
    let xs = Intersections::from_vec(vec![i2, i1]);
    assert!(xs.hit().fuzzy_eq(Some(i2)));
}

#[test]
fn the_hit_when_all_intersections_have_negative_t() {
    let b = Body::from_sphere(Sphere::default());
    let r = Ray::new(point(0.0, 0.0, -5.0), vector(0.0, 0.0, 1.0));
    let i1 = Intersection::new(fx(-2.0), r, b);
    let i2 = Intersection::new(fx(-1.0), r, b);
    let xs = Intersections::from_vec(vec![i2, i1]);
    let exp: Option<Intersection> = None;
    assert!(xs.hit().fuzzy_eq(exp));
}

#[test]
fn precomputing_the_state_of_an_intersection() {
    let r = Ray::new(point(0.0, 0.0, -5.0), vector(0.0, 0.0, 1.0));
    let body = Body::from_sphere(Sphere::default());
    let i = Intersection::new(fx(4.0), r, body);
    let c = i.computed();
    assert!(i.fuzzy_eq(c.intersection));
    assert!(point(0.0, 0.0, -1.0).fuzzy_eq(c.position));
    assert!(vector(0.0, 0.0, -1.0).fuzzy_eq(c.eye));
    assert!(vector(0.0, 0.0, -1.0).fuzzy_eq(c.normal));
}

#[test]
fn the_hit_when_an_intersection_occurs_on_the_outside() {
    let r = Ray::new(point(0.0, 0.0, -5.0), vector(0.0, 0.0, 1.0));
    let body = Body::from_sphere(Sphere::default());
    let i = Intersection::new(fx(4.0), r, body);
    let c = i.computed();
    assert_eq!(Orientation::Outside, c.orientation);
}

#[test]
fn the_hit_when_an_intersection_occurs_on_the_inside() {
    let r = Ray::new(point(0.0, 0.0, 0.0), vector(0.0, 0.0, 1.0));
    let body = Body::from_sphere(Sphere::default());
    let i = Intersection::new(fx(1.0), r, body);
    let c = i.computed();
    assert_eq!(Orientation::Inside, c.orientation);
    assert!(vector(0.0, 0.0, -1.0).fuzzy_eq(c.normal));
}

#[test]
fn the_over_point_sits_off_the_surface() {
    let r = Ray::new(point(0.0, 0.0, -5.0), vector(0.0, 0.0, 1.0));
    let body = Body::from_sphere(Sphere::default());
    let i = Intersection::new(fx(4.0), r, body);
    let c = i.computed();
    assert!(c.over_point.z.lt(c.position.z));
    assert_eq!(c.over_point.z, c.position.z.add(fx(-0.00001)));
}

#[test]
fn default_phong_material() {
    let m = Phong::default();
    assert!(color(1.0, 1.0, 1.0).fuzzy_eq(m.color));
    assert!(fx(0.1).fuzzy_eq(m.ambient));
    assert!(fx(0.9).fuzzy_eq(m.diffuse));
    assert!(fx(0.9).fuzzy_eq(m.specular));
    assert!(fx(200.0).fuzzy_eq(m.shininess));
}

#[test]
fn phong_material_can_be_constructed_with_properties() {
    let d = Phong::default();
    let m = Phong::new(d.color, fx(0.2), fx(1.0), fx(0.7), d.shininess);
    assert!(color(1.0, 1.0, 1.0).fuzzy_eq(m.color));
    assert!(fx(0.2).fuzzy_eq(m.ambient));
    assert!(fx(1.0).fuzzy_eq(m.diffuse));
    assert!(fx(0.7).fuzzy_eq(m.specular));
    assert!(fx(200.0).fuzzy_eq(m.shininess));
}

#[test]
fn lighting_with_the_eye_between_the_light_and_the_surface() {
    let m = Phong::default();
    let position = point(0.0, 0.0, 0.0);
    let eye = vector(0.0, 0.0, -1.0);
    let normal = vector(0.0, 0.0, -1.0);
    let light = PointLight::new(point(0.0, 0.0, -10.0), color(1.0, 1.0, 1.0));
    let res = m.lighting(&light, position, eye, normal, ShadowState::Clear);
    assert!(color(1.9, 1.9, 1.9).fuzzy_eq(res));
}

#[test]
fn lighting_with_the_eye_between_the_light_and_the_surface_eye_offset_by_45_degrees() {
    let m = Phong::default();
    let position = point(0.0, 0.0, 0.0);
    let eye = vector(0.0, FRAC_1_SQRT_2, -FRAC_1_SQRT_2);
    let normal = vector(0.0, 0.0, -1.0);
    let light = PointLight::new(point(0.0, 0.0, -10.0), color(1.0, 1.0, 1.0));
    let res = m.lighting(&light, position, eye, normal, ShadowState::Clear);
    assert!(color(1.0, 1.0, 1.0).fuzzy_eq(res));
}

#[test]
fn lighting_with_the_eye_opposite_surface_light_offset_by_45_degrees() {
    let m = Phong::default();
    let position = point(0.0, 0.0, 0.0);
    let eye = vector(0.0, 0.0, -1.0);
    let normal = vector(0.0, 0.0, -1.0);
    let light = PointLight::new(point(0.0, 10.0, -10.0), color(1.0, 1.0, 1.0));
    let actual_result = m.lighting(&light, position, eye, normal, ShadowState::Clear);
    assert!(color(0.7364, 0.7364, 0.7364).fuzzy_eq(actual_result));
}

#[test]
fn lighting_with_the_eye_in_path_of_the_reflection_vector() {
    let m = Phong::default();
    let position = point(0.0, 0.0, 0.0);
    let eye = vector(0.0, -FRAC_1_SQRT_2, -FRAC_1_SQRT_2);
    let normal = vector(0.0, 0.0, -1.0);
    let light = PointLight::new(point(0.0, 10.0, -10.0), color(1.0, 1.0, 1.0));
    let actual_result = m.lighting(&light, position, eye, normal, ShadowState::Clear);
    assert!(color(1.6364, 1.6364, 1.6364).fuzzy_eq(actual_result));
}

#[test]
fn lighting_with_light_behind_the_surface() {
    let m = Phong::default();
    let position = point(0.0, 0.0, 0.0);
    let eye = vector(0.0, 0.0, -1.0);
    let normal = vector(0.0, 0.0, -1.0);
    let light = PointLight::new(point(0.0, 0.0, 10.0), color(1.0, 1.0, 1.0));
    let actual_result = m.lighting(&light, position, eye, normal, ShadowState::Clear);
    assert!(actual_result.fuzzy_eq(color(0.1, 0.1, 0.1)));
}

#[test]
fn lighting_with_surface_in_shadow() {
    let d = Phong::default();
    let m = Phong::new(d.color, fx(0.22), d.diffuse, d.specular, d.shininess);
    let position = point(0.0, 0.0, 0.0);
    let eye = vector(0.0, 0.0, -1.0);
    let normal = vector(0.0, 0.0, -1.0);
    let light = PointLight::new(point(0.0, 0.0, -10.0), color(1.0, 1.0, 1.0));
    let res = m.lighting(&light, position, eye, normal, ShadowState::Shadow);
    assert!(color(0.22, 0.22, 0.22).fuzzy_eq(res));
}

#[test]
fn from_vec_sorts_records_ascending_by_t() {
    let b = Body::from_sphere(Sphere::default());
    let r = Ray::new(point(0.0, 0.0, -5.0), vector(0.0, 0.0, 1.0));
    let list = vec![
        Intersection::new(fx(5.0), r, b),
        Intersection::new(fx(-3.0), r, b),
        Intersection::new(fx(2.0), r, b),
        Intersection::new(fx(2.0), r, b),
        Intersection::new(fx(-7.5), r, b),
    ];
    let xs = Intersections::from_vec(list);
    assert_eq!(5, xs.len());
    assert!(!xs.is_empty());
    for i in 0..4 {
        assert!(xs.get(i).t.le(xs.get(i + 1).t));
    }
    assert_eq!(fx(-7.5), xs.get(0).t);
    assert_eq!(fx(5.0), xs.get(4).t);
}
