//! Rays.
//!
//! A [`Ray`] is an origin point and a direction vector. `position(t)` walks
//! `t` times the direction from the origin; `transform` maps both parts by a
//! matrix (the direction ignores translation naturally, since its `w` is 0).

use vstd::prelude::*;

use crate::fixed::Fix;
use crate::matrix::{mul4d, mul4p, Mat4V, Matrix4};
use crate::point::Point;
use crate::vector::{add3, scale3, Vec3, Vector};

verus! {

/// The mathematical value of a ray.
pub ghost struct RayV {
    pub origin: Vec3,
    pub direction: Vec3,
}

/// The point `t` times the direction away from the origin.
pub open spec fn ray_position(r: RayV, t: int) -> Vec3 {
    add3(r.origin, scale3(r.direction, t))
}

/// Both parts of the ray mapped by a matrix.
pub open spec fn ray_transform(r: RayV, m: Mat4V) -> RayV {
    RayV { origin: mul4p(m, r.origin), direction: mul4d(m, r.direction) }
}

/// An origin and a direction.
#[derive(Clone, Copy, Debug, PartialEq, Eq, Structural)]
pub struct Ray {
    pub origin: Point,
    pub direction: Vector,
}

impl View for Ray {
    type V = RayV;

    open spec fn view(&self) -> RayV {
        RayV { origin: self.origin@, direction: self.direction@ }
    }
}

impl Ray {
    /// The ray from `origin` along `direction`.
    pub fn new(origin: Point, direction: Vector) -> (r: Ray)
        ensures
            r@ == (RayV { origin: origin@, direction: direction@ }),
    {
        Ray { origin, direction }
    }

    /// The point at parameter `t` along the ray.
    pub fn position(&self, t: Fix) -> (r: Point)
        ensures
            r@ == ray_position(self@, t@),
    {
        self.origin.add(self.direction.scale(t))
    }

    /// The ray with both parts mapped by `m`.
    pub fn transform(&self, m: &Matrix4) -> (r: Ray)
        ensures
            r@ == ray_transform(self@, m@),
    {
        Ray { origin: m.mul_point(self.origin), direction: m.mul_vector(self.direction) }
    }
}

} // verus!
