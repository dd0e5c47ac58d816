//! The closed set of renderable bodies.
//!
//! [`Body`] is a tagged sum over every primitive kind, dispatched by
//! exhaustive matching so that adding a shape is a compile-time-checked
//! change. The sphere is the only kind so far.

use vstd::prelude::*;

use crate::intersection::{sort_by_t, Intersection, Intersections};
use crate::material::Material;
use crate::matrix::{invertible4, Mat4V};
use crate::point::Point;
use crate::ray::Ray;
use crate::sphere::{sphere_hits_seq, sphere_normal_v, Sphere};
use crate::utils::FuzzyEq;
use crate::vector::{Vec3, Vector};

verus! {

/// A renderable geometric primitive with a transform and a material.
#[derive(Clone, Copy, Debug, PartialEq, Eq, Structural)]
pub enum Body {
    Sphere(Sphere),
}

/// The body's affine transform.
pub open spec fn body_transform(b: Body) -> Mat4V {
    match b {
        Body::Sphere(s) => s.transform@,
    }
}

/// The intersection records a body produces for a ray, before sorting.
pub open spec fn body_hits_seq(b: Body, r: Ray) -> Seq<Intersection> {
    match b {
        Body::Sphere(s) => sphere_hits_seq(s, r),
    }
}

/// The body's world-space surface normal at a point.
pub open spec fn body_normal_v(b: Body, p: Vec3) -> Vec3 {
    match b {
        Body::Sphere(s) => sphere_normal_v(s, p),
    }
}

impl Body {
    /// The body's material.
    pub fn material(&self) -> (r: Material)
        ensures
            match *self {
                Body::Sphere(s) => r == s.material,
            },
    {
        match self {
            Body::Sphere(s) => s.material,
        }
    }

    /// Wrap a sphere.
    pub fn from_sphere(s: Sphere) -> (r: Body)
        ensures
            r == Body::Sphere(s),
    {
        Body::Sphere(s)
    }

    /// All intersections of a ray with this body, sorted by distance.
    pub fn intersect(&self, r: Ray) -> (xs: Intersections)
        requires
            invertible4(body_transform(*self)),
        ensures
            xs@ == sort_by_t(body_hits_seq(*self, r)),
    {
        match self {
            Body::Sphere(s) => s.intersect(r),
        }
    }

    /// The body's world-space surface normal at a point.
    pub fn normal_at(&self, p: Point) -> (n: Vector)
        requires
            invertible4(body_transform(*self)),
        ensures
            n@ == body_normal_v(*self, p@),
    {
        match self {
            Body::Sphere(s) => s.normal_at(p),
        }
    }
}

impl FuzzyEq for Body {
    open spec fn fuzzy_spec(&self, other: Self) -> bool {
        match *self {
            Body::Sphere(s) => match other {
                Body::Sphere(os) => s.fuzzy_spec(os),
            },
        }
    }

    fn fuzzy_eq(&self, other: Self) -> (r: bool) {
        match self {
            Body::Sphere(s) => match other {
                Body::Sphere(os) => s.fuzzy_eq(os),
            },
        }
    }

    fn fuzzy_ne(&self, other: Self) -> (r: bool) {
        !self.fuzzy_eq(other)
    }
}

} // verus!
