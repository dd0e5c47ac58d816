//! Shading geometry derived from an intersection.
//!
//! A [`ComputedIntersection`] is the ephemeral record built from an
//! [`crate::intersection::Intersection`] on demand: the hit position, the
//! eye vector (the reversed ray direction), the surface normal flipped to
//! face the eye when the hit is from inside the body, and an `over_point`
//! nudged off the surface by a small epsilon so that future shadow rays do
//! not immediately re-hit it.

use vstd::prelude::*;

use crate::intersection::Intersection;
use crate::point::Point;
use crate::vector::{Vec3, Vector};

verus! {

/// Whether the ray hit the body from inside or outside.
#[derive(Clone, Copy, Debug, PartialEq, Eq, Structural)]
pub enum Orientation {
    Inside,
    Outside,
}

/// The mathematical value of the shading geometry.
pub ghost struct CompV {
    pub position: Vec3,
    pub over_point: Vec3,
    pub normal: Vec3,
    pub eye: Vec3,
    pub inside: bool,
}

/// The shading geometry of one intersection.
#[derive(Clone, Copy, Debug)]
pub struct ComputedIntersection {
    pub intersection: Intersection,
    pub position: Point,
    pub over_point: Point,
    pub normal: Vector,
    pub eye: Vector,
    pub orientation: Orientation,
}

impl ComputedIntersection {
    /// Bundle the pieces of shading geometry.
    pub fn new(
        intersection: Intersection,
        position: Point,
        over_point: Point,
        normal: Vector,
        eye: Vector,
        orientation: Orientation,
    ) -> (r: ComputedIntersection)
        ensures
            r.intersection == intersection,
            r.position == position,
            r.over_point == over_point,
            r.normal == normal,
            r.eye == eye,
            r.orientation == orientation,
    {
        ComputedIntersection { intersection, position, over_point, normal, eye, orientation }
    }
}

} // verus!
