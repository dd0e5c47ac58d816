//! Positions.
//!
//! A [`Point`] is the position half of the homogeneous tuple algebra: a
//! 4-component tuple whose fourth component is always 1, stored as its three
//! free components. Point minus point is a vector; point plus vector is a
//! point; the view is the [`Vec3`] of raw component values.

use vstd::prelude::*;

use crate::fixed::Fix;
use crate::utils::FuzzyEq;
use crate::vector::{add3, fuzzy3, sub3, Vec3, Vector};

verus! {

/// A position in space; the homogeneous `w` component is fixed at 1.
#[derive(Clone, Copy, Debug, PartialEq, Eq, Structural)]
pub struct Point {
    pub x: Fix,
    pub y: Fix,
    pub z: Fix,
}

impl View for Point {
    type V = Vec3;

    open spec fn view(&self) -> Vec3 {
        Vec3 { x: self.x@, y: self.y@, z: self.z@ }
    }
}

impl Point {
    /// The point with the given coordinates.
    pub fn new(x: Fix, y: Fix, z: Fix) -> (r: Point)
        ensures
            r@ == (Vec3 { x: x@, y: y@, z: z@ }),
    {
        Point { x, y, z }
    }

    /// The origin.
    pub fn origin() -> (r: Point)
        ensures
            r@ == (Vec3 { x: 0, y: 0, z: 0 }),
    {
        Point { x: Fix::zero(), y: Fix::zero(), z: Fix::zero() }
    }

    /// Point minus point: the vector from `rhs` to `self`.
    pub fn sub(self, rhs: Point) -> (r: Vector)
        ensures
            r@ == sub3(self@, rhs@),
    {
        Vector::new(self.x.sub(rhs.x), self.y.sub(rhs.y), self.z.sub(rhs.z))
    }

    /// Point plus vector: `self` displaced by `rhs`.
    pub fn add(self, rhs: Vector) -> (r: Point)
        ensures
            r@ == add3(self@, rhs@),
    {
        Point { x: self.x.add(rhs.x), y: self.y.add(rhs.y), z: self.z.add(rhs.z) }
    }

    /// The vector with the same components (drops the `w = 1` tag).
    pub fn to_vector(self) -> (r: Vector)
        ensures
            r@ == self@,
    {
        Vector::new(self.x, self.y, self.z)
    }

    /// The point with the same components as a vector (adds the `w = 1` tag).
    pub fn from_vector(v: Vector) -> (r: Point)
        ensures
            r@ == v@,
    {
        Point { x: v.x, y: v.y, z: v.z }
    }
}

impl FuzzyEq for Point {
    open spec fn fuzzy_spec(&self, other: Self) -> bool {
        fuzzy3(self@, other@)
    }

    fn fuzzy_eq(&self, other: Self) -> (r: bool) {
        self.x.fuzzy_eq(other.x) && self.y.fuzzy_eq(other.y) && self.z.fuzzy_eq(other.z)
    }

    fn fuzzy_ne(&self, other: Self) -> (r: bool) {
        !self.fuzzy_eq(other)
    }
}

} // verus!
