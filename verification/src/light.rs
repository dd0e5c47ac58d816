//! Point light sources.

use vstd::prelude::*;

use crate::color::{Col3, Color};
use crate::point::Point;
use crate::vector::Vec3;

verus! {

/// The mathematical value of a point light.
pub ghost struct LightV {
    pub position: Vec3,
    pub intensity: Col3,
}

/// A single-sample light source: a position and an intensity.
#[derive(Clone, Copy, Debug, PartialEq, Eq, Structural)]
pub struct PointLight {
    pub position: Point,
    pub intensity: Color,
}

impl View for PointLight {
    type V = LightV;

    open spec fn view(&self) -> LightV {
        LightV { position: self.position@, intensity: self.intensity@ }
    }
}

impl PointLight {
    /// The light at `position` shining with `intensity`.
    pub fn new(position: Point, intensity: Color) -> (r: PointLight)
        ensures
            r@ == (LightV { position: position@, intensity: intensity@ }),
    {
        PointLight { position, intensity }
    }
}

} // verus!
