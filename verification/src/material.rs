//! Materials and the Phong illumination model.
//!
//! `lighting` combines three contributions: ambient (always present),
//! diffuse (Lambertian, proportional to how squarely the light hits the
//! surface) and specular (the mirror highlight, sharpened by `shininess`).
//! A surface in shadow keeps only its ambient term.

use vstd::prelude::*;

use crate::color::{add_c, fuzzy_c, mul_c, scale_c, Col3, Color};
use crate::fixed::{pow_raw, rdiv, Fix, SCALE};
use crate::light::{LightV, PointLight};
use crate::point::Point;
use crate::utils::{fuzzy_raw, FuzzyEq};
use crate::vector::{dot3, neg3, normalize3, reflect3, sub3, Vec3, Vector};

verus! {

/// Whether the point being shaded is cut off from the light.
pub enum ShadowState {
    Shadow,
    Clear,
}

/// The mathematical value of a Phong material.
pub ghost struct PhongV {
    pub color: Col3,
    pub ambient: int,
    pub diffuse: int,
    pub specular: int,
    pub shininess: int,
}

/// The specular exponent: the shininess rounded to a whole number,
/// never below zero.
pub open spec fn shininess_exponent(sh: int) -> nat {
    let n = rdiv(sh, SCALE as int);
    if n >= 0 {
        n as nat
    } else {
        0
    }
}

/// The Phong illumination formula for one light at one surface point.
pub open spec fn lighting_v(
    m: PhongV,
    light: LightV,
    position: Vec3,
    eye: Vec3,
    normal: Vec3,
    shadow: bool,
) -> Col3 {
    let effective_color = mul_c(m.color, light.intensity);
    let ambient = scale_c(effective_color, m.ambient);
    let black = Col3 { red: 0, green: 0, blue: 0 };
    if shadow {
        ambient
    } else {
        let light_vector = normalize3(sub3(light.position, position));
        let light_dot_normal = dot3(light_vector, normal);
        if light_dot_normal < 0 {
            add_c(add_c(ambient, black), black)
        } else {
            let diffuse = scale_c(scale_c(effective_color, m.diffuse), light_dot_normal);
            let reflect_vector = neg3(reflect3(light_vector, normal));
            let reflect_dot_eye = dot3(reflect_vector, eye);
            if reflect_dot_eye <= 0 {
                add_c(add_c(ambient, diffuse), black)
            } else {
                let factor = pow_raw(reflect_dot_eye, shininess_exponent(m.shininess));
                let specular = scale_c(scale_c(light.intensity, m.specular), factor);
                add_c(add_c(ambient, diffuse), specular)
            }
        }
    }
}

/// Reflectance coefficients for the Phong model.
#[derive(Clone, Copy, Debug, PartialEq, Eq, Structural)]
pub struct Phong {
    pub color: Color,
    pub ambient: Fix,
    pub diffuse: Fix,
    pub specular: Fix,
    pub shininess: Fix,
}

impl View for Phong {
    type V = PhongV;

    open spec fn view(&self) -> PhongV {
        PhongV {
            color: self.color@,
            ambient: self.ambient@,
            diffuse: self.diffuse@,
            specular: self.specular@,
            shininess: self.shininess@,
        }
    }
}

impl Phong {
    /// The material with the given coefficients.
    pub fn new(color: Color, ambient: Fix, diffuse: Fix, specular: Fix, shininess: Fix) -> (r:
        Phong)
        ensures
            r@ == (PhongV {
                color: color@,
                ambient: ambient@,
                diffuse: diffuse@,
                specular: specular@,
                shininess: shininess@,
            }),
    {
        Phong { color, ambient, diffuse, specular, shininess }
    }

    /// Shade one point under one light.
    pub fn lighting(
        &self,
        light: &PointLight,
        position: Point,
        eye_vector: Vector,
        normal_vector: Vector,
        shadow_state: ShadowState,
    ) -> (r: Color)
        ensures
            r@ == lighting_v(
                self@,
                light@,
                position@,
                eye_vector@,
                normal_vector@,
                shadow_state is Shadow,
            ),
    {
        let effective_color = self.color.mul(light.intensity);
        let ambient_light = effective_color.scale(self.ambient);
        if let ShadowState::Shadow = shadow_state {
            return ambient_light;
        }
        let light_vector = light.position.sub(position).normalize();
        let black = Color::black();
        let diffuse_light: Color;
        let specular_light: Color;
        let light_dot_normal = light_vector.dot(&normal_vector);
        if light_dot_normal.lt(Fix::zero()) {
            // Light is on the other side of the surface.
            diffuse_light = black;
            specular_light = black;
        } else {
            // Light is on the side the surface normal points to.
            diffuse_light = effective_color.scale(self.diffuse).scale(light_dot_normal);
            let reflect_vector = light_vector.reflect(normal_vector).neg();
            let reflect_dot_eye = reflect_vector.dot(&eye_vector);
            if reflect_dot_eye.le(Fix::zero()) {
                specular_light = black;
            } else {
                let exp_units: i64 = self.shininess.round_units();
                let exponent: u64 = if exp_units < 0 {
                    0
                } else {
                    exp_units as u64
                };
                let factor = reflect_dot_eye.powi(exponent);
                specular_light = light.intensity.scale(self.specular).scale(factor);
            }
        }
        ambient_light.add(diffuse_light).add(specular_light)
    }

    /// The default material: white, mostly diffuse, tight highlight.
    pub fn default() -> (r: Phong)
        ensures
            r@ == (PhongV {
                color: Col3 { red: SCALE as int, green: SCALE as int, blue: SCALE as int },
                ambient: SCALE as int / 10,
                diffuse: SCALE as int * 9 / 10,
                specular: SCALE as int * 9 / 10,
                shininess: SCALE as int * 200,
            }),
    {
        let white = Color::new(Fix::one(), Fix::one(), Fix::one());
        Phong {
            color: white,
            ambient: Fix::from_raw(100_000_000),
            diffuse: Fix::from_raw(900_000_000),
            specular: Fix::from_raw(900_000_000),
            shininess: Fix::from_units(200),
        }
    }
}

impl FuzzyEq for Phong {
    open spec fn fuzzy_spec(&self, other: Self) -> bool {
        fuzzy_c(self@.color, other@.color) && fuzzy_raw(self@.ambient, other@.ambient)
            && fuzzy_raw(self@.diffuse, other@.diffuse) && fuzzy_raw(
            self@.specular,
            other@.specular,
        ) && fuzzy_raw(self@.shininess, other@.shininess)
    }

    fn fuzzy_eq(&self, other: Self) -> (r: bool) {
        self.color.fuzzy_eq(other.color) && self.ambient.fuzzy_eq(other.ambient)
            && self.diffuse.fuzzy_eq(other.diffuse) && self.specular.fuzzy_eq(other.specular)
            && self.shininess.fuzzy_eq(other.shininess)
    }

    fn fuzzy_ne(&self, other: Self) -> (r: bool) {
        !self.fuzzy_eq(other)
    }
}

/// The closed set of material kinds; Phong is the only one so far.
#[derive(Clone, Copy, Debug, PartialEq, Eq, Structural)]
pub enum Material {
    Phong(Phong),
}

impl View for Material {
    type V = PhongV;

    open spec fn view(&self) -> PhongV {
        match *self {
            Material::Phong(p) => p@,
        }
    }
}

impl Material {
    /// Wrap a Phong material.
    pub fn from_phong(p: Phong) -> (r: Material)
        ensures
            r@ == p@,
    {
        Material::Phong(p)
    }

    /// The default material kind.
    pub fn default() -> (r: Material)
        ensures
            r@ == Phong::default_v(),
    {
        Material::Phong(Phong::default())
    }

    /// Shade one point under one light, by material kind.
    pub fn lighting(
        &self,
        light: &PointLight,
        position: Point,
        eye_vector: Vector,
        normal_vector: Vector,
        shadow_state: ShadowState,
    ) -> (r: Color)
        ensures
            r@ == lighting_v(
                self@,
                light@,
                position@,
                eye_vector@,
                normal_vector@,
                shadow_state is Shadow,
            ),
    {
        match self {
            Material::Phong(p) => p.lighting(
                light,
                position,
                eye_vector,
                normal_vector,
                shadow_state,
            ),
        }
    }
}

impl Phong {
    /// The value of the default material.
    pub open spec fn default_v() -> PhongV {
        PhongV {
            color: Col3 { red: SCALE as int, green: SCALE as int, blue: SCALE as int },
            ambient: SCALE as int / 10,
            diffuse: SCALE as int * 9 / 10,
            specular: SCALE as int * 9 / 10,
            shininess: SCALE as int * 200,
        }
    }
}

impl FuzzyEq for Material {
    open spec fn fuzzy_spec(&self, other: Self) -> bool {
        fuzzy_c(self@.color, other@.color) && fuzzy_raw(self@.ambient, other@.ambient)
            && fuzzy_raw(self@.diffuse, other@.diffuse) && fuzzy_raw(
            self@.specular,
            other@.specular,
        ) && fuzzy_raw(self@.shininess, other@.shininess)
    }

    fn fuzzy_eq(&self, other: Self) -> (r: bool) {
        match (self, other) {
            (Material::Phong(p), Material::Phong(op)) => p.fuzzy_eq(op),
        }
    }

    fn fuzzy_ne(&self, other: Self) -> (r: bool) {
        !self.fuzzy_eq(other)
    }
}

} // verus!
