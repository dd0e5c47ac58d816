//! An offline ray tracer built on fixed-point arithmetic.
//!
//! Every scalar is a [`fixed::Fix`]: an integer count of billionths. All
//! geometry (tuple algebra, matrices, ray casting, Phong shading) is exact
//! integer arithmetic, so each operation carries a contract that pins its
//! result down to the last unit.

pub mod animator;
pub mod body;
pub mod camera;
pub mod canvas;
pub mod color;
pub mod computed_intersection;
pub mod fixed;
pub mod intersection;
pub mod light;
pub mod material;
pub mod matrix;
pub mod point;
pub mod ray;
pub mod sphere;
pub mod to_png;
pub mod to_ppm;
pub mod to_rgba;
pub mod trig;
pub mod utils;
pub mod vector;
pub mod world;

pub use fixed::Fix;
