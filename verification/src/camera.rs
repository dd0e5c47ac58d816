//! The camera.
//!
//! A camera maps pixel coordinates to world-space rays. At construction it
//! derives the half-extents of its view plane (which sits at `z = -1` in
//! camera space) from the field of view and the aspect ratio, and the size
//! of one pixel in world units. `ray_for_pixel` casts through a pixel's
//! center; `look_at_from_position` builds the view transform that maps
//! world space into camera space.

use vstd::prelude::*;

use crate::fixed::{add_raw, div_raw, mul_raw, neg_raw, sat, sub_raw, Fix, SCALE};
use crate::matrix::{
    ident4v, inv4v, invertible4, mul4p, mul4v, translate4v, Mat4V, Matrix4,
};
use crate::point::Point;
use crate::ray::{Ray, RayV};
use crate::trig::{divi_raw, tan_raw};
use crate::vector::{cross3, normalize3, sub3, Vec3, Vector};

verus! {

/// The mathematical value of a camera.
pub ghost struct CamV {
    pub transform: Mat4V,
    pub hsize: int,
    pub vsize: int,
    pub field_of_view: int,
    pub half_width: int,
    pub half_height: int,
    pub pixel_size: int,
}

/// The derived view-plane extents and pixel size of a camera with the
/// given pixel grid and field of view.
pub open spec fn camera_v(hsize: int, vsize: int, field_of_view: int) -> CamV {
    let half_size = tan_raw(divi_raw(field_of_view, 2));
    let aspect_ratio = div_raw(sat(hsize * SCALE), sat(vsize * SCALE));
    let half_width = if aspect_ratio >= SCALE as int {
        half_size
    } else {
        mul_raw(half_size, aspect_ratio)
    };
    let half_height = if aspect_ratio >= SCALE as int {
        div_raw(half_size, aspect_ratio)
    } else {
        half_size
    };
    CamV {
        transform: ident4v(),
        hsize,
        vsize,
        field_of_view,
        half_width,
        half_height,
        pixel_size: div_raw(mul_raw(half_width, 2 * SCALE as int), sat(hsize * SCALE)),
    }
}

/// The ray through the center of pixel `(x, y)`: both the point on the
/// view plane and the camera origin go through the inverse view transform,
/// and the direction between them is normalized.
pub open spec fn camera_ray_v(c: CamV, x: int, y: int) -> RayV {
    let offset_x = mul_raw(add_raw(SCALE as int / 2, sat(x * SCALE)), c.pixel_size);
    let offset_y = mul_raw(add_raw(SCALE as int / 2, sat(y * SCALE)), c.pixel_size);
    let world_x = sub_raw(c.half_width, offset_x);
    let world_y = sub_raw(c.half_height, offset_y);
    let inverse_view = inv4v(c.transform);
    let wall_point = mul4p(
        inverse_view,
        Vec3 { x: world_x, y: world_y, z: -(SCALE as int) },
    );
    let ray_origin = mul4p(inverse_view, Vec3 { x: 0, y: 0, z: 0 });
    RayV { origin: ray_origin, direction: normalize3(sub3(wall_point, ray_origin)) }
}

/// The view transform of a camera placed at `from` looking at `to`:
/// an orientation built from the forward, left and true-up directions,
/// composed with a translation that moves `from` to the origin.
pub open spec fn view_transform_v(from: Vec3, to: Vec3, up: Vec3) -> Mat4V {
    let forward = normalize3(sub3(to, from));
    let left = cross3(forward, normalize3(up));
    let true_up = cross3(left, forward);
    let orientation = Mat4V {
        m00: left.x, m01: left.y, m02: left.z, m03: 0,
        m10: true_up.x, m11: true_up.y, m12: true_up.z, m13: 0,
        m20: neg_raw(forward.x), m21: neg_raw(forward.y), m22: neg_raw(forward.z), m23: 0,
        m30: 0, m31: 0, m32: 0, m33: SCALE as int,
    };
    mul4v(orientation, translate4v(neg_raw(from.x), neg_raw(from.y), neg_raw(from.z)))
}

/// A pixel grid, a field of view, and a view transform.
pub struct Camera {
    pub transform: Matrix4,
    pub vsize: usize,
    pub hsize: usize,
    pub field_of_view: Fix,
    half_width: Fix,
    half_height: Fix,
    pixel_size: Fix,
}

impl View for Camera {
    type V = CamV;

    closed spec fn view(&self) -> CamV {
        CamV {
            transform: self.transform@,
            hsize: self.hsize as int,
            vsize: self.vsize as int,
            field_of_view: self.field_of_view@,
            half_width: self.half_width@,
            half_height: self.half_height@,
            pixel_size: self.pixel_size@,
        }
    }
}

impl Camera {
    /// The camera with the given pixel grid and field of view, looking
    /// along the identity transform. The grid must have at least one pixel
    /// on each side.
    pub fn new(hsize: usize, vsize: usize, field_of_view: Fix) -> (r: Camera)
        requires
            1 <= hsize,
            1 <= vsize,
        ensures
            r@ == camera_v(hsize as int, vsize as int, field_of_view@),
    {
        let half_size = field_of_view.div_by(2).tan();
        let h_units = Fix::from_units_u64(hsize as u64);
        let v_units = Fix::from_units_u64(vsize as u64);
        proof {
            lemma_units_nonzero(hsize as int);
            lemma_units_nonzero(vsize as int);
        }
        let aspect_ratio = h_units.div(v_units);
        let half_width: Fix;
        let half_height: Fix;
        if aspect_ratio.ge(Fix::one()) {
            half_width = half_size;
            half_height = half_size.div(aspect_ratio);
        } else {
            half_width = half_size.mul(aspect_ratio);
            half_height = half_size;
        }
        let pixel_size = half_width.mul(Fix::from_units(2)).div(h_units);
        Camera {
            transform: Matrix4::identity(),
            vsize,
            hsize,
            field_of_view,
            half_width,
            half_height,
            pixel_size,
        }
    }

    /// This camera with its view transform replaced.
    pub fn with_transform(self, transform: Matrix4) -> (r: Camera)
        ensures
            r@ == (CamV { transform: transform@, ..self@ }),
    {
        Camera { transform, ..self }
    }

    /// This camera looking from `from` towards `to`, with `up` upward.
    pub fn look_at_from_position(self, from: Point, to: Point, up: Vector) -> (r: Camera)
        ensures
            r@ == (CamV { transform: view_transform_v(from@, to@, up@), ..self@ }),
    {
        let forward = to.sub(from).normalize();
        let left = forward.cross(&up.normalize());
        let true_up = left.cross(&forward);
        let zr = Fix::zero();
        let orientation = Matrix4 {
            m00: left.x, m01: left.y, m02: left.z, m03: zr,
            m10: true_up.x, m11: true_up.y, m12: true_up.z, m13: zr,
            m20: forward.x.neg(), m21: forward.y.neg(), m22: forward.z.neg(), m23: zr,
            m30: zr, m31: zr, m32: zr, m33: Fix::one(),
        };
        let translation = Matrix4::translate(from.x.neg(), from.y.neg(), from.z.neg());
        Camera { transform: orientation.mul(&translation), ..self }
    }

    /// The world-space ray through the center of pixel `(x, y)`. The view
    /// transform must be invertible.
    pub fn ray_for_pixel(&self, x: usize, y: usize) -> (r: Ray)
        requires
            invertible4(self@.transform),
        ensures
            r@ == camera_ray_v(self@, x as int, y as int),
    {
        let half = Fix::from_raw(SCALE / 2);
        let offset_x = half.add(Fix::from_units_u64(x as u64)).mul(self.pixel_size);
        let offset_y = half.add(Fix::from_units_u64(y as u64)).mul(self.pixel_size);
        let world_x = self.half_width.sub(offset_x);
        let world_y = self.half_height.sub(offset_y);
        let inverse_view_transform = self.transform.inverse();
        let wall_point = inverse_view_transform.mul_point(
            Point::new(world_x, world_y, Fix::one().neg()),
        );
        let ray_origin = inverse_view_transform.mul_point(Point::origin());
        Ray::new(ray_origin, wall_point.sub(ray_origin).normalize())
    }
}

/// At least one pixel per side keeps the scaled size away from zero.
proof fn lemma_units_nonzero(n: int)
    requires
        n >= 1,
    ensures
        sat(n * SCALE) != 0,
{
    assert(n * SCALE >= SCALE) by (nonlinear_arith)
        requires
            n >= 1,
    ;
}

} // verus!
