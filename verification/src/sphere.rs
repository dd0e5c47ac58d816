//! The unit sphere.
//!
//! A [`Sphere`] is always the unit sphere at the origin in its own object
//! space; world-space size, position and orientation come entirely from its
//! affine `transform`. Intersection solves the quadratic `|O + tD|^2 = 1`
//! in object space; a negative discriminant means a miss, and a tangent ray
//! yields the same root twice. The normal maps back to world space through
//! the inverse transpose and is then renormalized.

use vstd::prelude::*;

use crate::body::Body;
use crate::fixed::{
    add_raw, div_raw, fixv, mul_raw, neg_raw, sub_raw, Fix, SCALE,
};
use crate::intersection::{sort_by_t, Intersection, Intersections};
use crate::material::Material;
use crate::matrix::{
    inv4v, invertible4, mul4d, mul4p, transpose4v, Matrix4,
};
use crate::point::Point;
use crate::ray::{ray_transform, Ray, RayV};
use crate::trig::sqrt_raw;
use crate::utils::FuzzyEq;
use crate::vector::{dot3, normalize3, sub3, Vec3, Vector};

verus! {

/// A unit sphere carrying an affine transform and a material.
#[derive(Clone, Copy, Debug, PartialEq, Eq, Structural)]
pub struct Sphere {
    pub transform: Matrix4,
    pub material: Material,
}

/// The parametric hit distances of a ray against a sphere: empty on a
/// negative discriminant (and on a degenerate object-space direction),
/// otherwise the two quadratic roots, smaller first.
pub open spec fn sphere_hit_ts(s: Sphere, r: RayV) -> Seq<int> {
    let or = ray_transform(r, inv4v(s.transform@));
    let sphere_to_ray = sub3(or.origin, Vec3 { x: 0, y: 0, z: 0 });
    let a = dot3(or.direction, or.direction);
    let b = mul_raw(2 * SCALE as int, dot3(or.direction, sphere_to_ray));
    let c = sub_raw(dot3(sphere_to_ray, sphere_to_ray), SCALE as int);
    let disc = sub_raw(mul_raw(b, b), mul_raw(4 * SCALE as int, mul_raw(a, c)));
    if disc < 0 || a == 0 {
        Seq::empty()
    } else {
        let sq = sqrt_raw(disc);
        let t1 = div_raw(sub_raw(neg_raw(b), sq), mul_raw(2 * SCALE as int, a));
        let t2 = div_raw(add_raw(neg_raw(b), sq), mul_raw(2 * SCALE as int, a));
        seq![t1, t2]
    }
}

/// The intersection records a sphere produces for a ray, before sorting.
pub open spec fn sphere_hits_seq(s: Sphere, r: Ray) -> Seq<Intersection> {
    sphere_hit_ts(s, r@).map(|idx: int, t: int| Intersection {
        t: fixv(t),
        ray: r,
        body: Body::Sphere(s),
    })
}

/// The world-space surface normal of a sphere at a point: the object-space
/// position doubles as the object-space normal, which returns to world
/// space through the inverse transpose and is renormalized.
pub open spec fn sphere_normal_v(s: Sphere, p: Vec3) -> Vec3 {
    let tinv = inv4v(s.transform@);
    let object_point = mul4p(tinv, p);
    let object_normal = normalize3(sub3(object_point, Vec3 { x: 0, y: 0, z: 0 }));
    let world_normal = mul4d(transpose4v(tinv), object_normal);
    normalize3(world_normal)
}

impl Sphere {
    /// The unit sphere with the identity transform and default material.
    pub fn default() -> (r: Sphere)
        ensures
            r.transform@ == crate::matrix::ident4v(),
            r.material@ == crate::material::Phong::default_v(),
    {
        Sphere { transform: Matrix4::identity(), material: Material::default() }
    }

    /// This sphere with its transform replaced.
    pub fn with_transform(self, transform: Matrix4) -> (r: Sphere)
        ensures
            r.transform == transform,
            r.material == self.material,
    {
        Sphere { transform, material: self.material }
    }

    /// This sphere with its material replaced.
    pub fn with_material(self, material: Material) -> (r: Sphere)
        ensures
            r.material == material,
            r.transform == self.transform,
    {
        Sphere { transform: self.transform, material }
    }

    /// All intersections of a ray with this sphere, sorted by distance.
    /// The sphere's transform must be invertible (a singular transform in
    /// a scene is a programming error).
    #[verifier::rlimit(60)]
    pub fn intersect(&self, r: Ray) -> (xs: Intersections)
        requires
            invertible4(self.transform@),
        ensures
            xs@ == sort_by_t(sphere_hits_seq(*self, r)),
    {
        let object_space_ray = r.transform(&self.transform.inverse());
        let sphere_to_ray = object_space_ray.origin.sub(Point::origin());
        let a = object_space_ray.direction.dot(&object_space_ray.direction);
        let b = Fix::from_units(2).mul(object_space_ray.direction.dot(&sphere_to_ray));
        let c = sphere_to_ray.dot(&sphere_to_ray).sub(Fix::one());
        let disc = b.mul(b).sub(Fix::from_units(4).mul(a.mul(c)));
        if disc.lt(Fix::zero()) || a.raw == 0 {
            let empty: Vec<Intersection> = Vec::new();
            proof {
                assert(sphere_hits_seq(*self, r) =~= Seq::<Intersection>::empty());
                assert(empty@ =~= Seq::<Intersection>::empty());
            }
            Intersections::from_vec(empty)
        } else {
            let sq = disc.sqrt();
            let two_a = Fix::from_units(2).mul(a);
            proof {
                lemma_double_nonzero(a@);
            }
            let t1 = b.neg().sub(sq).div(two_a);
            let t2 = b.neg().add(sq).div(two_a);
            let body = Body::Sphere(*self);
            let mut list: Vec<Intersection> = Vec::new();
            list.push(Intersection::new(t1, r, body));
            list.push(Intersection::new(t2, r, body));
            proof {
                crate::fixed::lemma_sat_range(t1@);
                crate::fixed::lemma_sat_range(t2@);
                assert(list@ =~= sphere_hits_seq(*self, r));
            }
            Intersections::from_vec(list)
        }
    }

    /// The world-space surface normal at a point on the sphere.
    pub fn normal_at(&self, p: Point) -> (n: Vector)
        requires
            invertible4(self.transform@),
        ensures
            n@ == sphere_normal_v(*self, p@),
    {
        let t_inv = self.transform.inverse();
        let object_point = t_inv.mul_point(p);
        let object_normal = object_point.sub(Point::origin()).normalize();
        let world_normal = t_inv.transpose().mul_vector(object_normal);
        world_normal.normalize()
    }
}

/// Doubling a nonzero scaled value keeps it nonzero: `2 * 1` rescales to an
/// exact doubling, which saturates only at full magnitude.
proof fn lemma_double_nonzero(a: int)
    requires
        a != 0,
        -(crate::fixed::FIX_MAX as int) <= a <= crate::fixed::FIX_MAX as int,
    ensures
        mul_raw(2 * SCALE as int, a) != 0,
{
    let p = 2 * SCALE as int * a;
    let s = SCALE as int;
    if a > 0 {
        assert((p + s / 2) / s == 2 * a) by (nonlinear_arith)
            requires
                p == 2 * s * a,
                s == 1_000_000_000,
                a > 0,
        ;
    } else {
        assert(((-p) + s / 2) / s == 2 * (-a)) by (nonlinear_arith)
            requires
                p == 2 * s * a,
                s == 1_000_000_000,
                a < 0,
        ;
    }
}

impl FuzzyEq for Sphere {
    open spec fn fuzzy_spec(&self, other: Self) -> bool {
        crate::matrix::fuzzy4(self.transform@, other.transform@)
    }

    fn fuzzy_eq(&self, other: Self) -> (r: bool) {
        self.transform.fuzzy_eq(other.transform)
    }

    fn fuzzy_ne(&self, other: Self) -> (r: bool) {
        !self.fuzzy_eq(other)
    }
}

} // verus!
