//! Scene composition.
//!
//! A [`World`] aggregates bodies and lights. `intersect` collects every
//! body's hits into one re-sorted collection (concatenation, then sort, not
//! a merge). `color_at` takes the nearest forward hit and shades it with
//! the Phong model against the first light and no shadow testing; a ray
//! that misses every body yields black. Consulting only `lights[0]` is a
//! documented limitation of the model, not an oversight.

use vstd::prelude::*;

use crate::body::{body_hits_seq, body_transform, Body};
use crate::color::{Col3, Color};
use crate::intersection::{
    first_hit, lemma_first_hit_member, lemma_sort_contains, sort_by_t, Intersection,
    Intersections,
};
use crate::light::PointLight;
use crate::material::{lighting_v, ShadowState};
use crate::matrix::invertible4;
use crate::ray::Ray;

verus! {

/// Every body's transform can be inverted: what a well-formed scene
/// guarantees, and what ray casting needs.
pub open spec fn all_invertible(bodies: Seq<Body>) -> bool {
    forall|i: int| 0 <= i < bodies.len() ==> invertible4(body_transform(#[trigger] bodies[i]))
}

/// Every body's hits against a ray, in body order, each body's run sorted.
pub open spec fn world_hits_seq(bodies: Seq<Body>, r: Ray) -> Seq<Intersection>
    decreases bodies.len(),
{
    if bodies.len() == 0 {
        Seq::empty()
    } else {
        world_hits_seq(bodies.drop_last(), r) + sort_by_t(body_hits_seq(bodies.last(), r))
    }
}

/// The color seen along a ray: black on a miss, otherwise the Phong
/// shading of the nearest forward hit under the first light.
pub open spec fn world_color_v(bodies: Seq<Body>, lights: Seq<PointLight>, r: Ray) -> Col3 {
    match first_hit(sort_by_t(world_hits_seq(bodies, r))) {
        Option::None => Col3 { red: 0, green: 0, blue: 0 },
        Option::Some(h) => {
            let c = crate::intersection::computed_v(h);
            lighting_v(
                hit_material(h),
                lights[0]@,
                c.position,
                c.eye,
                c.normal,
                false,
            )
        },
    }
}

/// The material of the body a hit belongs to.
pub open spec fn hit_material(h: Intersection) -> crate::material::PhongV {
    match h.body {
        Body::Sphere(s) => s.material@,
    }
}

/// A scene: bodies to render and lights to shine on them.
pub struct World {
    pub bodies: Vec<Body>,
    pub lights: Vec<PointLight>,
}

impl World {
    /// The world holding the given bodies and lights.
    pub fn new(bodies: Vec<Body>, lights: Vec<PointLight>) -> (r: World)
        ensures
            r.bodies@ == bodies@,
            r.lights@ == lights@,
    {
        World { bodies, lights }
    }

    /// All intersections of a ray with every body, re-sorted ascending by
    /// distance across bodies.
    #[verifier::rlimit(100)]
    pub fn intersect(&self, ray: Ray) -> (xs: Intersections)
        requires
            all_invertible(self.bodies@),
        ensures
            xs@ == sort_by_t(world_hits_seq(self.bodies@, ray)),
    {
        let mut all: Vec<Intersection> = Vec::new();
        let mut i: usize = 0;
        proof {
            assert(self.bodies@.take(0) =~= Seq::<Body>::empty());
        }
        while i < self.bodies.len()
            invariant
                i <= self.bodies@.len(),
                all_invertible(self.bodies@),
                all@ == world_hits_seq(self.bodies@.take(i as int), ray),
            decreases self.bodies@.len() - i,
        {
            let body_xs = self.bodies[i].intersect(ray);
            let ghost before = all@;
            let mut j: usize = 0;
            while j < body_xs.len()
                invariant
                    j <= body_xs@.len(),
                    all@ == before + body_xs@.take(j as int),
                decreases body_xs@.len() - j,
            {
                all.push(body_xs.get(j));
                proof {
                    assert(body_xs@.take(j + 1) =~= body_xs@.take(j as int).push(
                        body_xs@[j as int],
                    ));
                    assert(before + body_xs@.take(j + 1) =~= (before + body_xs@.take(
                        j as int,
                    )).push(body_xs@[j as int]));
                }
                j = j + 1;
            }
            proof {
                assert(body_xs@.take(body_xs@.len() as int) =~= body_xs@);
                assert(self.bodies@.take(i + 1).drop_last() =~= self.bodies@.take(i as int));
                assert(self.bodies@.take(i + 1).last() == self.bodies@[i as int]);
            }
            i = i + 1;
        }
        proof {
            assert(self.bodies@.take(self.bodies@.len() as int) =~= self.bodies@);
        }
        Intersections::from_vec(all)
    }

    /// The color seen along a ray: black on a miss, otherwise the shaded
    /// nearest forward hit. The world must hold at least one light and
    /// only invertible body transforms.
    pub fn color_at(&self, ray: Ray) -> (c: Color)
        requires
            all_invertible(self.bodies@),
            self.lights@.len() >= 1,
        ensures
            c@ == world_color_v(self.bodies@, self.lights@, ray),
    {
        let xs = self.intersect(ray);
        match xs.hit() {
            Option::Some(hit) => {
                proof {
                    lemma_first_hit_member(xs@, hit);
                    lemma_sort_contains(world_hits_seq(self.bodies@, ray), hit);
                    lemma_world_hits_body(self.bodies@, ray, hit);
                }
                let comp = hit.computed();
                let material = hit.body.material();
                material.lighting(
                    &self.lights[0],
                    comp.position,
                    comp.eye,
                    comp.normal,
                    ShadowState::Clear,
                )
            },
            Option::None => Color::black(),
        }
    }
}

/// Law: intersecting equal worlds with equal rays yields equal collections.
/// `intersect` computes a function of the bodies and the ray alone, so
/// re-running it on identical inputs always returns identical records.
pub proof fn lemma_intersect_deterministic(w1: &World, w2: &World, r1: Ray, r2: Ray)
    requires
        w1.bodies@ == w2.bodies@,
        r1 == r2,
    ensures
        sort_by_t(world_hits_seq(w1.bodies@, r1)) == sort_by_t(world_hits_seq(w2.bodies@, r2)),
{
}

/// Law: shading equal worlds along equal rays yields equal colors.
/// `color_at` computes a function of the bodies, the lights and the ray
/// alone, so re-running it on identical inputs always returns the same
/// color — there is no hidden state.
pub proof fn lemma_color_at_deterministic(w1: &World, w2: &World, r1: Ray, r2: Ray)
    requires
        w1.bodies@ == w2.bodies@,
        w1.lights@ == w2.lights@,
        r1 == r2,
    ensures
        world_color_v(w1.bodies@, w1.lights@, r1) == world_color_v(w2.bodies@, w2.lights@, r2),
{
}

/// Every record a world's bodies produce names one of those bodies, so its
/// transform is invertible whenever the scene is well formed.
proof fn lemma_world_hits_body(bodies: Seq<Body>, r: Ray, y: Intersection)
    requires
        world_hits_seq(bodies, r).contains(y),
    ensures
        bodies.contains(y.body),
    decreases bodies.len(),
{
    let whole = world_hits_seq(bodies, r);
    let front = world_hits_seq(bodies.drop_last(), r);
    let back = sort_by_t(body_hits_seq(bodies.last(), r));
    let i = choose|i: int| 0 <= i < whole.len() && whole[i] == y;
    if i < front.len() {
        assert(front[i] == y);
        lemma_world_hits_body(bodies.drop_last(), r, y);
        let j = choose|j: int| 0 <= j < bodies.drop_last().len() && bodies.drop_last()[j] == y.body;
        assert(bodies[j] == y.body);
    } else {
        assert(back[i - front.len()] == y);
        lemma_sort_contains(body_hits_seq(bodies.last(), r), y);
        let s = body_hits_seq(bodies.last(), r);
        let k = choose|k: int| 0 <= k < s.len() && s[k] == y;
        match bodies.last() {
            Body::Sphere(sp) => {
                assert(s[k].body == Body::Sphere(sp));
            },
        }
        assert(bodies[bodies.len() - 1] == y.body);
    }
}

} // verus!
