//! Intersections and hit selection.
//!
//! An [`Intersection`] records a parametric hit distance `t`, the ray that
//! produced it and the body that was hit. An [`Intersections`] collection
//! always re-sorts its records ascending by `t` on construction — stably,
//! so records with equal `t` keep their arrival order — and `hit` picks the
//! first record with strictly positive `t` (a hit at exactly `t == 0` would
//! sit on the ray origin and is treated as a non-hit).

use vstd::assert_multisets_equal;
use vstd::prelude::*;

use crate::body::{body_normal_v, body_transform, Body};
use crate::computed_intersection::{CompV, ComputedIntersection, Orientation};
use crate::fixed::{Fix, EPSILON_RAW};
use crate::matrix::invertible4;
use crate::point::Point;
use crate::ray::{ray_position, Ray};
use crate::utils::{fuzzy_raw, FuzzyEq};
use crate::vector::{add3, dot3, neg3, scale3, Vec3};

verus! {

/// One parametric hit: the distance, the originating ray, the body hit.
#[derive(Clone, Copy, Debug, PartialEq, Eq, Structural)]
pub struct Intersection {
    pub t: Fix,
    pub ray: Ray,
    pub body: Body,
}

/// The shading geometry of an intersection: position on the ray, eye
/// vector, normal flipped to face the eye, and the epsilon-biased
/// `over_point`.
pub open spec fn computed_v(i: Intersection) -> CompV {
    let position = ray_position(i.ray@, i.t@);
    let eye = neg3(i.ray@.direction);
    let outward = body_normal_v(i.body, position);
    let inside = dot3(outward, eye) < 0;
    let normal = if inside {
        neg3(outward)
    } else {
        outward
    };
    CompV {
        position,
        over_point: add3(position, scale3(normal, EPSILON_RAW as int)),
        normal,
        eye,
        inside,
    }
}

impl Intersection {
    /// The record of a hit at distance `t`.
    pub fn new(t: Fix, ray: Ray, body: Body) -> (r: Intersection)
        ensures
            r == (Intersection { t, ray, body }),
    {
        Intersection { t, ray, body }
    }

    /// Recompute the shading geometry of this hit.
    pub fn computed(&self) -> (c: ComputedIntersection)
        requires
            invertible4(body_transform(self.body)),
        ensures
            c.intersection == *self,
            c.position@ == computed_v(*self).position,
            c.over_point@ == computed_v(*self).over_point,
            c.normal@ == computed_v(*self).normal,
            c.eye@ == computed_v(*self).eye,
            c.orientation is Inside <==> computed_v(*self).inside,
    {
        let position = self.ray.position(self.t);
        let mut normal = self.body.normal_at(position);
        let eye = self.ray.direction.neg();
        let orientation: Orientation;
        if normal.dot(&eye).lt(Fix::zero()) {
            normal = normal.neg();
            orientation = Orientation::Inside;
        } else {
            orientation = Orientation::Outside;
        }
        let over_point = position.add(normal.scale(Fix::from_raw(EPSILON_RAW)));
        ComputedIntersection::new(*self, position, over_point, normal, eye, orientation)
    }
}

impl FuzzyEq for Intersection {
    open spec fn fuzzy_spec(&self, other: Self) -> bool {
        fuzzy_raw(self.t@, other.t@) && self.body.fuzzy_spec(other.body)
    }

    fn fuzzy_eq(&self, other: Self) -> (r: bool) {
        self.t.fuzzy_eq(other.t) && self.body.fuzzy_eq(other.body)
    }

    fn fuzzy_ne(&self, other: Self) -> (r: bool) {
        !self.fuzzy_eq(other)
    }
}

/// Where a record belongs in a run sorted ascending by `t`: after every
/// record at most as far, before the first strictly farther one.
pub open spec fn insert_by_t(s: Seq<Intersection>, x: Intersection) -> Seq<Intersection>
    decreases s.len(),
{
    if s.len() == 0 {
        seq![x]
    } else if s[0].t@ <= x.t@ {
        seq![s[0]] + insert_by_t(s.drop_first(), x)
    } else {
        seq![x] + s
    }
}

/// Stable sort ascending by `t`: records inserted in arrival order.
pub open spec fn sort_by_t(s: Seq<Intersection>) -> Seq<Intersection>
    decreases s.len(),
{
    if s.len() == 0 {
        Seq::empty()
    } else {
        insert_by_t(sort_by_t(s.drop_last()), s.last())
    }
}

/// Ascending by `t`.
pub open spec fn sorted_by_t(s: Seq<Intersection>) -> bool {
    forall|i: int, j: int| 0 <= i <= j < s.len() ==> s[i].t@ <= s[j].t@
}

/// The first record with strictly positive `t`, scanning in order.
pub open spec fn first_hit(s: Seq<Intersection>) -> Option<Intersection>
    decreases s.len(),
{
    if s.len() == 0 {
        Option::None
    } else if s[0].t@ > 0 {
        Option::Some(s[0])
    } else {
        first_hit(s.drop_first())
    }
}

/// A collection of intersections, sorted ascending by `t` on construction.
pub struct Intersections {
    intersections: Vec<Intersection>,
}

impl View for Intersections {
    type V = Seq<Intersection>;

    closed spec fn view(&self) -> Seq<Intersection> {
        self.intersections@
    }
}

impl Intersections {
    /// The collection holding the given records, re-sorted ascending by
    /// `t` regardless of input order.
    pub fn from_vec(list: Vec<Intersection>) -> (r: Intersections)
        ensures
            r@ == sort_by_t(list@),
            sorted_by_t(r@),
            r@.to_multiset() == list@.to_multiset(),
    {
        proof {
            lemma_sort_by_t_sorted(list@);
            lemma_sort_by_t_multiset(list@);
        }
        let mut sorted: Vec<Intersection> = Vec::new();
        let mut i: usize = 0;
        while i < list.len()
            invariant
                i <= list@.len(),
                sorted@ == sort_by_t(list@.take(i as int)),
            decreases list@.len() - i,
        {
            sorted = insert_sorted(sorted, list[i]);
            proof {
                assert(list@.take(i + 1).drop_last() =~= list@.take(i as int));
                assert(list@.take(i + 1).last() == list@[i as int]);
            }
            i = i + 1;
        }
        proof {
            assert(list@.take(list@.len() as int) =~= list@);
        }
        Intersections { intersections: sorted }
    }

    /// The record of the nearest forward hit: the first with `t > 0`, or
    /// none when every record sits at or behind the ray origin.
    pub fn hit(&self) -> (r: Option<Intersection>)
        ensures
            r == first_hit(self@),
    {
        proof {
            assert(self@.skip(0) =~= self@);
        }
        let mut i: usize = 0;
        while i < self.intersections.len()
            invariant
                i <= self@.len(),
                first_hit(self@) == first_hit(self@.skip(i as int)),
            decreases self@.len() - i,
        {
            proof {
                assert(self@.skip(i as int)[0] == self@[i as int]);
                assert(self@.skip(i as int).drop_first() =~= self@.skip(i + 1));
            }
            if self.intersections[i].t.gt(Fix::zero()) {
                return Some(self.intersections[i]);
            }
            i = i + 1;
        }
        proof {
            assert(self@.skip(self@.len() as int) =~= Seq::<Intersection>::empty());
        }
        None
    }

    /// How many records the collection holds.
    pub fn len(&self) -> (r: usize)
        ensures
            r == self@.len(),
    {
        self.intersections.len()
    }

    /// Whether the collection holds no records.
    pub fn is_empty(&self) -> (r: bool)
        ensures
            r == (self@.len() == 0),
    {
        self.intersections.len() == 0
    }

    /// The record at position `i`.
    pub fn get(&self, i: usize) -> (r: Intersection)
        requires
            i < self@.len(),
        ensures
            r == self@[i as int],
    {
        self.intersections[i]
    }
}

/// Insert one record into an already sorted vector, after every record at
/// most as far along the ray.
fn insert_sorted(sorted: Vec<Intersection>, x: Intersection) -> (r: Vec<Intersection>)
    ensures
        r@ == insert_by_t(sorted@, x),
{
    let mut out: Vec<Intersection> = Vec::new();
    let mut i: usize = 0;
    while i < sorted.len() && sorted[i].t.le(x.t)
        invariant
            i <= sorted@.len(),
            out@ == sorted@.take(i as int),
            forall|k: int| 0 <= k < i ==> sorted@[k].t@ <= x.t@,
        decreases sorted@.len() - i,
    {
        out.push(sorted[i]);
        proof {
            assert(sorted@.take(i + 1) =~= sorted@.take(i as int).push(sorted@[i as int]));
        }
        i = i + 1;
    }
    proof {
        lemma_insert_split(sorted@, x, i as int);
    }
    out.push(x);
    let ghost split: int = i as int;
    let mut j: usize = i;
    while j < sorted.len()
        invariant
            0 <= split <= j <= sorted@.len(),
            out@ == sorted@.take(split) + seq![x] + sorted@.subrange(split, j as int),
        decreases sorted@.len() - j,
    {
        out.push(sorted[j]);
        proof {
            assert(sorted@.subrange(split, j + 1) =~= sorted@.subrange(split, j as int).push(
                sorted@[j as int],
            ));
            assert((sorted@.take(split) + seq![x] + sorted@.subrange(split, j as int)).push(
                sorted@[j as int],
            ) =~= sorted@.take(split) + seq![x] + sorted@.subrange(split, j + 1));
        }
        j = j + 1;
    }
    proof {
        assert(sorted@.subrange(split, sorted@.len() as int) =~= sorted@.skip(split));
    }
    out
}

/// Law (the collection invariant): what `insert_by_t` builds from a run
/// sorted ascending by `t` is again sorted ascending by `t`.
pub proof fn lemma_insert_by_t_sorted(s: Seq<Intersection>, x: Intersection)
    requires
        sorted_by_t(s),
    ensures
        sorted_by_t(insert_by_t(s, x)),
    decreases s.len(),
{
    if s.len() == 0 {
    } else if s[0].t@ <= x.t@ {
        let tail = s.drop_first();
        lemma_insert_by_t_sorted(tail, x);
        let rest = insert_by_t(tail, x);
        let whole = insert_by_t(s, x);
        assert forall|k: int| 1 <= k < whole.len() implies s[0].t@ <= whole[k].t@ by {
            assert(rest[k - 1] == whole[k]);
            assert(rest.contains(rest[k - 1]));
            lemma_insert_contains(tail, x, rest[k - 1]);
            if tail.contains(rest[k - 1]) {
                let j = choose|j: int| 0 <= j < tail.len() && tail[j] == rest[k - 1];
                assert(s[j + 1] == rest[k - 1]);
            }
        }
    } else {
    }
}

/// Law (the collection invariant): the sort leaves every run sorted
/// ascending by `t`.
pub proof fn lemma_sort_by_t_sorted(s: Seq<Intersection>)
    ensures
        sorted_by_t(sort_by_t(s)),
    decreases s.len(),
{
    if s.len() == 0 {
    } else {
        lemma_sort_by_t_sorted(s.drop_last());
        lemma_insert_by_t_sorted(sort_by_t(s.drop_last()), s.last());
    }
}

/// A nonempty run's records are its first record and then its tail's.
proof fn lemma_cons_multiset(r: Seq<Intersection>)
    requires
        r.len() > 0,
    ensures
        r.to_multiset() == r.drop_first().to_multiset().insert(r[0]),
{
    broadcast use vstd::seq_lib::group_to_multiset_ensures;

    assert(r.remove(0) =~= r.drop_first());
    assert(r.contains(r[0]));
    assert(r.remove(0).to_multiset() =~= r.to_multiset().remove(r[0]));
    assert_multisets_equal!(r.to_multiset(), r.drop_first().to_multiset().insert(r[0]), e => {
        assert(r.to_multiset().remove(r[0]).insert(r[0]).count(e)
            == r.to_multiset().count(e));
    });
}

/// `insert_by_t` adds exactly the new record: the records it yields are
/// the run's records plus the inserted one.
pub proof fn lemma_insert_by_t_multiset(s: Seq<Intersection>, x: Intersection)
    ensures
        insert_by_t(s, x).to_multiset() == s.to_multiset().insert(x),
    decreases s.len(),
{
    broadcast use vstd::seq_lib::group_to_multiset_ensures;

    if s.len() == 0 {
        assert(seq![x] =~= Seq::<Intersection>::empty().push(x));
        assert(insert_by_t(s, x).to_multiset() =~= s.to_multiset().insert(x));
    } else if s[0].t@ <= x.t@ {
        let tail = s.drop_first();
        lemma_insert_by_t_multiset(tail, x);
        let whole = insert_by_t(s, x);
        assert(whole.len() > 0 && whole[0] == s[0]);
        assert(whole.drop_first() =~= insert_by_t(tail, x));
        lemma_cons_multiset(whole);
        lemma_cons_multiset(s);
        assert_multisets_equal!(
            tail.to_multiset().insert(x).insert(s[0]),
            tail.to_multiset().insert(s[0]).insert(x)
        );
    } else {
        let whole = insert_by_t(s, x);
        assert(whole.len() > 0 && whole[0] == x);
        assert(whole.drop_first() =~= s);
        lemma_cons_multiset(whole);
    }
}

/// Law (the collection invariant): the sort reorders the records and
/// neither drops, changes nor invents any.
pub proof fn lemma_sort_by_t_multiset(s: Seq<Intersection>)
    ensures
        sort_by_t(s).to_multiset() == s.to_multiset(),
    decreases s.len(),
{
    broadcast use vstd::seq_lib::group_to_multiset_ensures;

    if s.len() == 0 {
    } else {
        lemma_sort_by_t_multiset(s.drop_last());
        lemma_insert_by_t_multiset(sort_by_t(s.drop_last()), s.last());
        assert(s =~= s.drop_last().push(s.last()));
        assert(s.drop_last().push(s.last()).to_multiset() =~= s.drop_last().to_multiset().insert(
            s.last(),
        ));
    }
}

/// Whatever `insert_by_t` yields was either in the run or is the new record.
pub proof fn lemma_insert_contains(s: Seq<Intersection>, x: Intersection, y: Intersection)
    requires
        insert_by_t(s, x).contains(y),
    ensures
        s.contains(y) || y == x,
    decreases s.len(),
{
    if s.len() == 0 {
        assert(insert_by_t(s, x) == seq![x]);
        assert(y == insert_by_t(s, x)[0]);
    } else if s[0].t@ <= x.t@ {
        let rest = insert_by_t(s.drop_first(), x);
        let i = choose|i: int| 0 <= i < insert_by_t(s, x).len() && insert_by_t(s, x)[i] == y;
        if i == 0 {
            assert(s[0] == y);
        } else {
            assert(rest[i - 1] == y);
            assert(rest.contains(y));
            lemma_insert_contains(s.drop_first(), x, y);
            if s.drop_first().contains(y) {
                let j = choose|j: int| 0 <= j < s.drop_first().len() && s.drop_first()[j] == y;
                assert(s[j + 1] == y);
            }
        }
    } else {
        let i = choose|i: int| 0 <= i < insert_by_t(s, x).len() && insert_by_t(s, x)[i] == y;
        if i == 0 {
            assert(y == x);
        } else {
            assert(s[i - 1] == y);
        }
    }
}

/// Whatever the sort yields was in the input.
pub proof fn lemma_sort_contains(s: Seq<Intersection>, y: Intersection)
    requires
        sort_by_t(s).contains(y),
    ensures
        s.contains(y),
    decreases s.len(),
{
    if s.len() == 0 {
    } else {
        lemma_insert_contains(sort_by_t(s.drop_last()), s.last(), y);
        if sort_by_t(s.drop_last()).contains(y) {
            lemma_sort_contains(s.drop_last(), y);
            let j = choose|j: int| 0 <= j < s.drop_last().len() && s.drop_last()[j] == y;
            assert(s[j] == y);
        } else {
            assert(s[s.len() - 1] == y);
        }
    }
}

/// A hit that `first_hit` selects is one of the records scanned.
pub proof fn lemma_first_hit_member(s: Seq<Intersection>, x: Intersection)
    requires
        first_hit(s) == Option::Some(x),
    ensures
        s.contains(x),
        x.t@ > 0,
    decreases s.len(),
{
    if s.len() == 0 {
    } else if s[0].t@ > 0 {
        assert(s[0] == x);
    } else {
        lemma_first_hit_member(s.drop_first(), x);
        let j = choose|j: int| 0 <= j < s.drop_first().len() && s.drop_first()[j] == x;
        assert(s[j + 1] == x);
    }
}

/// Scanning past every record at most `x.t` and stopping at the first
/// farther one lands exactly where `insert_by_t` places `x`.
proof fn lemma_insert_split(s: Seq<Intersection>, x: Intersection, i: int)
    requires
        0 <= i <= s.len(),
        forall|k: int| 0 <= k < i ==> s[k].t@ <= x.t@,
        i < s.len() ==> s[i].t@ > x.t@,
    ensures
        insert_by_t(s, x) == s.take(i) + seq![x] + s.skip(i),
    decreases i,
{
    if i == 0 {
        if s.len() == 0 {
            assert(insert_by_t(s, x) =~= s.take(0) + seq![x] + s.skip(0));
        } else {
            assert(insert_by_t(s, x) =~= s.take(0) + seq![x] + s.skip(0));
        }
    } else {
        let tail = s.drop_first();
        assert(forall|k: int| 0 <= k < i - 1 ==> tail[k].t@ <= x.t@);
        lemma_insert_split(tail, x, i - 1);
        assert(s.take(i) =~= seq![s[0]] + tail.take(i - 1));
        assert(s.skip(i) =~= tail.skip(i - 1));
        assert(insert_by_t(s, x) =~= s.take(i) + seq![x] + s.skip(i));
    }
}

} // verus!
