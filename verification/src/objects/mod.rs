//! What a ray meets.
//!
//! Intersecting a ray with a primitive takes arithmetic and decisions. The
//! arithmetic (solving for the distances at which the ray crosses the surface,
//! and the surface normal there) is done before the values reach this module.
//! The decisions are made here: which crossing counts within the distances
//! searched, which way the normal is turned, and which of many primitives is
//! met first.

use vstd::prelude::*;
use crate::materials::Bsdf;
use crate::scalar::Scalar;
use crate::vector::Vec3;
use crate::objects::plane::Plane;
use crate::objects::sphere::Sphere;

pub mod list;
pub mod plane;
pub mod sphere;

verus! {

/// The distances along a ray at which a hit counts: those strictly between
/// `start` and `end`.
///
/// The start is left out so that a ray leaving a surface does not hit that same
/// surface again at distance zero. The end is left out so that, of two
/// primitives at one distance, the one searched first is kept.
#[derive(Clone, Copy, Debug, PartialEq, Eq, Structural)]
pub struct Interval {
    pub start: Scalar,
    pub end: Scalar,
}

impl Interval {
    /// Whether `t` lies in the interval. A NaN lies in none.
    pub open spec fn holds(self, t: Scalar) -> bool {
        self.start.below(t) && t.below(self.end)
    }

    /// The interval from the same start up to `end`.
    pub open spec fn until(self, end: Scalar) -> Interval {
        Interval { start: self.start, end }
    }

    pub fn new(start: Scalar, end: Scalar) -> (r: Interval)
        ensures
            r == (Interval { start, end }),
    {
        Interval { start, end }
    }

    pub fn contains(&self, t: Scalar) -> (r: bool)
        ensures
            r == self.holds(t),
    {
        t.gt(self.start) && self.end.gt(t)
    }
}

/// One place where a ray crosses the surface of a primitive.
#[derive(Clone, Copy, Debug, PartialEq, Eq, Structural)]
pub struct Crossing {
    /// The distance along the ray.
    pub distance: Scalar,
    /// The unit normal of the surface there, as the primitive's geometry gives it.
    pub normal: Vec3,
    /// The dot product of the ray's direction with `normal`.
    pub facing: Scalar,
}

/// A ray's meeting with a surface.
#[derive(Clone, Copy, Debug)]
pub struct HitInfo<'a> {
    /// The distance along the ray, greater than the start of the interval searched.
    pub distance: Scalar,
    /// The unit normal, turned against the incoming ray.
    pub normal: Vec3,
    /// Whether the geometric normal was against the ray before it was turned:
    /// the ray came from outside.
    pub front_face: bool,
    /// The material of the surface.
    pub bsdf: &'a Bsdf,
}

impl<'a> HitInfo<'a> {
    /// The hit after its normal is turned against a ray whose direction has the
    /// dot product `facing` with it.
    pub open spec fn corrected(self, facing: Scalar) -> HitInfo<'a> {
        let front = facing.below(Scalar { bits: 0 });
        HitInfo {
            distance: self.distance,
            normal: if front {
                self.normal
            } else {
                self.normal.negated()
            },
            front_face: front,
            bsdf: self.bsdf,
        }
    }

    /// The hit at `crossing`, on a surface of material `bsdf`, with the normal
    /// turned against the ray.
    pub open spec fn at(crossing: Crossing, bsdf: &'a Bsdf) -> HitInfo<'a> {
        (HitInfo { distance: crossing.distance, normal: crossing.normal, front_face: false, bsdf })
            .corrected(crossing.facing)
    }

    /// Turns the normal against the incoming ray and records whether it had to be
    /// turned. `facing` is the dot product of the ray's direction with
    /// `self.normal`.
    ///
    /// The hit is a front face when `facing < 0`; otherwise (a NaN included) the
    /// normal is negated. Distance and material are kept.
    pub fn correct_normal(self, facing: Scalar) -> (r: HitInfo<'a>)
        ensures
            r == self.corrected(facing),
    {
        let front = facing.lt(Scalar::zero());
        HitInfo {
            distance: self.distance,
            normal: if front {
                self.normal
            } else {
                self.normal.neg()
            },
            front_face: front,
            bsdf: self.bsdf,
        }
    }

    /// The hit at `crossing` on a surface of material `bsdf`.
    pub fn from_crossing(crossing: Crossing, bsdf: &'a Bsdf) -> (r: HitInfo<'a>)
        ensures
            r == HitInfo::at(crossing, bsdf),
    {
        let raw = HitInfo {
            distance: crossing.distance,
            normal: crossing.normal,
            front_face: false,
            bsdf,
        };
        raw.correct_normal(crossing.facing)
    }
}

/// A primitive of the scene, as one ray meets it.
#[derive(Clone, Copy, Debug)]
pub enum Object<'a> {
    Sphere(Sphere<'a>),
    Plane(Plane<'a>),
}

impl<'a> Object<'a> {
    /// The hit of the primitive within `range`.
    pub open spec fn hit_in(self, range: Interval) -> Option<HitInfo<'a>> {
        match self {
            Object::Sphere(sphere) => sphere.hit_in(range),
            Object::Plane(plane) => plane.hit_in(range),
        }
    }

    /// Where the ray hits the primitive within `range`, if it does.
    pub fn hit(&self, range: Interval) -> (r: Option<HitInfo<'a>>)
        ensures
            r == self.hit_in(range),
            r matches Some(h) ==> range.holds(h.distance),
    {
        match self {
            Object::Sphere(sphere) => sphere.hit(range),
            Object::Plane(plane) => plane.hit(range),
        }
    }
}

/// A hit lies within the distances searched; so its distance is a number, and
/// greater than the start.
pub proof fn lemma_hit_within_range(object: Object, range: Interval)
    ensures
        object.hit_in(range) matches Some(h) ==> range.holds(h.distance),
{
}

/// To search a primitive up to a nearer end changes nothing but to drop a hit
/// that lies at that end or beyond it.
pub proof fn lemma_hit_clipped(object: Object, range: Interval, end: Scalar)
    requires
        end == range.end || end.at_most(range.end),
    ensures
        object.hit_in(range.until(end)) == (match object.hit_in(range) {
            Some(h) => if h.distance.below(end) {
                Some(h)
            } else {
                None
            },
            None => None,
        }),
{
}

/// Normal orientation. After correction the normal faces the incoming ray: its
/// dot product with the ray's direction is at most zero.
///
/// `along` stands for the dot product with the direction of the ray, as a
/// function of the normal. Of it the law asks what holds of a dot product in
/// IEEE 754 arithmetic: to negate the normal negates each of the three
/// products, and so their sum. The law holds wherever the dot product is a
/// number; where it is a NaN, no normal faces the ray.
pub proof fn lemma_normal_faces_ray(hit: HitInfo, along: spec_fn(Vec3) -> Scalar)
    requires
        !along(hit.normal).nan(),
        !along(hit.normal.negated()).nan(),
        along(hit.normal.negated()).scaled() == -along(hit.normal).scaled(),
    ensures
        along(hit.corrected(along(hit.normal)).normal).at_most(Scalar { bits: 0 }),
        hit.corrected(along(hit.normal)).front_face == along(hit.normal).below(Scalar { bits: 0 }),
{
    let zero = Scalar { bits: 0 };
    assert(zero.scaled() == 0);
}

} // verus!
