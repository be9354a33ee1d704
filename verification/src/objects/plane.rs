//! An unbounded plane, as one ray meets it.

use vstd::prelude::*;
use crate::materials::Bsdf;
use crate::objects::{Crossing, HitInfo, Interval};
use crate::scalar::Scalar;
use crate::vector::Vec3;

verus! {

/// The encoding of `0.0001`, the least denominator at which a ray still counts
/// as crossing a plane.
pub const PARALLEL_LIMIT_BITS: u32 = 0x38d1_b717;

/// A plane whose crossing with one ray has been solved.
///
/// With `n` the plane's normal, `p` a point of the plane, `o` the ray's origin
/// and `d` its direction, the denominator is `n . d` and the crossing lies at
/// `((p - o) . n) / (n . d)`.
#[derive(Clone, Copy, Debug)]
pub struct Plane<'a> {
    /// `n . d`. The ray is taken to run beside the plane, or away from the side
    /// that can be seen, unless this is more than `0.0001`.
    pub denominator: Scalar,
    /// The distance along the ray at which it crosses the plane.
    pub distance: Scalar,
    /// The plane's normal `n`, as stored.
    pub normal: Vec3,
    /// The dot product of the ray's direction with `-n`.
    pub facing: Scalar,
    pub bsdf: &'a Bsdf,
}

impl<'a> Plane<'a> {
    /// Whether the ray runs toward the plane steeply enough to cross it.
    pub open spec fn reached(self) -> bool {
        !self.denominator.at_most(Scalar { bits: PARALLEL_LIMIT_BITS })
    }

    /// The one crossing. Its normal starts out as the opposite of the stored
    /// normal: a ray that reaches the plane runs along the stored normal, so it
    /// sees the other side.
    pub open spec fn crossing(self) -> Crossing {
        Crossing { distance: self.distance, normal: self.normal.negated(), facing: self.facing }
    }

    /// The hit within `range`: at the crossing if the ray reaches the plane and
    /// the crossing lies in the range, else none.
    pub open spec fn hit_in(self, range: Interval) -> Option<HitInfo<'a>> {
        if self.reached() && range.holds(self.distance) {
            Some(HitInfo::at(self.crossing(), self.bsdf))
        } else {
            None
        }
    }

    pub fn new(
        denominator: Scalar,
        distance: Scalar,
        normal: Vec3,
        facing: Scalar,
        bsdf: &'a Bsdf,
    ) -> (r: Plane<'a>)
        ensures
            r == (Plane { denominator, distance, normal, facing, bsdf }),
    {
        Plane { denominator, distance, normal, facing, bsdf }
    }

    /// Where the ray hits the plane within `range`, if it does.
    pub fn hit(&self, range: Interval) -> (r: Option<HitInfo<'a>>)
        ensures
            r == self.hit_in(range),
    {
        if self.denominator.le(Scalar::from_bits(PARALLEL_LIMIT_BITS)) {
            return None;
        }
        if range.contains(self.distance) {
            let crossing = Crossing {
                distance: self.distance,
                normal: self.normal.neg(),
                facing: self.facing,
            };
            Some(HitInfo::from_crossing(crossing, self.bsdf))
        } else {
            None
        }
    }
}

} // verus!
