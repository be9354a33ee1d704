//! A sphere, as one ray meets it.

use vstd::prelude::*;
use crate::materials::Bsdf;
use crate::objects::{Crossing, HitInfo, Interval};
use crate::scalar::Scalar;

verus! {

/// A sphere whose quadratic against one ray has been solved.
///
/// With `oc` from the ray's origin to the centre, `a` the squared length of the
/// direction, `h` the dot product of the direction with `oc` and
/// `c = |oc|^2 - r^2`, the discriminant is `h^2 - a c` and the two crossings lie
/// at `(h - sqrt(d)) / a` and `(h + sqrt(d)) / a`. The normal at a crossing points
/// from the centre to the point crossed.
#[derive(Clone, Copy, Debug)]
pub struct Sphere<'a> {
    /// `h^2 - a c`. The ray misses the sphere unless this is at least zero.
    pub discriminant: Scalar,
    /// The crossing at the root taken with the minus sign.
    pub lower: Crossing,
    /// The crossing at the root taken with the plus sign.
    pub upper: Crossing,
    pub bsdf: &'a Bsdf,
}

impl<'a> Sphere<'a> {
    /// Whether the ray's line meets the sphere at all: the discriminant is zero
    /// (the ray is tangent) or more.
    pub open spec fn reached(self) -> bool {
        (Scalar { bits: 0 }).at_most(self.discriminant)
    }

    /// The crossing at the smaller of the two roots.
    pub open spec fn nearer(self) -> Crossing {
        if self.upper.distance.below(self.lower.distance) {
            self.upper
        } else {
            self.lower
        }
    }

    /// The crossing at the larger of the two roots.
    pub open spec fn farther(self) -> Crossing {
        if self.upper.distance.below(self.lower.distance) {
            self.lower
        } else {
            self.upper
        }
    }

    /// The hit within `range`: at the smaller root if that lies in the range, else
    /// at the larger root if that does, else none.
    pub open spec fn hit_in(self, range: Interval) -> Option<HitInfo<'a>> {
        if !self.reached() {
            None
        } else if range.holds(self.nearer().distance) {
            Some(HitInfo::at(self.nearer(), self.bsdf))
        } else if range.holds(self.farther().distance) {
            Some(HitInfo::at(self.farther(), self.bsdf))
        } else {
            None
        }
    }

    pub fn new(discriminant: Scalar, lower: Crossing, upper: Crossing, bsdf: &'a Bsdf) -> (r:
        Sphere<'a>)
        ensures
            r == (Sphere { discriminant, lower, upper, bsdf }),
    {
        Sphere { discriminant, lower, upper, bsdf }
    }

    /// Where the ray hits the sphere within `range`, if it does.
    pub fn hit(&self, range: Interval) -> (r: Option<HitInfo<'a>>)
        ensures
            r == self.hit_in(range),
    {
        if !self.discriminant.ge(Scalar::zero()) {
            return None;
        }
        let swapped = self.upper.distance.lt(self.lower.distance);
        let first = if swapped {
            self.upper
        } else {
            self.lower
        };
        let second = if swapped {
            self.lower
        } else {
            self.upper
        };
        if range.contains(first.distance) {
            Some(HitInfo::from_crossing(first, self.bsdf))
        } else if range.contains(second.distance) {
            Some(HitInfo::from_crossing(second, self.bsdf))
        } else {
            None
        }
    }
}

} // verus!
