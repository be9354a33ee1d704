//! The scene as one ray meets it: the nearest of many primitives.

use vstd::prelude::*;
use crate::objects::{lemma_hit_clipped, HitInfo, Interval, Object};

verus! {

/// The nearer of two hits; of two at one distance, the first. A missing hit
/// yields to the other.
pub open spec fn nearer_of<'a>(best: Option<HitInfo<'a>>, next: Option<HitInfo<'a>>) -> Option<
    HitInfo<'a>,
> {
    match (best, next) {
        (None, _) => next,
        (Some(_), None) => best,
        (Some(b), Some(n)) => if n.distance.below(b.distance) {
            next
        } else {
            best
        },
    }
}

/// The nearest of the hits that the primitives have within `range`, each taken
/// by itself; among hits at one distance, that of the primitive listed first.
pub open spec fn nearest<'a>(objects: Seq<Object<'a>>, range: Interval) -> Option<HitInfo<'a>>
    decreases objects.len(),
{
    if objects.len() == 0 {
        None
    } else {
        nearer_of(nearest(objects.drop_last(), range), objects.last().hit_in(range))
    }
}

/// The primitives of a scene, in the order in which they are searched.
pub struct List<'a> {
    pub objects: Vec<Object<'a>>,
}

impl<'a> List<'a> {
    /// Where the ray first hits anything within `range`, if it hits at all.
    ///
    /// The primitives are searched in order, each only up to the nearest hit
    /// found before it.
    pub fn hit(&self, range: Interval) -> (r: Option<HitInfo<'a>>)
        ensures
            r == nearest(self.objects@, range),
            r matches Some(h) ==> range.holds(h.distance),
    {
        let mut best: Option<HitInfo<'a>> = None;
        let mut closest = range.end;
        let mut i: usize = 0;
        while i < self.objects.len()
            invariant
                i <= self.objects.len(),
                best == nearest(self.objects@.take(i as int), range),
                closest == (match best {
                    Some(h) => h.distance,
                    None => range.end,
                }),
                best matches Some(h) ==> range.holds(h.distance),
            decreases self.objects.len() - i,
        {
            let found = self.objects[i].hit(Interval::new(range.start, closest));
            proof {
                lemma_hit_clipped(self.objects@[i as int], range, closest);
                assert(self.objects@.take(i + 1).drop_last() == self.objects@.take(i as int));
                assert(self.objects@.take(i + 1).last() == self.objects@[i as int]);
            }
            match found {
                Some(hit) => {
                    closest = hit.distance;
                    best = Some(hit);
                },
                None => {},
            }
            i += 1;
        }
        proof {
            assert(self.objects@.take(i as int) == self.objects@);
        }
        best
    }
}

/// Nearest hit. When no primitive has a hit within the range, there is none.
/// Otherwise the hit returned is the hit of one of the primitives, no other
/// primitive's hit is nearer, and every primitive listed before that one has
/// its hit, if any, strictly farther.
pub proof fn lemma_nearest_hit(objects: Seq<Object>, range: Interval)
    ensures
        nearest(objects, range) is None <==> (forall|i: int|
            0 <= i < objects.len() ==> (#[trigger] objects[i].hit_in(range)) is None),
        nearest(objects, range) matches Some(h) ==> {
            &&& range.holds(h.distance)
            &&& forall|i: int|
                0 <= i < objects.len() ==> ((#[trigger] objects[i].hit_in(range)) matches Some(o)
                    ==> h.distance.at_most(o.distance))
            &&& exists|k: int|
                0 <= k < objects.len() && (#[trigger] objects[k].hit_in(range)) == Some(h) && (
                forall|i: int|
                    0 <= i < k ==> ((#[trigger] objects[i].hit_in(range)) matches Some(o)
                        ==> h.distance.below(o.distance)))
        },
    decreases objects.len(),
{
    if objects.len() > 0 {
        let init = objects.drop_last();
        let last = objects.len() - 1;
        lemma_nearest_hit(init, range);
        assert(forall|i: int| 0 <= i < init.len() ==> init[i] == objects[i]);
        let before = nearest(init, range);
        let next = objects[last].hit_in(range);
        match nearest(objects, range) {
            Some(h) => {
                match before {
                    Some(b) => {
                        let kb = choose|k: int|
                            0 <= k < init.len() && (#[trigger] init[k].hit_in(range)) == Some(b)
                                && (forall|i: int|
                                0 <= i < k ==> ((#[trigger] init[i].hit_in(range)) matches Some(o)
                                    ==> b.distance.below(o.distance)));
                        if next is Some && next->0.distance.below(b.distance) {
                            assert(objects[last].hit_in(range) == Some(h));
                            assert forall|i: int| 0 <= i < last implies ((
                            #[trigger] objects[i].hit_in(range)) matches Some(o)
                                ==> h.distance.below(o.distance)) by {
                                assert(init[i].hit_in(range) == objects[i].hit_in(range));
                            }
                        } else {
                            assert(objects[kb].hit_in(range) == Some(h));
                            assert forall|i: int| 0 <= i < kb implies ((
                            #[trigger] objects[i].hit_in(range)) matches Some(o)
                                ==> h.distance.below(o.distance)) by {
                                assert(init[i].hit_in(range) == objects[i].hit_in(range));
                            }
                        }
                    },
                    None => {
                        assert(objects[last].hit_in(range) == Some(h));
                        assert forall|i: int| 0 <= i < last implies ((
                        #[trigger] objects[i].hit_in(range)) matches Some(o)
                            ==> h.distance.below(o.distance)) by {
                            assert(init[i].hit_in(range) is None);
                        }
                    },
                }
                assert forall|i: int| 0 <= i < objects.len() implies ((
                #[trigger] objects[i].hit_in(range)) matches Some(o) ==> h.distance.at_most(
                    o.distance,
                )) by {
                    if i < last {
                        assert(init[i].hit_in(range) == objects[i].hit_in(range));
                    }
                }
            },
            None => {
                assert forall|i: int| 0 <= i < objects.len() implies (#[trigger] objects[i].hit_in(
                    range,
                )) is None by {
                    if i < last {
                        assert(init[i].hit_in(range) is None);
                    }
                }
            },
        }
    }
}

} // verus!
