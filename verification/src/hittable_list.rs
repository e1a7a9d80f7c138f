//! The scene: a list of surfaces, and the nearest one along a ray.
use crate::hittable::HitRecord;
use crate::interval::Interval;
use crate::sphere::{Crossings, Sphere};
use vstd::prelude::*;

verus! {

/// The surfaces of a scene, in the order in which they were added. The
/// list owns them.
pub struct HittableList {
    pub objects: Vec<Sphere>,
}

/// Whether `found` names the nearest strike of a ray on a row of surfaces,
/// where `crossings[i]` tells where the ray meets surface `i`.
///
/// `Some(i)` says that surface `i` is struck within `interval`, that no
/// surface is struck nearer, and that the surfaces before `i` are struck
/// farther or not at all: of several surfaces struck at the same
/// parameter, the first one is found. `None` says that no surface is
/// struck within `interval`.
pub open spec fn is_nearest(
    crossings: Seq<Crossings>,
    interval: Interval,
    found: Option<int>,
) -> bool {
    match found {
        Some(i) => {
            &&& 0 <= i < crossings.len()
            &&& crossings[i].first_within(interval) matches Some(touch)
            &&& forall|j: int|
                0 <= j < crossings.len() ==> match (#[trigger] crossings[j]).first_within(
                    interval,
                ) {
                    Some(other) => if j < i {
                        touch.t.spec_lt(other.t)
                    } else {
                        touch.t.spec_le(other.t)
                    },
                    None => true,
                }
        },
        None => forall|j: int|
            0 <= j < crossings.len() ==> (#[trigger] crossings[j]).first_within(interval) is None,
    }
}

impl HittableList {
    /// The empty scene.
    pub fn new() -> (r: HittableList)
        ensures
            r.objects@ == Seq::<Sphere>::empty(),
    {
        HittableList { objects: Vec::new() }
    }

    /// Adds a surface behind those that are there.
    pub fn add(&mut self, object: Sphere)
        ensures
            final(self).objects@ == old(self).objects@.push(object),
    {
        self.objects.push(object);
    }

    /// Removes every surface.
    pub fn clear(&mut self)
        ensures
            final(self).objects@ == Seq::<Sphere>::empty(),
    {
        self.objects.clear();
    }

    /// The record of the nearest strike of a ray on the scene within
    /// `interval`, or none where the ray strikes nothing. `crossings`
    /// holds, for each surface in turn, where the ray meets it.
    ///
    /// Each surface is asked for a strike nearer than the nearest one found
    /// before it, so that a later surface replaces an earlier one only where
    /// it is struck strictly nearer.
    pub fn hit(&self, crossings: &Vec<Crossings>, interval: Interval) -> (r: Option<HitRecord>)
        requires
            crossings@.len() == self.objects@.len(),
        ensures
            match r {
                Some(rec) => exists|i: int|
                    is_nearest(crossings@, interval, Some(i)) && (
                    #[trigger] self.objects@[i]).spec_hit(&crossings@[i], interval) == Some(rec),
                None => is_nearest(crossings@, interval, None),
            },
    {
        let mut hit_record: Option<HitRecord> = None;
        let mut closest_so_far = interval.max;
        let ghost mut found: Option<int> = None;
        let mut k: usize = 0;
        while k < crossings.len()
            invariant
                k <= crossings@.len(),
                crossings@.len() == self.objects@.len(),
                is_nearest(crossings@.take(k as int), interval, found),
                match found {
                    Some(i) => {
                        &&& 0 <= i < k
                        &&& hit_record == self.objects@[i].spec_hit(&crossings@[i], interval)
                        &&& hit_record matches Some(rec)
                        &&& closest_so_far == rec.t
                    },
                    None => hit_record is None && closest_so_far == interval.max,
                },
            decreases crossings@.len() - k,
        {
            let here = &crossings[k];
            let ghost before = crossings@.take(k as int);
            let ghost after = crossings@.take(k + 1);
            proof {
                use_type_invariant(here);
                here.hit_under_lower_bound(interval, closest_so_far);
                assert forall|j: int| 0 <= j < k implies #[trigger] after[j] == before[j] by {}
                assert(after[k as int] == *here);
            }
            let lowered = Interval::new(interval.min, closest_so_far);
            if let Some(record) = self.objects[k].hit(here, lowered) {
                closest_so_far = record.t;
                hit_record = Some(record);
                proof {
                    found = Some(k as int);
                }
            }
            proof {
                assert(is_nearest(after, interval, found));
            }
            k += 1;
        }
        proof {
            assert(crossings@.take(k as int) =~= crossings@);
        }
        hit_record
    }

    /// A ray has one nearest strike on a scene, and no other.
    pub proof fn nearest_is_unique(
        crossings: Seq<Crossings>,
        interval: Interval,
        one: Option<int>,
        other: Option<int>,
    )
        requires
            is_nearest(crossings, interval, one),
            is_nearest(crossings, interval, other),
        ensures
            one == other,
    {
        if let Some(i) = one {
            assert(crossings[i].first_within(interval) is Some);
        }
        if let Some(i) = other {
            assert(crossings[i].first_within(interval) is Some);
        }
    }

    /// The nearest strike is nearest whatever the order of the surfaces.
    /// Where two rows hold the same crossings, each one of the first
    /// somewhere in the second and each one of the second somewhere in the
    /// first, as they do when one row is the other in another order, a ray
    /// strikes both or neither, and at the same parameter.
    pub proof fn nearest_in_any_order(
        first: Seq<Crossings>,
        second: Seq<Crossings>,
        interval: Interval,
        in_first: Option<int>,
        in_second: Option<int>,
    )
        requires
            forall|i: int| 0 <= i < first.len() ==> second.contains(#[trigger] first[i]),
            forall|i: int| 0 <= i < second.len() ==> first.contains(#[trigger] second[i]),
            is_nearest(first, interval, in_first),
            is_nearest(second, interval, in_second),
        ensures
            match (in_first, in_second) {
                (Some(i), Some(j)) => first[i].first_within(interval) matches Some(one)
                    && second[j].first_within(interval) matches Some(other) && one.t.spec_same(
                    other.t,
                ),
                (None, None) => true,
                _ => false,
            },
    {
        if let Some(i) = in_first {
            assert(second.contains(first[i]));
            let j = choose|j: int| 0 <= j < second.len() && second[j] == first[i];
            assert(second[j].first_within(interval) is Some);
        }
        if let Some(i) = in_second {
            assert(first.contains(second[i]));
            let j = choose|j: int| 0 <= j < first.len() && first[j] == second[i];
            assert(first[j].first_within(interval) is Some);
        }
    }
}

} // verus!
