//! Spheres, and where a ray meets one.
use crate::hittable::HitRecord;
use crate::interval::Interval;
use crate::material::Material;
use crate::ray::Point3;
use crate::scalar::Scalar;
use crate::vec3::Vec3;
use vstd::prelude::*;

verus! {

/// A sphere and what it is made of.
#[derive(Clone, Copy, Debug, PartialEq, Eq, Structural)]
pub struct Sphere {
    pub center: Point3,
    pub radius: Scalar,
    pub mat: Material,
}

/// A place where a ray meets a surface.
#[derive(Clone, Copy, Debug, PartialEq, Eq, Structural)]
pub struct Touch {
    /// The parameter of the ray there.
    pub t: Scalar,
    /// The point itself.
    pub p: Point3,
    /// The normal of the surface there, of length one and pointing out of
    /// the body.
    pub outward_normal: Vec3,
    /// The dot product of the direction of the ray and that normal.
    pub facing: Scalar,
}

/// Where a ray meets the surface of a sphere: the discriminant of the
/// quadratic in the ray parameter, and the places that belong to its two
/// solutions, the nearer first.
#[derive(Clone, Copy, Debug, PartialEq, Eq, Structural)]
pub struct Crossings {
    discriminant: Scalar,
    near: Touch,
    far: Touch,
}

impl Crossings {
    /// The discriminant of the quadratic.
    pub closed spec fn spec_discriminant(&self) -> Scalar {
        self.discriminant
    }

    /// The place of the smaller solution.
    pub closed spec fn spec_near(&self) -> Touch {
        self.near
    }

    /// The place of the larger solution.
    pub closed spec fn spec_far(&self) -> Touch {
        self.far
    }

    /// The solutions are in order: the second is not smaller than the
    /// first. Every value that [`Crossings::new`] has made is ordered.
    #[verifier::type_invariant]
    pub open spec fn ordered(self) -> bool {
        !self.far().t.spec_lt(self.near().t)
    }

    /// The place that a query of `interval` finds. There is none where
    /// the discriminant is negative: the ray misses the sphere. Otherwise
    /// it is the nearer place where the range surrounds its parameter,
    /// else the farther one where the range surrounds that, else none. A
    /// solution on a bound of the range is not found: a ray that leaves a
    /// surface does not strike it again at its own origin.
    pub open spec fn first_within(self, interval: Interval) -> Option<Touch> {
        if self.discriminant().spec_lt(Scalar { bits: 0 }) {
            None
        } else if interval.spec_surrounds(self.near().t) {
            Some(self.near())
        } else if interval.spec_surrounds(self.far().t) {
            Some(self.far())
        } else {
            None
        }
    }

    /// The crossings with the given discriminant and places. The places
    /// may come in either order.
    pub fn new(discriminant: Scalar, first: Touch, second: Touch) -> (r: Crossings)
        ensures
            r.ordered(),
            r.discriminant() == discriminant,
            r.near() == if second.t.spec_lt(first.t) {
                second
            } else {
                first
            },
            r.far() == if second.t.spec_lt(first.t) {
                first
            } else {
                second
            },
    {
        if second.t.lt(first.t) {
            Crossings { discriminant, near: second, far: first }
        } else {
            Crossings { discriminant, near: first, far: second }
        }
    }

    /// The discriminant of the quadratic.
    #[verifier::when_used_as_spec(spec_discriminant)]
    pub fn discriminant(&self) -> (r: Scalar)
        ensures
            r == self.spec_discriminant(),
    {
        self.discriminant
    }

    /// The place of the smaller solution.
    #[verifier::when_used_as_spec(spec_near)]
    pub fn near(&self) -> (r: Touch)
        ensures
            r == self.spec_near(),
    {
        self.near
    }

    /// The place of the larger solution.
    #[verifier::when_used_as_spec(spec_far)]
    pub fn far(&self) -> (r: Touch)
        ensures
            r == self.spec_far(),
    {
        self.far
    }

    /// A ray that misses the sphere strikes it nowhere, whatever the range.
    pub proof fn miss_hits_nothing(self, interval: Interval)
        requires
            self.discriminant().spec_lt(Scalar { bits: 0 }),
        ensures
            self.first_within(interval) is None,
    {
    }

    /// A ray that meets the sphere strikes it in every range that surrounds
    /// one of the solutions, and in no other; what is found is one of the
    /// two places, lies in the range, and is the nearest of those that do.
    pub proof fn hit_is_nearest_solution(self, interval: Interval)
        requires
            self.ordered(),
            !self.discriminant().spec_lt(Scalar { bits: 0 }),
        ensures
            self.first_within(interval) is Some <==> interval.spec_surrounds(self.near().t)
                || interval.spec_surrounds(self.far().t),
            self.first_within(interval) matches Some(touch) ==> {
                &&& touch == self.near() || touch == self.far()
                &&& interval.spec_surrounds(touch.t)
                &&& interval.spec_surrounds(self.near().t) ==> touch.t.spec_le(self.near().t)
                &&& interval.spec_surrounds(self.far().t) ==> touch.t.spec_le(self.far().t)
            },
    {
    }

    /// Lowering the upper bound of a range to `bound` changes what is
    /// found in one way only: a solution at or beyond the new bound is
    /// found no more.
    pub proof fn hit_under_lower_bound(self, interval: Interval, bound: Scalar)
        requires
            self.ordered(),
            bound == interval.max || interval.spec_surrounds(bound),
        ensures
            ({
                let lowered = Interval { min: interval.min, max: bound };
                match self.first_within(lowered) {
                    Some(touch) => self.first_within(interval) == Some(touch) && touch.t.spec_lt(
                        bound,
                    ),
                    None => match self.first_within(interval) {
                        Some(touch) => bound.spec_le(touch.t),
                        None => true,
                    },
                }
            }),
    {
    }
}

impl Sphere {
    /// The record of a ray striking the sphere within `interval`, where
    /// `crossings` tells where the ray meets its surface: the record of
    /// the place that the range finds, with the material of the sphere.
    pub open spec fn spec_hit(&self, crossings: &Crossings, interval: Interval) -> Option<
        HitRecord,
    > {
        match crossings.first_within(interval) {
            Some(touch) => Some(
                HitRecord::spec_new(touch.p, touch.outward_normal, touch.t, touch.facing, self.mat),
            ),
            None => None,
        }
    }

    /// The sphere about `center`. A negative radius counts as zero.
    pub fn new(center: Point3, radius: Scalar, mat: Material) -> (r: Sphere)
        ensures
            r.center == center,
            r.mat == mat,
            r.radius == if radius.spec_lt(Scalar { bits: 0 }) {
                Scalar { bits: 0 }
            } else {
                radius
            },
    {
        let radius = if radius.lt(Scalar::zero()) {
            Scalar::zero()
        } else {
            radius
        };
        Sphere { center, radius, mat }
    }

    /// The record of a ray striking the sphere within `interval`, given
    /// where the ray meets its surface; none where it does not strike.
    #[verifier::when_used_as_spec(spec_hit)]
    pub fn hit(&self, crossings: &Crossings, interval: Interval) -> (r: Option<HitRecord>)
        ensures
            r == self.spec_hit(crossings, interval),
    {
        if crossings.discriminant().lt(Scalar::zero()) {
            return None;
        }
        let mut root = crossings.near();
        if !interval.surrounds(root.t) {
            root = crossings.far();
            if !interval.surrounds(root.t) {
                return None;
            }
        }
        Some(HitRecord::new(root.p, root.outward_normal, root.t, root.facing, self.mat))
    }

    /// The record of a strike lies where the crossings say: at the
    /// parameter that the range has found, which the range surrounds.
    pub proof fn hit_lies_within(&self, crossings: &Crossings, interval: Interval)
        ensures
            self.spec_hit(crossings, interval) matches Some(rec) ==> {
                &&& interval.spec_surrounds(rec.t)
                &&& crossings.first_within(interval) matches Some(touch)
                &&& rec.t == touch.t
                &&& rec.p == touch.p
                &&& rec.mat == self.mat
            },
            self.spec_hit(crossings, interval) is None <==> crossings.first_within(interval)
                is None,
    {
    }
}

} // verus!
