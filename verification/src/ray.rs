//! Rays.
use crate::vec3::Vec3;
use vstd::prelude::*;

verus! {

/// A point in space.
pub type Point3 = Vec3;

/// A half-line: the points `origin + t * direction`. The direction need not
/// have length one.
#[derive(Clone, Copy, Debug, PartialEq, Eq, Structural)]
pub struct Ray {
    pub origin: Point3,
    pub direction: Vec3,
}

impl Ray {
    /// The ray from `origin` along `direction`.
    pub fn new(origin: Point3, direction: Vec3) -> (r: Ray)
        ensures
            r.origin == origin,
            r.direction == direction,
    {
        Ray { origin, direction }
    }
}

} // verus!
