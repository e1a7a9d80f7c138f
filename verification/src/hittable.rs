//! The record of a ray striking a surface.
use crate::material::Material;
use crate::ray::Point3;
use crate::scalar::Scalar;
use crate::vec3::Vec3;
use vstd::prelude::*;

verus! {

/// What is known of the place where a ray has struck a surface.
#[derive(Clone, Copy, Debug, PartialEq, Eq, Structural)]
pub struct HitRecord {
    /// The point that was struck.
    pub p: Point3,
    /// The normal of the surface there, turned against the ray.
    pub normal: Vec3,
    /// The parameter of the ray at the point.
    pub t: Scalar,
    /// Whether the ray came from outside the surface.
    pub front_face: bool,
    /// What the surface is made of.
    pub mat: Material,
}

impl HitRecord {
    /// The record of a ray striking a surface at `p`, at the parameter `t`,
    /// where `facing` is the dot product of the outward normal and the
    /// direction of the ray. The ray has come from outside exactly where
    /// that is negative, and the recorded normal is the outward one then
    /// and its reverse otherwise.
    pub open spec fn spec_new(
        p: Point3,
        outward_normal: Vec3,
        t: Scalar,
        facing: Scalar,
        mat: Material,
    ) -> HitRecord {
        let front_face = facing.spec_lt(Scalar { bits: 0 });
        HitRecord {
            p,
            normal: if front_face {
                outward_normal
            } else {
                outward_normal.spec_neg()
            },
            t,
            front_face,
            mat,
        }
    }

    /// The record of a ray striking a surface at `p`, at the parameter `t`.
    /// `outward_normal` is the normal of the surface at `p`, of length one
    /// and pointing out of the body, and `facing` is its dot product with
    /// the direction of the ray. Where that is negative the ray has come
    /// from outside and the normal is kept; otherwise the normal is
    /// reversed, so that the recorded normal always looks back along the
    /// ray.
    #[verifier::when_used_as_spec(spec_new)]
    pub fn new(p: Point3, outward_normal: Vec3, t: Scalar, facing: Scalar, mat: Material) -> (r:
        HitRecord)
        ensures
            r == HitRecord::spec_new(p, outward_normal, t, facing, mat),
    {
        let front_face = facing.lt(Scalar::zero());
        let normal = if front_face {
            outward_normal
        } else {
            outward_normal.neg()
        };
        HitRecord { p, normal, t, front_face, mat }
    }
}

} // verus!
