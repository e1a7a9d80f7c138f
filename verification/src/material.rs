//! What a surface does to the light that strikes it.
use crate::color::Color;
use crate::hittable::HitRecord;
use crate::interval::Interval;
use crate::ray::Ray;
use crate::scalar::{Scalar, ONE_BITS};
use crate::vec3::Vec3;
use vstd::prelude::*;

verus! {

/// A diffuse surface: it scatters every ray, about its normal.
#[derive(Clone, Copy, Debug, PartialEq, Eq, Structural)]
pub struct Lambertian {
    pub albedo: Color,
}

/// A mirror, blurred by `fuzz`.
#[derive(Clone, Copy, Debug, PartialEq, Eq, Structural)]
pub struct Metal {
    pub albedo: Color,
    pub fuzz: Scalar,
}

/// A clear body that bends light by its index of refraction.
#[derive(Clone, Copy, Debug, PartialEq, Eq, Structural)]
pub struct Dielectric {
    pub refraction_index: Scalar,
}

/// The materials a surface can be made of. A material is a small value
/// that is never changed once made: surfaces that share one hold copies.
#[derive(Clone, Copy, Debug, PartialEq, Eq, Structural)]
pub enum Material {
    Lambertian(Lambertian),
    Metal(Metal),
    Dielectric(Dielectric),
}

/// The range that the fuzz of a metal is held to: from 0 to 1.
pub open spec fn fuzz_range() -> Interval {
    Interval { min: Scalar { bits: 0 }, max: Scalar { bits: ONE_BITS } }
}

impl Lambertian {
    /// The diffuse material of the given colour.
    pub fn new(albedo: Color) -> (r: Lambertian)
        ensures
            r.albedo == albedo,
    {
        Lambertian { albedo }
    }

    /// The direction in which a ray leaves: `sum`, the normal plus the
    /// caller's sample of the unit sphere, unless the two all but cancel,
    /// where it is the normal.
    pub open spec fn direction(rec: HitRecord, sum: Vec3) -> Vec3 {
        if sum.spec_near_zero() {
            rec.normal
        } else {
            sum
        }
    }

    /// Scatters a ray that has struck the surface at `rec`. A diffuse
    /// surface absorbs nothing: the result is always a ray from the point
    /// that was struck, dimmed by the albedo.
    pub fn scatter(&self, rec: &HitRecord, sum: Vec3) -> (r: Option<(Color, Ray)>)
        ensures
            r == Some(
                (self.albedo, Ray { origin: rec.p, direction: Lambertian::direction(*rec, sum) }),
            ),
    {
        let scatter_direction = if sum.near_zero() {
            rec.normal
        } else {
            sum
        };
        Some((self.albedo, Ray::new(rec.p, scatter_direction)))
    }
}

impl Metal {
    /// The metal of the given colour. A fuzz below 0 counts as 0 and one
    /// above 1 as 1.
    pub fn new(albedo: Color, fuzz: Scalar) -> (r: Metal)
        ensures
            r.albedo == albedo,
            r.fuzz == fuzz_range().spec_clamp(fuzz),
    {
        let range = Interval::new(Scalar::zero(), Scalar::one());
        Metal { albedo, fuzz: range.clamp(fuzz) }
    }

    /// What becomes of a ray that has struck the surface at `rec`, where
    /// `direction` is the mirrored direction with its blur added and
    /// `facing` the dot product of that direction and the normal: the ray
    /// leaves along `direction`, dimmed by the albedo, exactly where
    /// `facing` is positive. A direction that would enter the surface is
    /// absorbed.
    pub open spec fn spec_scatter(
        &self,
        rec: &HitRecord,
        direction: Vec3,
        facing: Scalar,
    ) -> Option<(Color, Ray)> {
        if facing.spec_gt(Scalar { bits: 0 }) {
            Some((self.albedo, Ray { origin: rec.p, direction }))
        } else {
            None
        }
    }

    /// Scatters a ray that has struck the surface at `rec`. The caller
    /// hands in the mirrored direction with its blur added, and `facing`,
    /// the dot product of that direction and the normal.
    #[verifier::when_used_as_spec(spec_scatter)]
    pub fn scatter(&self, rec: &HitRecord, direction: Vec3, facing: Scalar) -> (r: Option<
        (Color, Ray),
    >)
        ensures
            r == self.spec_scatter(rec, direction, facing),
    {
        if facing.gt(Scalar::zero()) {
            Some((self.albedo, Ray::new(rec.p, direction)))
        } else {
            None
        }
    }
}

impl Metal {
    /// A metal absorbs a ray if and only if the dot product of the
    /// direction in which it would leave and the normal is zero or less,
    /// provided that the dot product is a number.
    pub proof fn absorbs_what_enters(&self, rec: &HitRecord, direction: Vec3, facing: Scalar)
        requires
            !facing.nan(),
        ensures
            self.spec_scatter(rec, direction, facing) is None <==> facing.spec_le(
                Scalar { bits: 0 },
            ),
    {
    }
}

impl Dielectric {
    /// The clear material of the given index of refraction.
    pub fn new(refraction_index: Scalar) -> (r: Dielectric)
        ensures
            r.refraction_index == refraction_index,
    {
        Dielectric { refraction_index }
    }

    /// The ratio of the indices on the two sides of the surface, in the
    /// order in which the ray passes them: `reciprocal`, one over the
    /// index, for a ray that enters the body, and the index itself for one
    /// that leaves it.
    pub fn refraction_ratio(&self, rec: &HitRecord, reciprocal: Scalar) -> (r: Scalar)
        ensures
            r == if rec.front_face {
                reciprocal
            } else {
                self.refraction_index
            },
    {
        if rec.front_face {
            reciprocal
        } else {
            self.refraction_index
        }
    }

    /// Whether the ray is mirrored rather than bent. `bend` is the ratio of
    /// the indices times the sine of the angle of incidence: above 1 no
    /// angle of refraction has that sine, and the ray is reflected whole.
    /// Otherwise it is reflected with the probability `reflectance`: where
    /// that exceeds `sample`, the caller's draw from 0 to 1.
    pub open spec fn reflects(bend: Scalar, reflectance: Scalar, sample: Scalar) -> bool {
        bend.spec_gt(Scalar { bits: ONE_BITS }) || reflectance.spec_gt(sample)
    }

    /// Scatters a ray that has struck the surface at `rec`. A clear body
    /// absorbs nothing and tints nothing: the result is always a ray from
    /// the point that was struck, undimmed, along `reflected` or along
    /// `refracted`.
    pub fn scatter(
        &self,
        rec: &HitRecord,
        bend: Scalar,
        reflectance: Scalar,
        sample: Scalar,
        reflected: Vec3,
        refracted: Vec3,
    ) -> (r: Option<(Color, Ray)>)
        ensures
            r == Some(
                (
                    Vec3::of_bits(ONE_BITS, ONE_BITS, ONE_BITS),
                    Ray {
                        origin: rec.p,
                        direction: if Dielectric::reflects(bend, reflectance, sample) {
                            reflected
                        } else {
                            refracted
                        },
                    },
                ),
            ),
    {
        let direction = if bend.gt(Scalar::one()) || reflectance.gt(sample) {
            reflected
        } else {
            refracted
        };
        Some((Vec3::one(), Ray::new(rec.p, direction)))
    }
}

} // verus!
