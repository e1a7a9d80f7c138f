//! The rules by which a field of small random spheres is laid out.
use crate::color::Color;
use crate::material::{Dielectric, Lambertian, Material, Metal};
use crate::ray::Point3;
use crate::scalar::Scalar;
use crate::sphere::Sphere;
use rand::distr::weighted::WeightedIndex;
use rand::distr::Distribution;
use vstd::prelude::*;

verus! {

/// The pattern of 0.2, the radius of a small sphere.
pub const SMALL_BITS: u64 = 0x3FC9_9999_9999_999A;

/// The pattern of 0.9, the distance that a small sphere keeps from the
/// middle of a large one.
pub const CLEARANCE_BITS: u64 = 0x3FEC_CCCC_CCCC_CCCD;

/// The pattern of 1.5, the index of refraction of glass.
pub const GLASS_BITS: u64 = 0x3FF8_0000_0000_0000;

/// What a small sphere is made of.
#[derive(Clone, Copy, Debug, PartialEq, Eq, Structural)]
pub enum Finish {
    Diffuse,
    Metal,
    Glass,
}

/// The sum of a row of weights.
pub open spec fn total(weights: Seq<u32>) -> int
    decreases weights.len(),
{
    if weights.len() == 0 {
        0
    } else {
        total(weights.drop_last()) + weights.last()
    }
}

/// Draws an index of `weights` at random, each with a chance in
/// proportion to its weight.
///
/// Trusted: the body builds `rand::distr::weighted::WeightedIndex` from
/// the weights and samples it once with the generator of the thread,
/// `rand::rng()`. The contract claims only that the index lies within the
/// row. The weights that the distribution refuses are kept out: an empty
/// row, a sum of zero, and a sum beyond the range of a weight.
#[verifier::external_body]
fn sample_index(weights: &Vec<u32>) -> (r: usize)
    requires
        weights@.len() > 0,
        0 < total(weights@) <= u32::MAX,
    ensures
        r < weights@.len(),
{
    WeightedIndex::new(weights).unwrap().sample(&mut rand::rng())
}

impl Finish {
    /// The finish with the given number: 0 is diffuse, 1 is metal, 2 is
    /// glass, and no other number is a finish.
    pub fn from_index(index: usize) -> (r: Option<Finish>)
        ensures
            r == match index {
                0 => Some(Finish::Diffuse),
                1 => Some(Finish::Metal),
                2 => Some(Finish::Glass),
                _ => None,
            },
    {
        match index {
            0 => Some(Finish::Diffuse),
            1 => Some(Finish::Metal),
            2 => Some(Finish::Glass),
            _ => None,
        }
    }

    /// A finish drawn at random: diffuse with weight 85, metal with weight
    /// 15 and glass with weight 5.
    pub fn random() -> (r: Finish) {
        let mut weights: Vec<u32> = Vec::new();
        weights.push(85);
        weights.push(15);
        weights.push(5);
        proof {
            let w = weights@;
            assert(w.drop_last().drop_last().drop_last() =~= Seq::<u32>::empty());
            assert(w.drop_last().drop_last() =~= seq![85u32]);
            assert(w.drop_last() =~= seq![85u32, 15u32]);
            assert(total(w.drop_last().drop_last().drop_last()) == 0);
            assert(total(w.drop_last().drop_last()) == 85);
            assert(total(w.drop_last()) == 100);
            assert(total(w) == 105);
        }
        Finish::from_index(sample_index(&weights)).unwrap()
    }

    /// The material of the finish. A diffuse sphere takes `albedo` as its
    /// colour, a metal one takes `albedo` and `fuzz`, and glass takes
    /// neither: its index of refraction is 1.5.
    pub fn material(self, albedo: Color, fuzz: Scalar) -> (r: Material)
        ensures
            r == match self {
                Finish::Diffuse => Material::Lambertian(Lambertian { albedo }),
                Finish::Metal => Material::Metal(
                    Metal { albedo, fuzz: crate::material::fuzz_range().spec_clamp(fuzz) },
                ),
                Finish::Glass => Material::Dielectric(
                    Dielectric { refraction_index: Scalar { bits: GLASS_BITS } },
                ),
            },
    {
        match self {
            Finish::Diffuse => Material::Lambertian(Lambertian::new(albedo)),
            Finish::Metal => Material::Metal(Metal::new(albedo, fuzz)),
            Finish::Glass => Material::Dielectric(Dielectric::new(Scalar::from_bits(GLASS_BITS))),
        }
    }
}

/// The small sphere about `center`, if there is room for it. `distance` is
/// the distance from `center` to the middle of the large sphere that the
/// field is laid out around: the sphere is placed where that exceeds 0.9,
/// with a radius of 0.2, and left out otherwise.
pub fn small_sphere(center: Point3, distance: Scalar, mat: Material) -> (r: Option<Sphere>)
    ensures
        r == if distance.spec_gt(Scalar { bits: CLEARANCE_BITS }) {
            Some(Sphere { center, radius: Scalar { bits: SMALL_BITS }, mat })
        } else {
            None
        },
{
    if distance.gt(Scalar::from_bits(CLEARANCE_BITS)) {
        Some(Sphere::new(center, Scalar::from_bits(SMALL_BITS), mat))
    } else {
        None
    }
}

} // verus!
