//! Triples of scalars: points, directions and colours.
use crate::scalar::{Scalar, ONE_BITS};
use vstd::prelude::*;

verus! {

/// The pattern of 1e-8: a length up to it has no direction, and a
/// component whose magnitude is below it counts as nothing.
pub const TINY_BITS: u64 = 0x3E45_798E_E230_8C3A;

/// The pattern of 1e-160: the square of a length below it may vanish when
/// the length is divided by.
pub const VANISHING_BITS: u64 = 0x1EB6_7E9C_127B_6E74;

/// Three scalars. The type carries no tag: the same triple serves as a
/// point, as a direction and as a colour.
#[derive(Clone, Copy, Debug, PartialEq, Eq, Structural)]
pub struct Vec3 {
    pub x: Scalar,
    pub y: Scalar,
    pub z: Scalar,
}

impl Vec3 {
    /// The triple of the given patterns.
    pub open spec fn of_bits(x: u64, y: u64, z: u64) -> Vec3 {
        Vec3 { x: Scalar { bits: x }, y: Scalar { bits: y }, z: Scalar { bits: z } }
    }

    /// Each component with the opposite sign.
    pub open spec fn spec_neg(self) -> Vec3 {
        Vec3 { x: self.x.spec_neg(), y: self.y.spec_neg(), z: self.z.spec_neg() }
    }

    /// Every component is smaller in magnitude than 1e-8.
    pub open spec fn spec_near_zero(self) -> bool {
        let tiny = Scalar { bits: TINY_BITS };
        self.x.spec_abs().spec_lt(tiny) && self.y.spec_abs().spec_lt(tiny)
            && self.z.spec_abs().spec_lt(tiny)
    }

    /// The square of a length that a sample of the cube may have and still
    /// be projected onto the unit sphere: from 1e-160 to 1, both included.
    pub open spec fn projectable(length_squared: Scalar) -> bool {
        Scalar { bits: VANISHING_BITS }.spec_le(length_squared) && length_squared.spec_le(
            Scalar { bits: ONE_BITS },
        )
    }

    /// The triple of three scalars.
    pub fn new(x: Scalar, y: Scalar, z: Scalar) -> (r: Vec3)
        ensures
            r.x == x,
            r.y == y,
            r.z == z,
    {
        Vec3 { x, y, z }
    }

    /// Zero in each component.
    pub fn zero() -> (r: Vec3)
        ensures
            r == Vec3::of_bits(0, 0, 0),
    {
        Vec3::new(Scalar::zero(), Scalar::zero(), Scalar::zero())
    }

    /// One in each component.
    pub fn one() -> (r: Vec3)
        ensures
            r == Vec3::of_bits(ONE_BITS, ONE_BITS, ONE_BITS),
    {
        Vec3::new(Scalar::one(), Scalar::one(), Scalar::one())
    }

    /// The unit vector along the first axis.
    pub fn unit_x() -> (r: Vec3)
        ensures
            r == Vec3::of_bits(ONE_BITS, 0, 0),
    {
        Vec3::new(Scalar::one(), Scalar::zero(), Scalar::zero())
    }

    /// The unit vector along the second axis.
    pub fn unit_y() -> (r: Vec3)
        ensures
            r == Vec3::of_bits(0, ONE_BITS, 0),
    {
        Vec3::new(Scalar::zero(), Scalar::one(), Scalar::zero())
    }

    /// The unit vector along the third axis.
    pub fn unit_z() -> (r: Vec3)
        ensures
            r == Vec3::of_bits(0, 0, ONE_BITS),
    {
        Vec3::new(Scalar::zero(), Scalar::zero(), Scalar::one())
    }

    /// The opposite vector.
    #[verifier::when_used_as_spec(spec_neg)]
    pub fn neg(self) -> (r: Vec3)
        ensures
            r == self.spec_neg(),
    {
        Vec3 { x: self.x.neg(), y: self.y.neg(), z: self.z.neg() }
    }

    /// Whether the vector is too short in every component to give a
    /// direction.
    #[verifier::when_used_as_spec(spec_near_zero)]
    pub fn near_zero(self) -> (r: bool)
        ensures
            r == self.spec_near_zero(),
    {
        let tiny = Scalar::from_bits(TINY_BITS);
        self.x.abs().lt(tiny) && self.y.abs().lt(tiny) && self.z.abs().lt(tiny)
    }

    /// The vector of length one along `self`, given the length of `self`
    /// and the quotient of `self` by it: the quotient where the length
    /// exceeds 1e-8, and the zero vector for a shorter one, whose quotient
    /// need not be a number.
    pub fn unit_vector(self, length: Scalar, quotient: Vec3) -> (r: Vec3)
        ensures
            r == if length.spec_gt(Scalar { bits: TINY_BITS }) {
                quotient
            } else {
                Vec3::of_bits(0, 0, 0)
            },
    {
        if length.gt(Scalar::from_bits(TINY_BITS)) {
            quotient
        } else {
            Vec3::zero()
        }
    }

    /// One round of sampling the unit sphere by rejection. The caller draws
    /// a point of the cube from -1 to 1 and hands in the square of its
    /// length and the point divided by its length. The quotient is the
    /// sample where the square lies between 1e-160 and 1; otherwise the
    /// point is rejected, and the caller draws again.
    pub fn random_unit(length_squared: Scalar, quotient: Vec3) -> (r: Option<Vec3>)
        ensures
            r == if Vec3::projectable(length_squared) {
                Some(quotient)
            } else {
                None
            },
    {
        if length_squared.ge(Scalar::from_bits(VANISHING_BITS)) && length_squared.le(
            Scalar::one(),
        ) {
            Some(quotient)
        } else {
            None
        }
    }

    /// One round of sampling the unit disk by rejection. The caller draws
    /// a point of the square from -1 to 1 and hands it in with the square
    /// of its length. The point is the sample where the square is below 1;
    /// otherwise it is rejected, and the caller draws again.
    pub fn random_in_unit_disk(candidate: Vec3, length_squared: Scalar) -> (r: Option<Vec3>)
        ensures
            r == if length_squared.spec_lt(Scalar { bits: ONE_BITS }) {
                Some(candidate)
            } else {
                None
            },
    {
        if length_squared.lt(Scalar::one()) {
            Some(candidate)
        } else {
            None
        }
    }

    /// A sample of the unit sphere turned to the side of a surface that its
    /// normal points to. `facing` is the dot product of sample and normal:
    /// the sample stays where it is positive and is reversed otherwise.
    pub fn random_on_hemisphere(on_unit_sphere: Vec3, facing: Scalar) -> (r: Vec3)
        ensures
            r == if facing.spec_gt(Scalar { bits: 0 }) {
                on_unit_sphere
            } else {
                on_unit_sphere.spec_neg()
            },
    {
        if facing.gt(Scalar::zero()) {
            on_unit_sphere
        } else {
            on_unit_sphere.neg()
        }
    }

    /// Reversing a vector twice gives it back.
    pub proof fn neg_is_involution(self)
        ensures
            self.spec_neg().spec_neg() == self,
    {
    }
}

impl Default for Vec3 {
    /// The zero vector.
    fn default() -> (r: Vec3)
        ensures
            r == Vec3::of_bits(0, 0, 0),
    {
        Vec3::zero()
    }
}

} // verus!
