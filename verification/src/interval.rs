//! Ranges of the ray parameter.
use crate::scalar::{Scalar, INFINITY_BITS, SIGN_BIT};
use vstd::prelude::*;

verus! {

/// The numbers from `min` to `max`. Nothing asks that `min` be the smaller:
/// a range whose bounds are crossed holds no number at all.
#[derive(Clone, Copy, Debug, PartialEq, Eq, Structural)]
pub struct Interval {
    pub min: Scalar,
    pub max: Scalar,
}

impl Interval {
    /// `x` lies in the range, the bounds included.
    pub open spec fn spec_contains(&self, x: Scalar) -> bool {
        self.min.spec_le(x) && x.spec_le(self.max)
    }

    /// `x` lies in the range, the bounds excluded.
    pub open spec fn spec_surrounds(&self, x: Scalar) -> bool {
        self.min.spec_lt(x) && x.spec_lt(self.max)
    }

    /// The bound that `x` has passed, or `x` itself.
    pub open spec fn spec_clamp(&self, x: Scalar) -> Scalar {
        if x.spec_lt(self.min) {
            self.min
        } else if x.spec_gt(self.max) {
            self.max
        } else {
            x
        }
    }

    /// The range from positive to negative infinity.
    pub open spec fn spec_empty() -> Interval {
        Interval {
            min: Scalar { bits: INFINITY_BITS },
            max: Scalar { bits: (INFINITY_BITS + SIGN_BIT) as u64 },
        }
    }

    /// The range from negative to positive infinity.
    pub open spec fn spec_universe() -> Interval {
        Interval {
            min: Scalar { bits: (INFINITY_BITS + SIGN_BIT) as u64 },
            max: Scalar { bits: INFINITY_BITS },
        }
    }

    /// The range with the given bounds.
    pub fn new(min: Scalar, max: Scalar) -> (r: Interval)
        ensures
            r.min == min,
            r.max == max,
    {
        Interval { min, max }
    }

    /// The range from positive to negative infinity, which holds nothing.
    #[verifier::when_used_as_spec(spec_empty)]
    pub fn empty() -> (r: Interval)
        ensures
            r == Interval::spec_empty(),
    {
        Interval { min: Scalar::infinity(), max: Scalar::neg_infinity() }
    }

    /// The range from negative to positive infinity, which holds every
    /// number.
    #[verifier::when_used_as_spec(spec_universe)]
    pub fn universe() -> (r: Interval)
        ensures
            r == Interval::spec_universe(),
    {
        Interval { min: Scalar::neg_infinity(), max: Scalar::infinity() }
    }

    /// Whether `x` lies in the range, the bounds included.
    #[verifier::when_used_as_spec(spec_contains)]
    pub fn contains(&self, x: Scalar) -> (r: bool)
        ensures
            r == self.spec_contains(x),
    {
        self.min.le(x) && x.le(self.max)
    }

    /// Whether `x` lies in the range, the bounds excluded.
    #[verifier::when_used_as_spec(spec_surrounds)]
    pub fn surrounds(&self, x: Scalar) -> (r: bool)
        ensures
            r == self.spec_surrounds(x),
    {
        self.min.lt(x) && x.lt(self.max)
    }

    /// `x` pulled back to the bound it has passed: `min` where `x` is below
    /// it, else `max` where `x` is above it, else `x` unchanged. What is
    /// not a number is below and above nothing, and comes back as it is.
    #[verifier::when_used_as_spec(spec_clamp)]
    pub fn clamp(&self, x: Scalar) -> (r: Scalar)
        ensures
            r == self.spec_clamp(x),
    {
        if x.lt(self.min) {
            return self.min;
        }
        if x.gt(self.max) {
            return self.max;
        }
        x
    }

    /// The empty range contains and surrounds nothing.
    pub proof fn empty_holds_nothing(x: Scalar)
        ensures
            !Interval::empty().spec_contains(x),
            !Interval::empty().spec_surrounds(x),
    {
    }

    /// The universe contains every number, and surrounds every finite one.
    pub proof fn universe_holds_all(x: Scalar)
        requires
            !x.nan(),
        ensures
            Interval::universe().spec_contains(x),
            x.magnitude() < INFINITY_BITS ==> Interval::universe().spec_surrounds(x),
    {
    }

    /// What a range surrounds it contains, and a range whose bounds are
    /// crossed contains nothing.
    pub proof fn surrounded_is_contained(self, x: Scalar)
        ensures
            self.spec_surrounds(x) ==> self.spec_contains(x),
            self.spec_contains(x) ==> self.min.spec_le(self.max),
    {
    }

    /// Between bounds in order, a number is clamped into the range, and a
    /// number of the range is left alone.
    pub proof fn clamp_lands_inside(self, x: Scalar)
        requires
            self.min.spec_le(self.max),
            !x.nan(),
        ensures
            self.spec_contains(self.spec_clamp(x)),
            self.spec_contains(x) ==> self.spec_clamp(x) == x,
    {
    }
}

impl Default for Interval {
    /// The empty range.
    fn default() -> (r: Interval)
        ensures
            r == Interval::empty(),
    {
        Interval::empty()
    }
}

} // verus!
