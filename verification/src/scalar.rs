//! Double-precision numbers held by their bit patterns.
//!
//! The renderer never adds or multiplies: it compares numbers, flips their
//! signs and carries them from one numeric step to the next. All of that
//! can be done on the sixty-four bits of the binary64 interchange format
//! with integer instructions alone, and is done so here.
use vstd::arithmetic::power2::{
    lemma_pow2_pos, lemma_pow2_strictly_increases, lemma_pow2_unfold, pow2,
};
use vstd::prelude::*;

verus! {

/// The bit that holds the sign of a number.
pub const SIGN_BIT: u64 = 0x8000_0000_0000_0000;

/// The pattern of positive infinity. A larger magnitude is not a number.
pub const INFINITY_BITS: u64 = 0x7FF0_0000_0000_0000;

/// The pattern of the number one.
pub const ONE_BITS: u64 = 0x3FF0_0000_0000_0000;

/// Two to the power 52: the weight of the lowest exponent bit, and the
/// leading bit of the significand that a normal number does not store.
pub const HIDDEN_BIT: u64 = 0x10_0000_0000_0000;

/// A binary64 value: one sign bit, eleven exponent bits, fifty-two fraction
/// bits. Every pattern is a valid `Scalar`.
///
/// `==` on scalars compares patterns. The numeric comparisons are the
/// methods [`Scalar::lt`], [`Scalar::le`], [`Scalar::gt`], [`Scalar::ge`]
/// and [`Scalar::same`]: they treat the two zeros as one number and are
/// false whenever an operand is not a number.
#[derive(Clone, Copy, Debug, PartialEq, Eq, Structural)]
pub struct Scalar {
    pub bits: u64,
}

impl Scalar {
    /// The pattern without its sign bit.
    pub open spec fn magnitude(self) -> int {
        if self.bits >= SIGN_BIT {
            self.bits - SIGN_BIT
        } else {
            self.bits as int
        }
    }

    /// Whether the sign bit is set.
    pub open spec fn sign(self) -> bool {
        self.bits >= SIGN_BIT
    }

    /// Whether the pattern is not a number.
    pub open spec fn nan(self) -> bool {
        self.magnitude() > INFINITY_BITS
    }

    /// The place of a number in the order of all numbers: among numbers of
    /// one sign the magnitudes are ordered as the numbers are, so the signed
    /// magnitude orders them all. Both zeros have rank 0.
    pub open spec fn rank(self) -> int {
        if self.sign() {
            -self.magnitude()
        } else {
            self.magnitude()
        }
    }

    /// The exponent field: the eleven bits below the sign.
    pub open spec fn exponent(self) -> int {
        self.magnitude() / (HIDDEN_BIT as int)
    }

    /// The power of two that the lowest bit of the significand stands for
    /// is `scale() - 1075`. Subnormal numbers share the scale of the
    /// smallest normal ones.
    pub open spec fn scale(self) -> int {
        if self.exponent() == 0 {
            1
        } else {
            self.exponent()
        }
    }

    /// The significand as a whole number: the fraction bits, and before
    /// them the hidden bit unless the number is subnormal. The magnitude of
    /// a finite number is `significand() * 2^(scale() - 1075)`.
    pub open spec fn significand(self) -> int {
        if self.exponent() == 0 {
            self.magnitude() % (HIDDEN_BIT as int)
        } else {
            HIDDEN_BIT + self.magnitude() % (HIDDEN_BIT as int)
        }
    }

    /// The magnitude of a finite number as a whole number of steps of
    /// two to the power -1075: `significand() * 2^scale()`.
    pub open spec fn weight(self) -> int {
        self.significand() * pow2(self.scale() as nat)
    }

    /// Whether the number is finite: neither an infinity nor not a number.
    pub open spec fn finite(self) -> bool {
        self.magnitude() < INFINITY_BITS
    }

    /// Both are numbers and `self` is the smaller.
    pub open spec fn spec_lt(self, other: Scalar) -> bool {
        !self.nan() && !other.nan() && self.rank() < other.rank()
    }

    /// Both are numbers and `self` is not the larger.
    pub open spec fn spec_le(self, other: Scalar) -> bool {
        !self.nan() && !other.nan() && self.rank() <= other.rank()
    }

    /// Both are numbers and `self` is the larger.
    pub open spec fn spec_gt(self, other: Scalar) -> bool {
        other.spec_lt(self)
    }

    /// Both are numbers and `self` is not the smaller.
    pub open spec fn spec_ge(self, other: Scalar) -> bool {
        other.spec_le(self)
    }

    /// Both are the same number.
    pub open spec fn spec_same(self, other: Scalar) -> bool {
        !self.nan() && !other.nan() && self.rank() == other.rank()
    }

    /// The pattern with the sign bit flipped.
    pub open spec fn spec_neg(self) -> Scalar {
        if self.bits >= SIGN_BIT {
            Scalar { bits: (self.bits - SIGN_BIT) as u64 }
        } else {
            Scalar { bits: (self.bits + SIGN_BIT) as u64 }
        }
    }

    /// The pattern with the sign bit cleared.
    pub open spec fn spec_abs(self) -> Scalar {
        if self.bits >= SIGN_BIT {
            Scalar { bits: (self.bits - SIGN_BIT) as u64 }
        } else {
            self
        }
    }

    /// The scalar with the given pattern.
    pub fn from_bits(bits: u64) -> (r: Scalar)
        ensures
            r.bits == bits,
    {
        Scalar { bits }
    }

    /// The pattern of the scalar.
    pub fn to_bits(self) -> (r: u64)
        ensures
            r == self.bits,
    {
        self.bits
    }

    /// Positive zero.
    pub fn zero() -> (r: Scalar)
        ensures
            r.bits == 0,
    {
        Scalar { bits: 0 }
    }

    /// The number one.
    pub fn one() -> (r: Scalar)
        ensures
            r.bits == ONE_BITS,
    {
        Scalar { bits: ONE_BITS }
    }

    /// Positive infinity.
    pub fn infinity() -> (r: Scalar)
        ensures
            r.bits == INFINITY_BITS,
    {
        Scalar { bits: INFINITY_BITS }
    }

    /// Negative infinity.
    pub fn neg_infinity() -> (r: Scalar)
        ensures
            r.bits == INFINITY_BITS + SIGN_BIT,
    {
        Scalar { bits: INFINITY_BITS + SIGN_BIT }
    }

    /// Whether the scalar is not a number.
    #[verifier::when_used_as_spec(nan)]
    pub fn is_nan(self) -> (r: bool)
        ensures
            r == self.nan(),
    {
        self.abs().bits > INFINITY_BITS
    }

    /// The number with the opposite sign. Exact for every pattern: zeros,
    /// infinities and patterns that are not numbers change their sign bit
    /// like any other.
    #[verifier::when_used_as_spec(spec_neg)]
    pub fn neg(self) -> (r: Scalar)
        ensures
            r == self.spec_neg(),
    {
        if self.bits >= SIGN_BIT {
            Scalar { bits: self.bits - SIGN_BIT }
        } else {
            Scalar { bits: self.bits + SIGN_BIT }
        }
    }

    /// The number without its sign.
    #[verifier::when_used_as_spec(spec_abs)]
    pub fn abs(self) -> (r: Scalar)
        ensures
            r == self.spec_abs(),
    {
        if self.bits >= SIGN_BIT {
            Scalar { bits: self.bits - SIGN_BIT }
        } else {
            self
        }
    }

    /// The rank as a machine integer.
    fn key(self) -> (r: i64)
        ensures
            r == self.rank(),
    {
        if self.bits >= SIGN_BIT {
            let magnitude: u64 = self.bits - SIGN_BIT;
            -(magnitude as i64)
        } else {
            self.bits as i64
        }
    }

    /// `self < other` as numbers.
    #[verifier::when_used_as_spec(spec_lt)]
    pub fn lt(self, other: Scalar) -> (r: bool)
        ensures
            r == self.spec_lt(other),
    {
        !self.is_nan() && !other.is_nan() && self.key() < other.key()
    }

    /// `self <= other` as numbers.
    #[verifier::when_used_as_spec(spec_le)]
    pub fn le(self, other: Scalar) -> (r: bool)
        ensures
            r == self.spec_le(other),
    {
        !self.is_nan() && !other.is_nan() && self.key() <= other.key()
    }

    /// `self > other` as numbers.
    #[verifier::when_used_as_spec(spec_gt)]
    pub fn gt(self, other: Scalar) -> (r: bool)
        ensures
            r == self.spec_gt(other),
    {
        other.lt(self)
    }

    /// `self >= other` as numbers.
    #[verifier::when_used_as_spec(spec_ge)]
    pub fn ge(self, other: Scalar) -> (r: bool)
        ensures
            r == self.spec_ge(other),
    {
        other.le(self)
    }

    /// `self == other` as numbers: the two zeros are the same number, and
    /// what is not a number is the same as nothing, itself included.
    #[verifier::when_used_as_spec(spec_same)]
    pub fn same(self, other: Scalar) -> (r: bool)
        ensures
            r == self.spec_same(other),
    {
        !self.is_nan() && !other.is_nan() && self.key() == other.key()
    }

    /// Of two numbers, one is the smaller or they are the same number.
    pub proof fn order_is_total(self, other: Scalar)
        requires
            !self.nan(),
            !other.nan(),
        ensures
            self.spec_lt(other) || self.spec_same(other) || other.spec_lt(self),
            self.spec_le(other) <==> self.spec_lt(other) || self.spec_same(other),
            !(self.spec_lt(other) && other.spec_lt(self)),
    {
    }

    /// What is smaller than a number is smaller than every number that is
    /// not smaller than that one.
    pub proof fn order_is_transitive(self, middle: Scalar, other: Scalar)
        ensures
            self.spec_lt(middle) && middle.spec_le(other) ==> self.spec_lt(other),
            self.spec_le(middle) && middle.spec_lt(other) ==> self.spec_lt(other),
            self.spec_le(middle) && middle.spec_le(other) ==> self.spec_le(other),
    {
    }

    /// Changing the signs of two numbers reverses their order, and changing
    /// a sign twice changes nothing.
    pub proof fn neg_reverses_order(self, other: Scalar)
        ensures
            self.spec_neg().spec_lt(other.spec_neg()) <==> other.spec_lt(self),
            self.spec_neg().spec_le(other.spec_neg()) <==> other.spec_le(self),
            self.spec_neg().spec_neg() == self,
            self.spec_neg().nan() <==> self.nan(),
    {
    }

    /// The magnitude of a number is the number or its opposite, and is not
    /// below zero.
    pub proof fn abs_is_magnitude(self)
        ensures
            self.spec_abs() == self || self.spec_abs() == self.spec_neg(),
            !self.nan() ==> self.spec_abs().spec_ge(Scalar { bits: 0 }),
            self.spec_abs().rank() == self.magnitude(),
    {
    }

    /// A finite number with the smaller pattern has the smaller magnitude.
    proof fn weight_grows_with_magnitude(self, other: Scalar)
        requires
            self.finite(),
            other.finite(),
            self.magnitude() < other.magnitude(),
        ensures
            self.weight() < other.weight(),
    {
        let hidden = HIDDEN_BIT as int;
        let ea = self.exponent();
        let eb = other.exponent();
        let fa = self.magnitude() % hidden;
        let fb = other.magnitude() % hidden;
        let sa = self.scale() as nat;
        let sb = other.scale() as nat;
        let pa = pow2(sa) as int;
        let pb = pow2(sb) as int;
        lemma_pow2_pos(sa);
        lemma_pow2_pos(sb);
        assert(self.magnitude() == hidden * ea + fa && other.magnitude() == hidden * eb + fb);
        assert(ea <= eb) by (nonlinear_arith)
            requires
                hidden * ea + fa < hidden * eb + fb,
                0 <= fa < hidden,
                0 <= fb < hidden,
        ;
        if ea == eb {
            assert(self.significand() * pa < other.significand() * pa) by (nonlinear_arith)
                requires
                    self.significand() < other.significand(),
                    pa > 0,
            ;
        } else {
            assert(other.significand() >= hidden);
            if ea == 0 {
                if sb > 1 {
                    lemma_pow2_strictly_increases(1, sb);
                }
                assert(self.significand() * pa < other.significand() * pb) by (nonlinear_arith)
                    requires
                        0 <= self.significand() < hidden,
                        other.significand() >= hidden,
                        0 < pa <= pb,
                ;
            } else {
                lemma_pow2_unfold(sa + 1);
                if sb > sa + 1 {
                    lemma_pow2_strictly_increases(sa + 1, sb);
                }
                assert(self.significand() * pa < other.significand() * pb) by (nonlinear_arith)
                    requires
                        0 <= self.significand() < 2 * hidden,
                        other.significand() >= hidden,
                        0 < pa,
                        2 * pa <= pb,
                ;
            }
        }
    }

    /// The order of the patterns is the order of the numbers that they
    /// stand for: of two finite numbers, the one with the smaller pattern
    /// below the sign bit is the one of the smaller magnitude, and numbers
    /// of equal magnitude have equal patterns there.
    pub proof fn rank_orders_magnitudes(self, other: Scalar)
        requires
            self.finite(),
            other.finite(),
        ensures
            self.magnitude() < other.magnitude() <==> self.weight() < other.weight(),
            self.magnitude() == other.magnitude() <==> self.weight() == other.weight(),
    {
        if self.magnitude() < other.magnitude() {
            self.weight_grows_with_magnitude(other);
        } else if other.magnitude() < self.magnitude() {
            other.weight_grows_with_magnitude(self);
        } else {
            assert(self.exponent() == other.exponent());
        }
    }
}

} // verus!
