//! Real-valued quantities of the scene, kept as IEEE-754 single-precision bit
//! patterns.
//!
//! The library never does arithmetic on these values: callers compute them and
//! hand over the patterns. What the library needs is their order, and that is
//! a matter of integers: every pattern that is a number has a signed rank, and
//! one number is below another exactly when its rank is.
//!
//! A pattern splits into a sign bit, eight bits of exponent and twenty-three
//! bits of fraction. A number with an exponent field `e` above zero has the
//! magnitude `(2^23 + fraction) * 2^(e - 150)`.
use vstd::prelude::*;
use vstd::arithmetic::power2::pow2;

verus! {

/// The pattern with only the sign bit set.
pub const SIGN_BIT: u32 = 0x8000_0000;

/// The pattern of positive zero.
pub const ZERO_BITS: u32 = 0x0000_0000;

/// The pattern of one.
pub const ONE_BITS: u32 = 0x3f80_0000;

/// The pattern of minus one.
pub const NEG_ONE_BITS: u32 = 0xbf80_0000;

/// The pattern of positive infinity. Every magnitude above it is not a number.
pub const INFINITY_BITS: u32 = 0x7f80_0000;

/// The least magnitude whose exponent field is 1: two to the power 23.
pub const HIDDEN_BIT: u32 = 0x0080_0000;

/// The exponent field of the numbers from one up to, but not including, two.
pub const EXPONENT_OF_ONE: u32 = 127;

/// The exponent field at which the fraction has no binary place left: the
/// magnitude is then `2^23 + fraction` itself.
pub const EXPONENT_OF_UNIT_STEP: u32 = 150;

/// The pattern of the tolerance within which a point counts as lying on a
/// plane: the single-precision number nearest to one ten-thousandth.
pub const EPSILON_BITS: u32 = 0x38d1_b717;

/// A single-precision number, held as its bit pattern.
///
/// Equality of two `Scalar`s is equality of patterns: the two zeros differ,
/// and a value that is not a number equals itself. The numeric order is given
/// by [`Scalar::lt`] and [`Scalar::gt`].
#[derive(Clone, Copy, Debug, PartialEq, Eq, Structural)]
pub struct Scalar {
    pub bits: u32,
}

impl Scalar {
    /// The pattern without its sign bit.
    pub open spec fn magnitude(self) -> int {
        if self.bits >= SIGN_BIT {
            self.bits - SIGN_BIT
        } else {
            self.bits as int
        }
    }

    /// Whether the sign bit is set.
    pub open spec fn sign(self) -> bool {
        self.bits >= SIGN_BIT
    }

    /// Whether the pattern stands for no number.
    pub open spec fn is_nan_spec(self) -> bool {
        self.magnitude() > INFINITY_BITS
    }

    /// The place of a number in the numeric order: the magnitude, negated
    /// under the sign bit. Both zeros have rank 0; the infinities have the
    /// least and the greatest rank.
    pub open spec fn rank(self) -> int {
        if self.sign() {
            -self.magnitude()
        } else {
            self.magnitude()
        }
    }

    /// The exponent field: bits 23 to 30 of the pattern.
    pub open spec fn exponent(self) -> int {
        self.magnitude() / (HIDDEN_BIT as int)
    }

    /// The fraction field: bits 0 to 22 of the pattern.
    pub open spec fn fraction(self) -> int {
        self.magnitude() % (HIDDEN_BIT as int)
    }

    /// The whole part of a number's magnitude: the magnitude with everything
    /// after the binary point dropped. It is 0 for a magnitude below one. For
    /// an infinity the formula gives a value above the whole part of every
    /// number.
    pub open spec fn whole(self) -> nat {
        let e = self.exponent();
        let significand = HIDDEN_BIT + self.fraction();
        if e < EXPONENT_OF_ONE {
            0
        } else if e <= EXPONENT_OF_UNIT_STEP {
            (significand / pow2((EXPONENT_OF_UNIT_STEP - e) as nat) as int) as nat
        } else {
            (significand * pow2((e - EXPONENT_OF_UNIT_STEP) as nat)) as nat
        }
    }

    /// The numeric `<`: false whenever either side is not a number.
    pub open spec fn lt_spec(&self, other: &Scalar) -> bool {
        !self.is_nan_spec() && !other.is_nan_spec() && self.rank() < other.rank()
    }

    /// The numeric `>`: false whenever either side is not a number.
    pub open spec fn gt_spec(&self, other: &Scalar) -> bool {
        !self.is_nan_spec() && !other.is_nan_spec() && self.rank() > other.rank()
    }

    /// The absolute value: the same pattern with the sign bit cleared.
    pub open spec fn abs_spec(&self) -> Scalar {
        Scalar { bits: self.magnitude() as u32 }
    }

    /// Wraps a bit pattern.
    pub fn from_bits(bits: u32) -> (s: Scalar)
        ensures
            s.bits == bits,
    {
        Scalar { bits }
    }

    /// The bit pattern.
    pub fn to_bits(&self) -> (bits: u32)
        ensures
            bits == self.bits,
    {
        self.bits
    }

    /// Positive zero.
    pub fn zero() -> (s: Scalar)
        ensures
            s.bits == ZERO_BITS,
    {
        Scalar { bits: ZERO_BITS }
    }

    /// One.
    pub fn one() -> (s: Scalar)
        ensures
            s.bits == ONE_BITS,
    {
        Scalar { bits: ONE_BITS }
    }

    /// Minus one.
    pub fn neg_one() -> (s: Scalar)
        ensures
            s.bits == NEG_ONE_BITS,
    {
        Scalar { bits: NEG_ONE_BITS }
    }

    /// Positive infinity.
    pub fn infinity() -> (s: Scalar)
        ensures
            s.bits == INFINITY_BITS,
    {
        Scalar { bits: INFINITY_BITS }
    }

    /// The tolerance for a point to count as lying on a plane.
    pub fn epsilon() -> (s: Scalar)
        ensures
            s.bits == EPSILON_BITS,
    {
        Scalar { bits: EPSILON_BITS }
    }

    /// The pattern without its sign bit.
    fn magnitude_bits(&self) -> (m: u32)
        ensures
            m == self.magnitude(),
    {
        if self.bits >= SIGN_BIT {
            self.bits - SIGN_BIT
        } else {
            self.bits
        }
    }

    /// The rank, as a machine integer.
    fn key(&self) -> (k: i64)
        ensures
            k == self.rank(),
    {
        let m: i64 = self.magnitude_bits() as i64;
        if self.bits >= SIGN_BIT {
            -m
        } else {
            m
        }
    }

    /// Whether the pattern stands for no number.
    #[verifier::when_used_as_spec(is_nan_spec)]
    pub fn is_nan(self) -> (r: bool)
        ensures
            r == self.is_nan_spec(),
    {
        self.magnitude_bits() > INFINITY_BITS
    }

    /// The numeric `<`.
    #[verifier::when_used_as_spec(lt_spec)]
    pub fn lt(&self, other: &Scalar) -> (r: bool)
        ensures
            r == self.lt_spec(other),
    {
        !self.is_nan() && !other.is_nan() && self.key() < other.key()
    }

    /// The numeric `>`.
    #[verifier::when_used_as_spec(gt_spec)]
    pub fn gt(&self, other: &Scalar) -> (r: bool)
        ensures
            r == self.gt_spec(other),
    {
        !self.is_nan() && !other.is_nan() && self.key() > other.key()
    }

    /// The absolute value.
    #[verifier::when_used_as_spec(abs_spec)]
    pub fn abs(&self) -> (r: Scalar)
        ensures
            r == self.abs_spec(),
    {
        Scalar { bits: self.magnitude_bits() }
    }
}

} // verus!
