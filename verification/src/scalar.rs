//! Binary64 numbers carried by their encodings.
//!
//! The crate never does arithmetic on a number: it compares numbers, picks
//! among them and hands them through. All of that can be read off the 64 bits
//! of the encoding: one sign bit, then eleven exponent bits and fifty-two
//! fraction bits that together grow with the number's absolute value.
use vstd::prelude::*;

verus! {

/// The sign bit of an encoding.
pub const SIGN_BIT: u64 = 0x8000_0000_0000_0000;

/// The encoding of positive infinity; every larger magnitude is a NaN.
pub const INFINITY_BITS: u64 = 0x7FF0_0000_0000_0000;

/// The encoding of the number one.
pub const ONE_BITS: u64 = 0x3FF0_0000_0000_0000;

/// A binary64 number, held as its encoding.
#[derive(Clone, Copy, Debug)]
pub struct Scalar {
    pub bits: u64,
}

impl Scalar {
    /// The encoding without its sign bit.
    pub open spec fn magnitude(self) -> int {
        if self.bits >= SIGN_BIT {
            self.bits - SIGN_BIT
        } else {
            self.bits as int
        }
    }

    /// Whether the encoding is that of a NaN.
    pub open spec fn spec_is_nan(self) -> bool {
        self.magnitude() > INFINITY_BITS
    }

    /// The place of a number on the number line: of two numbers that are not
    /// NaN the smaller has the smaller rank, and both zeros have rank 0.
    pub open spec fn rank(self) -> int {
        if self.bits >= SIGN_BIT {
            -self.magnitude()
        } else {
            self.magnitude()
        }
    }

    /// `self < other`: false as soon as one of the two is a NaN.
    pub open spec fn spec_lt(self, other: Scalar) -> bool {
        !self.spec_is_nan() && !other.spec_is_nan() && self.rank() < other.rank()
    }

    /// `self <= other`: false as soon as one of the two is a NaN.
    pub open spec fn spec_le(self, other: Scalar) -> bool {
        !self.spec_is_nan() && !other.spec_is_nan() && self.rank() <= other.rank()
    }

    /// `self == other` as numbers: the two zeros are equal, a NaN equals nothing.
    pub open spec fn spec_equals(self, other: Scalar) -> bool {
        !self.spec_is_nan() && !other.spec_is_nan() && self.rank() == other.rank()
    }

    /// Whether the number is zero, of either sign.
    pub open spec fn spec_is_zero(self) -> bool {
        self.magnitude() == 0
    }

    /// The number clamped into the unit interval, a NaN counting as one.
    pub open spec fn spec_clamp_unit(self) -> Scalar {
        if self.spec_is_nan() || self.rank() >= ONE_BITS {
            Scalar { bits: ONE_BITS }
        } else if self.rank() > 0 {
            self
        } else {
            Scalar { bits: 0 }
        }
    }

    /// Whether the number lies in the closed unit interval.
    pub open spec fn in_unit_interval(self) -> bool {
        !self.spec_is_nan() && 0 <= self.rank() <= ONE_BITS
    }

    pub fn from_bits(bits: u64) -> (r: Scalar)
        ensures
            r.bits == bits,
    {
        Scalar { bits }
    }

    pub fn to_bits(&self) -> (r: u64)
        ensures
            r == self.bits,
    {
        self.bits
    }

    /// Positive zero.
    pub fn zero() -> (r: Scalar)
        ensures
            r.bits == 0,
    {
        Scalar { bits: 0 }
    }

    /// The number one.
    pub fn one() -> (r: Scalar)
        ensures
            r.bits == ONE_BITS,
    {
        Scalar { bits: ONE_BITS }
    }

    /// Positive infinity.
    pub fn infinity() -> (r: Scalar)
        ensures
            r.bits == INFINITY_BITS,
    {
        Scalar { bits: INFINITY_BITS }
    }

    fn magnitude_bits(&self) -> (m: u64)
        ensures
            m == self.magnitude(),
            m < SIGN_BIT,
    {
        if self.bits >= SIGN_BIT {
            self.bits - SIGN_BIT
        } else {
            self.bits
        }
    }

    pub fn is_nan(&self) -> (r: bool)
        ensures
            r == self.spec_is_nan(),
    {
        self.magnitude_bits() > INFINITY_BITS
    }

    pub fn is_zero(&self) -> (r: bool)
        ensures
            r == self.spec_is_zero(),
            r == self.spec_equals(Scalar { bits: 0 }),
    {
        self.magnitude_bits() == 0
    }

    /// The rank as a machine integer.
    pub fn order_key(&self) -> (k: i64)
        ensures
            k == self.rank(),
    {
        let m: i64 = self.magnitude_bits() as i64;
        if self.bits >= SIGN_BIT {
            -m
        } else {
            m
        }
    }

    pub fn lt(&self, other: &Scalar) -> (r: bool)
        ensures
            r == self.spec_lt(*other),
    {
        !self.is_nan() && !other.is_nan() && self.order_key() < other.order_key()
    }

    pub fn le(&self, other: &Scalar) -> (r: bool)
        ensures
            r == self.spec_le(*other),
    {
        !self.is_nan() && !other.is_nan() && self.order_key() <= other.order_key()
    }

    pub fn gt(&self, other: &Scalar) -> (r: bool)
        ensures
            r == other.spec_lt(*self),
    {
        other.lt(self)
    }

    pub fn ge(&self, other: &Scalar) -> (r: bool)
        ensures
            r == other.spec_le(*self),
    {
        other.le(self)
    }

    pub fn equals(&self, other: &Scalar) -> (r: bool)
        ensures
            r == self.spec_equals(*other),
    {
        !self.is_nan() && !other.is_nan() && self.order_key() == other.order_key()
    }

    /// The smaller of two numbers. A NaN loses against a number; of two equal
    /// numbers `self` is returned.
    pub fn min(self, other: Scalar) -> (r: Scalar)
        ensures
            r == if self.spec_is_nan() {
                other
            } else if other.spec_lt(self) {
                other
            } else {
                self
            },
    {
        if self.is_nan() {
            other
        } else if other.lt(&self) {
            other
        } else {
            self
        }
    }

    /// The larger of two numbers. A NaN loses against a number; of two equal
    /// numbers `self` is returned.
    pub fn max(self, other: Scalar) -> (r: Scalar)
        ensures
            r == if self.spec_is_nan() {
                other
            } else if self.spec_lt(other) {
                other
            } else {
                self
            },
    {
        if self.is_nan() {
            other
        } else if self.lt(&other) {
            other
        } else {
            self
        }
    }

    /// Clamps the number into the unit interval: the larger of zero and the
    /// smaller of one and the number.
    pub fn clamp_unit(self) -> (r: Scalar)
        ensures
            r == self.spec_clamp_unit(),
            r.in_unit_interval(),
    {
        Scalar::zero().max(Scalar::one().min(self))
    }
}

} // verus!
