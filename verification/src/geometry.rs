//! Coordinates and deltas, carried as the bit patterns of IEEE 754 doubles.
//!
//! The state machine only needs the sign of a coordinate, the order of two
//! coordinates and a change of sign. All three are read off the encoding, so a
//! value is held by its 64 bits: the sign in the top bit, then eleven exponent
//! bits and fifty-two fraction bits.

use vstd::prelude::*;

verus! {

/// The weight of the sign bit of a double.
pub const SIGN_BIT: u64 = 0x8000_0000_0000_0000;

/// The encoding of positive infinity; a larger magnitude encodes a NaN.
pub const INFINITY_BITS: u64 = 0x7FF0_0000_0000_0000;

/// A double-precision number, held by its encoding.
#[derive(Clone, Copy, Debug, PartialEq, Eq, Structural, Hash)]
pub struct Scalar {
    pub bits: u64,
}

/// A position in physical pixels, measured from the top-left corner.
#[derive(Clone, Copy, Debug, PartialEq, Eq, Structural, Hash)]
pub struct PhysicalPosition {
    pub x: Scalar,
    pub y: Scalar,
}

impl Scalar {
    /// Whether the sign bit is set. This holds of negative numbers and of
    /// negative zero, negative infinity and NaNs that carry the sign.
    pub open spec fn spec_is_sign_negative(self) -> bool {
        self.bits >= SIGN_BIT
    }

    /// The encoding without its sign bit.
    pub open spec fn spec_magnitude(self) -> int {
        if self.bits >= SIGN_BIT {
            self.bits - SIGN_BIT
        } else {
            self.bits as int
        }
    }

    /// Whether the encoding is that of a NaN.
    pub open spec fn spec_is_nan(self) -> bool {
        self.spec_magnitude() > INFINITY_BITS
    }

    /// An integer that orders the numbers as their values do: among numbers of
    /// one sign the magnitudes order the values, and both zeros get 0.
    pub open spec fn spec_rank(self) -> int {
        if self.spec_is_sign_negative() {
            -self.spec_magnitude()
        } else {
            self.spec_magnitude()
        }
    }

    /// Whether this number is greater than `other`. A NaN is not greater than
    /// anything, and nothing is greater than a NaN.
    pub open spec fn spec_gt(self, other: Scalar) -> bool {
        !self.spec_is_nan() && !other.spec_is_nan() && self.spec_rank() > other.spec_rank()
    }

    /// The number with the opposite sign and the same magnitude.
    pub open spec fn spec_negated(self) -> Scalar {
        if self.bits >= SIGN_BIT {
            Scalar { bits: (self.bits - SIGN_BIT) as u64 }
        } else {
            Scalar { bits: (self.bits + SIGN_BIT) as u64 }
        }
    }

    /// The number with the given encoding.
    pub fn from_bits(bits: u64) -> (value: Scalar)
        ensures
            value.bits == bits,
    {
        Scalar { bits }
    }

    /// The encoding of this number.
    pub fn to_bits(self) -> (bits: u64)
        ensures
            bits == self.bits,
    {
        self.bits
    }

    /// Whether the sign bit is set.
    pub fn is_sign_negative(self) -> (negative: bool)
        ensures
            negative == self.spec_is_sign_negative(),
    {
        self.bits >= SIGN_BIT
    }

    /// The encoding without its sign bit.
    pub fn magnitude(self) -> (magnitude: u64)
        ensures
            magnitude == self.spec_magnitude(),
            magnitude < SIGN_BIT,
    {
        if self.bits >= SIGN_BIT {
            self.bits - SIGN_BIT
        } else {
            self.bits
        }
    }

    /// Whether the encoding is that of a NaN.
    pub fn is_nan(self) -> (nan: bool)
        ensures
            nan == self.spec_is_nan(),
    {
        self.magnitude() > INFINITY_BITS
    }

    /// Whether this number is greater than `other`.
    pub fn gt(self, other: Scalar) -> (greater: bool)
        ensures
            greater == self.spec_gt(other),
    {
        if self.is_nan() || other.is_nan() {
            return false;
        }
        let a: u64 = self.magnitude();
        let b: u64 = other.magnitude();
        if self.is_sign_negative() {
            other.is_sign_negative() && a < b
        } else if other.is_sign_negative() {
            a > 0 || b > 0
        } else {
            a > b
        }
    }

    /// The number with the opposite sign and the same magnitude.
    pub fn negated(self) -> (opposite: Scalar)
        ensures
            opposite == self.spec_negated(),
            opposite.spec_magnitude() == self.spec_magnitude(),
            opposite.spec_is_sign_negative() == !self.spec_is_sign_negative(),
    {
        if self.bits >= SIGN_BIT {
            Scalar { bits: self.bits - SIGN_BIT }
        } else {
            Scalar { bits: self.bits + SIGN_BIT }
        }
    }
}

} // verus!
