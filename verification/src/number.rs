use vstd::prelude::*;

verus! {

/// Largest bit pattern of a non-negative, non-NaN binary64 value (positive infinity).
pub const POS_INFINITY_BITS: u64 = 0x7ff0_0000_0000_0000;

/// Bit pattern of negative zero.
pub const NEG_ZERO_BITS: u64 = 0x8000_0000_0000_0000;

/// Largest bit pattern of a negative, non-NaN binary64 value (negative infinity).
pub const NEG_INFINITY_BITS: u64 = 0xfff0_0000_0000_0000;

/// How a number stands to zero.
#[derive(Clone, Copy, Debug, PartialEq, Eq, Structural)]
pub enum Sign {
    /// Strictly below zero.
    Negative,
    /// Zero (of either sign) or above.
    NonNegative,
    /// Not a number: neither below zero nor at or above it.
    Unordered,
}

/// A number as the wire carries it: the bit pattern of an IEEE-754
/// binary64 value. The library never computes with the number; it only carries
/// it and asks on which side of zero it lies.
#[derive(Clone, Copy, Debug, PartialEq, Eq, Structural)]
pub struct Number {
    pub bits: u64,
}

/// The side of zero on which the binary64 value with these bits lies.
///
/// Patterns up to positive infinity are zero or positive. With the sign bit
/// set, negative zero still counts as zero, the patterns after it up to
/// negative infinity are negative, and everything else encodes a NaN.
pub open spec fn sign_of_bits(bits: u64) -> Sign {
    if bits <= POS_INFINITY_BITS || bits == NEG_ZERO_BITS {
        Sign::NonNegative
    } else if NEG_ZERO_BITS < bits <= NEG_INFINITY_BITS {
        Sign::Negative
    } else {
        Sign::Unordered
    }
}

impl Number {
    pub open spec fn sign(self) -> Sign {
        sign_of_bits(self.bits)
    }

    /// Wraps a bit pattern.
    pub fn from_bits(bits: u64) -> (r: Number)
        ensures
            r.bits == bits,
    {
        Number { bits }
    }

    /// The bit pattern.
    pub fn to_bits(&self) -> (bits: u64)
        ensures
            bits == self.bits,
    {
        self.bits
    }

    /// The number zero.
    pub fn zero() -> (r: Number)
        ensures
            r.bits == 0,
            r.sign() == Sign::NonNegative,
    {
        Number { bits: 0 }
    }

    /// Whether the number is strictly below zero.
    pub fn is_negative(&self) -> (b: bool)
        ensures
            b == (self.sign() == Sign::Negative),
    {
        NEG_ZERO_BITS < self.bits && self.bits <= NEG_INFINITY_BITS
    }

    /// Whether the number is zero or above.
    pub fn is_non_negative(&self) -> (b: bool)
        ensures
            b == (self.sign() == Sign::NonNegative),
    {
        self.bits <= POS_INFINITY_BITS || self.bits == NEG_ZERO_BITS
    }
}

impl Default for Number {
    fn default() -> (r: Number)
        ensures
            r.bits == 0,
    {
        Number { bits: 0 }
    }
}

} // verus!
