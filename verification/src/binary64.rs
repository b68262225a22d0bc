//! Values of the variable store.
//!
//! The simulator's variables are IEEE 754 double precision numbers. The library
//! carries such a number as its 64-bit pattern: sign in bit 63, exponent in bits
//! 62 to 52, fraction in bits 51 to 0. The only questions it ever asks of a
//! value, "is it above zero" and "is it zero", then are facts about an integer.

use vstd::prelude::*;

verus! {

/// The bit pattern of positive infinity: sign clear, exponent all ones, fraction zero.
pub const POSITIVE_INFINITY_BITS: u64 = 0x7FF0_0000_0000_0000;

/// A double precision number, held as its bit pattern.
#[derive(Clone, Copy, PartialEq, Eq, Structural, Debug)]
pub struct Binary64 {
    pub bits: u64,
}

impl Binary64 {
    /// Whether the number is greater than zero.
    ///
    /// Patterns `1 ..= POSITIVE_INFINITY_BITS` are the positive subnormal,
    /// normal and infinite numbers. Pattern `0` is positive zero, the patterns
    /// above `POSITIVE_INFINITY_BITS` with a clear sign bit are NaNs, which
    /// compare false with everything, and a set sign bit gives negative zero, a
    /// negative number or a NaN.
    pub open spec fn spec_is_positive(self) -> bool {
        0 < self.bits <= POSITIVE_INFINITY_BITS
    }

    /// Positive zero, the value a store gives for a variable nobody has set.
    pub open spec fn spec_zero() -> Binary64 {
        Binary64 { bits: 0 }
    }

    /// The number with the given bit pattern.
    pub fn from_bits(bits: u64) -> (value: Binary64)
        ensures
            value.bits == bits,
    {
        Binary64 { bits }
    }

    /// The bit pattern of the number.
    pub fn to_bits(self) -> (bits: u64)
        ensures
            bits == self.bits,
    {
        self.bits
    }

    /// Positive zero.
    #[verifier::when_used_as_spec(spec_zero)]
    pub fn zero() -> (value: Binary64)
        ensures
            value == Binary64::spec_zero(),
    {
        Binary64 { bits: 0 }
    }

    /// Whether the number is greater than zero.
    #[verifier::when_used_as_spec(spec_is_positive)]
    pub fn is_positive(self) -> (positive: bool)
        ensures
            positive == self.spec_is_positive(),
    {
        0 < self.bits && self.bits <= POSITIVE_INFINITY_BITS
    }
}

} // verus!
