//! Numbers as they cross the native boundary.
use vstd::prelude::*;

verus! {

/// Bit pattern of the IEEE 754 binary64 value `-1.0`, the engine's "absent"
/// marker for radiuses and scalar fallbacks.
pub const MINUS_ONE_BITS: u64 = 0xBFF0_0000_0000_0000;

/// Bit pattern of the IEEE 754 binary64 value `+0.0`.
pub const ZERO_BITS: u64 = 0;

/// Bit pattern of the IEEE 754 binary64 value `5.0`.
pub const FIVE_BITS: u64 = 0x4014_0000_0000_0000;

/// An IEEE 754 binary64 number held as its bit pattern.
///
/// The boundary layer never does arithmetic on coordinates, distances or
/// radiuses: it copies them, compares them with sentinels and checks that they
/// are finite. Holding the exact bits makes every copy lossless.
#[derive(Clone, Copy, Debug, PartialEq, Eq, Structural)]
pub struct Scalar {
    pub bits: u64,
}

/// The biased exponent field of a binary64 bit pattern.
pub open spec fn exponent_of(bits: u64) -> u64 {
    (bits >> 52u64) & 0x7ffu64
}

/// A binary64 bit pattern is finite unless its exponent field is all ones
/// (infinities and NaNs).
pub open spec fn finite_bits(bits: u64) -> bool {
    exponent_of(bits) != 0x7ffu64
}

/// A binary64 bit pattern denotes a number strictly greater than zero: sign bit
/// clear, finite, and not `+0.0`.
pub open spec fn positive_bits(bits: u64) -> bool {
    &&& bits >> 63u64 == 0u64
    &&& finite_bits(bits)
    &&& bits != 0u64
}

impl Scalar {
    /// The number whose bit pattern is `bits`.
    pub fn from_bits(bits: u64) -> (r: Scalar)
        ensures
            r.bits == bits,
    {
        Scalar { bits }
    }

    /// The bit pattern of this number.
    pub fn to_bits(self) -> (r: u64)
        ensures
            r == self.bits,
    {
        self.bits
    }

    /// The value `-1.0`, which the engine reads as "absent".
    pub fn minus_one() -> (r: Scalar)
        ensures
            r.bits == MINUS_ONE_BITS,
    {
        Scalar { bits: MINUS_ONE_BITS }
    }

    /// The value `+0.0`.
    pub fn zero() -> (r: Scalar)
        ensures
            r.bits == ZERO_BITS,
    {
        Scalar { bits: ZERO_BITS }
    }

    /// Whether the number is neither infinite nor NaN.
    pub fn is_finite(self) -> (r: bool)
        ensures
            r == finite_bits(self.bits),
    {
        (self.bits >> 52u64) & 0x7ffu64 != 0x7ffu64
    }

    /// Whether the number is strictly greater than zero.
    pub fn is_positive(self) -> (r: bool)
        ensures
            r == positive_bits(self.bits),
    {
        self.bits >> 63u64 == 0u64 && self.is_finite() && self.bits != 0u64
    }
}

} // verus!
