//! Amounts of money.

use vstd::prelude::*;

verus! {

/// An amount of money, held as the bit pattern of the IEEE 754
/// double-precision number that was submitted or stored.
///
/// The library carries amounts through unchanged and never does arithmetic on
/// them. Two amounts are equal here when their bit patterns are.
#[derive(Clone, Copy, Debug, PartialEq, Eq, Structural)]
pub struct Amount {
    pub bits: u64,
}

/// The bit pattern of positive infinity; every pattern above it with a clear
/// sign bit is a NaN.
pub const POSITIVE_INFINITY_BITS: u64 = 0x7FF0_0000_0000_0000;

/// The bit pattern of negative zero.
pub const NEGATIVE_ZERO_BITS: u64 = 0x8000_0000_0000_0000;

impl Amount {
    /// The number is zero or above: its sign bit is clear and it is not a
    /// NaN, or it is negative zero.
    pub open spec fn is_at_least_zero(self) -> bool {
        self.bits <= POSITIVE_INFINITY_BITS || self.bits == NEGATIVE_ZERO_BITS
    }

    /// The amount with the given bit pattern.
    pub fn from_bits(bits: u64) -> (r: Amount)
        ensures
            r.bits == bits,
    {
        Amount { bits }
    }

    /// The bit pattern of the amount.
    pub fn to_bits(self) -> (r: u64)
        ensures
            r == self.bits,
    {
        self.bits
    }

    /// Whether the number is zero or above.
    pub fn at_least_zero(self) -> (r: bool)
        ensures
            r == self.is_at_least_zero(),
    {
        self.bits <= POSITIVE_INFINITY_BITS || self.bits == NEGATIVE_ZERO_BITS
    }
}

} // verus!
