//! Real numbers as they travel between a caller and the engine.

use vstd::prelude::*;

verus! {

/// A double-precision number, held as its IEEE 754 bit pattern.
#[derive(Clone, Copy, Debug, PartialEq, Eq, Structural)]
pub struct Real {
    bits: u64,
}

impl Real {
    /// The bit pattern of the number.
    pub closed spec fn bits(self) -> u64 {
        self.bits
    }

    /// Whether the number compares equal to zero: positive and negative zero do,
    /// every other pattern (a NaN too) does not.
    pub open spec fn is_zero(self) -> bool {
        self.bits() == 0 || self.bits() == 0x8000_0000_0000_0000u64
    }

    /// The number with the given bit pattern.
    pub fn from_bits(bits: u64) -> (r: Real)
        ensures
            r.bits() == bits,
    {
        Real { bits }
    }

    /// The bit pattern of the number.
    pub fn to_bits(self) -> (bits: u64)
        ensures
            bits == self.bits(),
    {
        self.bits
    }

    /// Tells whether the number compares equal to zero.
    pub fn equals_zero(self) -> (z: bool)
        ensures
            z == self.is_zero(),
    {
        self.bits == 0 || self.bits == 0x8000_0000_0000_0000u64
    }
}

} // verus!
