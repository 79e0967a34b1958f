//! Numeric quantities that the engine carries but never computes with.

use vstd::prelude::*;

verus! {

/// A 64-bit IEEE-754 binary quantity, held as its bit pattern.
///
/// Rates, byte counts, ratios and timestamps arrive from the backend as JSON
/// numbers. The engine only stores, copies and compares them, so it keeps the
/// exact bit pattern and leaves arithmetic and formatting to the caller.
#[derive(Clone, Copy, Debug, PartialEq, Eq, Structural)]
pub struct Scalar {
    pub bits: u64,
}

impl Scalar {
    /// The quantity with the given bit pattern.
    pub fn from_bits(bits: u64) -> (r: Scalar)
        ensures
            r.bits == bits,
    {
        Scalar { bits }
    }

    /// The bit pattern of the quantity.
    pub fn to_bits(self) -> (r: u64)
        ensures
            r == self.bits,
    {
        self.bits
    }

    /// Positive zero, the all-zero bit pattern.
    pub fn zero() -> (r: Scalar)
        ensures
            r.bits == 0,
    {
        Scalar { bits: 0 }
    }
}

impl Default for Scalar {
    fn default() -> (r: Scalar)
        ensures
            r.bits == 0,
    {
        Scalar { bits: 0 }
    }
}

} // verus!
