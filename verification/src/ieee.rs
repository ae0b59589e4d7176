//! Carriers for IEEE-754 values that the library stores and hands back but
//! never computes with: each keeps the exact bit pattern of the value.
use vstd::prelude::*;

verus! {

/// A single-precision IEEE-754 value, kept as its 32-bit pattern.
#[derive(Clone, Copy, Debug, PartialEq, Eq, Default, Structural)]
pub struct SinglePrecision {
    pub bits: u32,
}

/// A double-precision IEEE-754 value, kept as its 64-bit pattern.
#[derive(Clone, Copy, Debug, PartialEq, Eq, Default, Structural)]
pub struct DoublePrecision {
    pub bits: u64,
}

impl SinglePrecision {
    /// The value `0.0` (all bits clear).
    pub fn zero() -> (r: SinglePrecision)
        ensures
            r.bits == 0,
    {
        SinglePrecision { bits: 0 }
    }
}

} // verus!
