//! Double-precision numbers carried through the library by their bit patterns.

use vstd::prelude::*;

verus! {

/// A double-precision number, held by its IEEE 754 bit pattern.
///
/// The library never computes with these numbers: it moves them from the
/// backend's response into the route, bit for bit.
#[derive(Clone, Copy, Debug, PartialEq, Eq, Structural, Hash)]
pub struct Double {
    pub bits: u64,
}

impl Double {
    /// The number whose IEEE 754 bit pattern is `bits`.
    pub fn from_bits(bits: u64) -> (d: Self)
        ensures
            d.bits == bits,
    {
        Double { bits }
    }

    /// The IEEE 754 bit pattern of this number.
    pub fn to_bits(self) -> (bits: u64)
        ensures
            bits == self.bits,
    {
        self.bits
    }
}

} // verus!
