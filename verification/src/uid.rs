//! Stable identifiers: 128-bit UUIDs held as two 64-bit halves in field
//! order, so that equality and constants stay plain values.

use vstd::prelude::*;

verus! {

/// A 128-bit UUID: `hi` holds the first eight bytes in big-endian order,
/// `lo` the last eight.
#[derive(Clone, Copy, Debug, PartialEq, Eq, Structural)]
pub struct Uuid {
    /// First eight bytes, big-endian.
    pub hi: u64,
    /// Last eight bytes, big-endian.
    pub lo: u64,
}

impl Uuid {
    /// Builds a UUID from its two halves.
    pub fn new(hi: u64, lo: u64) -> (r: Uuid)
        ensures
            r == (Uuid { hi, lo }),
    {
        Uuid { hi, lo }
    }
}

} // verus!
