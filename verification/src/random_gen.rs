//! The random-number register: a one-byte device that holds a freshly
//! sampled value after every write.
use vstd::prelude::*;

use rand::Rng;

verus! {

/// The random device: the address it is mapped at and the half-open range
/// the samples are drawn from.
pub struct RandomGenerator {
    pub address: u16,
    pub range: core::ops::Range<u8>,
}

/// Relies on rand's `thread_rng` and `Rng::gen_range`: a uniform sample in
/// `[low, high)`; the call panics only on an empty range, which the
/// precondition rules out.
#[verifier::external_body]
fn sample_in(low: u8, high: u8) -> (r: u8)
    requires
        low < high,
    ensures
        low <= r < high,
{
    rand::thread_rng().gen_range(low..high)
}

impl RandomGenerator {
    /// A random device at `address` sampling from `range`.
    pub fn new(address: u16, range: core::ops::Range<u8>) -> (g: RandomGenerator)
        requires
            range.start < range.end,
        ensures
            g.address == address,
            g.range == range,
    {
        RandomGenerator { address, range }
    }

    /// One fresh sample from the device's range.
    pub fn generate(&self) -> (r: u8)
        requires
            self.range.start < self.range.end,
        ensures
            self.range.start <= r < self.range.end,
    {
        sample_in(self.range.start, self.range.end)
    }
}

} // verus!
