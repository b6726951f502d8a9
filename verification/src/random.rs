//! The source of randomness that generation and reseeding draw from.

use vstd::prelude::*;
use rand::rngs::StdRng;
use rand::{Rng, SeedableRng};

verus! {

#[verifier::external_type_specification]
#[verifier::external_body]
pub struct ExStdRng(StdRng);

/// Calls `StdRng::seed_from_u64` of `rand`. Nothing is claimed of the
/// generator that comes back.
#[verifier::external_body]
pub(crate) fn seeded_generator(seed: u64) -> StdRng {
    StdRng::seed_from_u64(seed)
}

/// Calls `Rng::gen_range` of `rand` on the inclusive range `low..=high`.
/// The call panics on an empty range, which `requires` leaves out; the
/// contract claims only that the value drawn lies in the range.
#[verifier::external_body]
pub(crate) fn draw_between(rng: &mut StdRng, low: i32, high: i32) -> (value: i32)
    requires
        low <= high,
    ensures
        low <= value <= high,
{
    rng.gen_range(low..=high)
}

/// A seedable generator of uniformly distributed coordinates.
pub struct RandomSource {
    generator: StdRng,
}

impl RandomSource {
    /// A generator seeded with `seed`. It is opaque to the proofs: nothing is
    /// stated of what it will draw, only, with each draw, the range that the
    /// value lies in.
    pub fn from_seed(seed: u64) -> (source: Self) {
        RandomSource { generator: seeded_generator(seed) }
    }

    /// A coordinate between `-half` and `half`, both included.
    pub fn coordinate(&mut self, half: i32) -> (value: i32)
        requires
            0 <= half,
        ensures
            -half <= value <= half,
    {
        draw_between(&mut self.generator, -half, half)
    }
}

} // verus!
