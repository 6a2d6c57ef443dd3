//! The pipeline's shared pseudo-random source: a seeded deterministic
//! generator whose draws are consumed in one fixed sequential order.
//!
//! The generator is rand's `StdRng`.  Seeded through `seed_from_u64`, its
//! stream of `next_u32` draws is a fixed function of the seed, which the
//! uninterpreted function [`stream_at`] names: the `k`-th draw after seeding
//! with `s` is `stream_at(s, k)`.  A [`RandomSource`] records, in ghost
//! state, the seed it was built from and how many draws have been taken, so
//! every verified caller knows exactly which element of the stream it gets.

use vstd::prelude::*;

verus! {

#[verifier::external_type_specification]
#[verifier::external_body]
pub struct ExStdRng(rand::rngs::StdRng);

/// The `k`-th 32-bit draw of a `StdRng` seeded from `seed`.
pub uninterp spec fn stream_at(seed: u64, k: int) -> u32;

/// A seeded deterministic random stream, consumed strictly in order.
///
/// The fields are private: the generator is only ever touched through
/// [`RandomSource::from_seed`] and [`RandomSource::next_u32`], which keep it
/// paired with the recorded seed and draw count.
pub struct RandomSource {
    rng: rand::rngs::StdRng,
    seed: Ghost<u64>,
    drawn: Ghost<int>,
}

/// Relies on rand's `SeedableRng::seed_from_u64` for `StdRng`: the
/// generator's state, and hence its whole stream of draws, is a fixed
/// function of the 64-bit seed.  What the stream holds is stated on
/// [`RandomSource::next_u32`], over the ghost seed recorded beside the
/// generator.
#[verifier::external_body]
fn stdrng_from_seed(seed: u64) -> rand::rngs::StdRng {
    <rand::rngs::StdRng as rand::SeedableRng>::seed_from_u64(seed)
}

impl RandomSource {
    /// The seed this source was built from.
    pub closed spec fn seed(&self) -> u64 {
        self.seed@
    }

    /// How many draws have been taken from this source so far.
    pub closed spec fn drawn(&self) -> int {
        self.drawn@
    }

    /// A fresh source seeded from `seed`, with no draws taken yet.
    pub fn from_seed(seed: u64) -> (r: RandomSource)
        ensures
            r.seed() == seed,
            r.drawn() == 0,
    {
        RandomSource { rng: stdrng_from_seed(seed), seed: Ghost(seed), drawn: Ghost(0int) }
    }

    /// Relies on rand's `RngCore::next_u32` for `StdRng` (the ChaCha block
    /// cipher with 12 rounds): the next draw is a fixed function of the seed
    /// and of how many draws were already taken.
    #[verifier::external_body]
    pub(crate) fn next_u32(&mut self) -> (r: u32)
        ensures
            final(self).seed() == old(self).seed(),
            final(self).drawn() == old(self).drawn() + 1,
            r == stream_at(old(self).seed(), old(self).drawn()),
    {
        rand::RngCore::next_u32(&mut self.rng)
    }
}

/// Relies on `rand::random`: a draw from the thread-local OS-seeded
/// generator.  Nothing is promised of the value; callers must hold for
/// every outcome.
#[verifier::external_body]
pub(crate) fn random_u32() -> (r: u32)
{
    rand::random::<u32>()
}

} // verus!
