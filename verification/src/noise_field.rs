//! One octave of coherent noise: a seeded simplex-noise field.
//!
//! The field is the noise crate's `Simplex` generator.  Its permutation
//! table is built deterministically from a 32-bit seed, and sampling it is
//! pure arithmetic over the table, so the sample is a fixed function of the
//! seed and the sample point, which the uninterpreted function
//! [`simplex_at`] names.

use vstd::prelude::*;
use crate::rng::RandomSource;
use crate::rng::stream_at;
use crate::scalar::{is_nan64, norm64_bits, DBITS_NAN};

verus! {

#[verifier::external_type_specification]
#[verifier::external_body]
pub struct ExSimplex(noise::Simplex);

/// The double-precision sample of a simplex-noise field with the given seed
/// at the point whose coordinates have bit patterns `x`, `y`, `z`, stated
/// for coordinates within the sampler's domain.
pub uninterp spec fn simplex_at(seed: u32, x: u64, y: u64, z: u64) -> u64;

/// The sampler's domain: a finite coordinate of magnitude below 2^59
/// (biased exponent below 0x43A), so the skewed lattice coordinate stays
/// within the signed integer range its floor is cast to.
pub open spec fn sim_coord_ok(c: u64) -> bool {
    (c / 0x10_0000_0000_0000) % 0x800 < 0x43A
}

/// Canonicalization does not move a coordinate across the domain bound: a
/// NaN is outside it on both sides, and every other pattern is unchanged.
pub proof fn lemma_coord_ok_norm(c: u64)
    ensures
        sim_coord_ok(norm64_bits(c)) == sim_coord_ok(c),
{
    if is_nan64(c) {
        assert(!sim_coord_ok(c));
        assert(!sim_coord_ok(DBITS_NAN));
    }
}

/// Tests whether a coordinate lies in the sampler's domain.
pub(crate) fn coord_ok(c: u64) -> (r: bool)
    ensures
        r == sim_coord_ok(c),
{
    ((c / 0x10_0000_0000_0000) % 0x800) < 0x43A
}

/// A simplex-noise field together with the seed it was built from.
///
/// The fields are private: the field is only ever built by
/// [`NoiseField::from_seed`], which keeps it paired with the recorded seed.
pub struct NoiseField {
    field: noise::Simplex,
    seed: Ghost<u32>,
}

/// Relies on `noise::Simplex::new`: the field's permutation table is a
/// fixed function of the 32-bit seed.  What a sample of the field holds is
/// stated on [`NoiseField::sample`], over the ghost seed recorded beside it.
#[verifier::external_body]
fn simplex_from_seed(seed: u32) -> noise::Simplex {
    noise::Simplex::new(seed)
}

impl NoiseField {
    /// The seed this field's permutation table was built from.
    pub closed spec fn seed(&self) -> u32 {
        self.seed@
    }

    /// A fresh field seeded from `seed`.
    pub fn from_seed(seed: u32) -> (r: NoiseField)
        ensures
            r.seed() == seed,
    {
        NoiseField { field: simplex_from_seed(seed), seed: Ghost(seed) }
    }

    /// Builds the field from the random source's next draw.
    pub fn from_random(random: &mut RandomSource) -> (r: NoiseField)
        ensures
            r.seed() == stream_at(old(random).seed(), old(random).drawn()),
            final(random).seed() == old(random).seed(),
            final(random).drawn() == old(random).drawn() + 1,
    {
        let s = random.next_u32();
        NoiseField::from_seed(s)
    }

    /// Relies on `noise::NoiseFn::<f64, 3>::get` for `Simplex`: the sample
    /// is pure arithmetic over the permutation table and the point, so it
    /// depends on the seed and the three coordinate bit patterns alone.
    /// The domain bound keeps the skew-and-floor lattice arithmetic inside
    /// the integer range it is converted to, which the conversion checks.
    #[verifier::external_body]
    pub(crate) fn sample(&self, x: u64, y: u64, z: u64) -> (r: u64)
        requires
            sim_coord_ok(x),
            sim_coord_ok(y),
            sim_coord_ok(z),
        ensures
            norm64_bits(r) == simplex_at(self.seed(), x, y, z),
    {
        let p: glam::DVec3 = bytemuck::cast([x, y, z]);
        noise::NoiseFn::get(&self.field, p.to_array()).to_bits()
    }
}

} // verus!
