//! The deterministic random-number generator used for the shadow
//! trajectory of the MEGNO computation.

use rand_xoshiro::rand_core::SeedableRng;
use vstd::prelude::*;

verus! {

/// The generator behind the shadow-trajectory perturbation.
#[verifier::external_type_specification]
#[verifier::external_body]
pub struct ExXoshiro256PlusPlus(rand_xoshiro::Xoshiro256PlusPlus);

/// Seed a generator.
///
/// Relies on `rand_core::SeedableRng::seed_from_u64`, which builds the
/// generator's whole state from the given seed, so that repeated runs
/// with the same seed draw the same values.
#[verifier::external_body]
pub(crate) fn seed_rng(seed: u64) -> rand_xoshiro::Xoshiro256PlusPlus {
    rand_xoshiro::Xoshiro256PlusPlus::seed_from_u64(seed)
}

} // verus!
