//! The engine's owned source of random bits.
//!
//! A board owns one seeded generator and advances it in place, so the
//! sequence of drawn bits is a function of the seed and of the call order
//! alone.  The generator itself comes from the `rand` crate and is opaque
//! here: nothing is assumed about the bits it yields, and every function
//! that consumes them is verified for every possible outcome.

use rand::Rng;
use rand::SeedableRng;
use vstd::prelude::*;

verus! {

#[verifier::external_type_specification]
#[verifier::external_body]
pub struct ExStdRng(rand::rngs::StdRng);

/// Relies on `rand::SeedableRng::seed_from_u64`: builds a generator whose
/// later output depends only on `seed` and on the draws made so far.
#[verifier::external_body]
pub(crate) fn seeded_generator(seed: u64) -> rand::rngs::StdRng {
    rand::rngs::StdRng::seed_from_u64(seed)
}

/// Relies on `rand::Rng::gen::<bool>`: yields one boolean and advances the
/// generator.  No clause constrains the result; callers must hold for both
/// outcomes.
#[verifier::external_body]
pub(crate) fn draw_bool(rng: &mut rand::rngs::StdRng) -> bool {
    rng.gen::<bool>()
}

} // verus!
