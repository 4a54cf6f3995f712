//! Trusted access to the cryptographically secure random number
//! generator of the `rand` crate. Nothing is promised about the values
//! drawn: randomness has no specification, only a secure source.

use vstd::prelude::*;
use rand::Rng;

verus! {

#[verifier::external_type_specification]
#[verifier::external_body]
pub struct ExThreadRng(rand::rngs::ThreadRng);

/// Relies on `rand::thread_rng`: a cryptographically secure generator
/// seeded by the operating system. It aborts the process if the secure
/// source is unavailable; it never falls back to a weaker source.
#[verifier::external_body]
pub(crate) fn new_rng() -> rand::rngs::ThreadRng {
    rand::thread_rng()
}

/// Relies on `rand::Rng::gen`: one uniformly random byte drawn from the
/// generator. No clause constrains the value; nothing can be promised of
/// a random draw.
#[verifier::external_body]
pub(crate) fn next_random_byte(rng: &mut rand::rngs::ThreadRng) -> u8 {
    rng.gen()
}

} // verus!
