//! Trusted boundary around the `rand` crate: the machine's randomness
//! source is a `rand::rngs::StdRng`, injected at construction so that
//! tests can supply a fixed seed.  Nothing is promised of the drawn
//! values; every caller states what holds of its state whatever byte
//! comes back.

use vstd::prelude::*;
use rand::Rng;
use rand::SeedableRng;
use rand::rngs::StdRng;

verus! {

#[verifier::external_type_specification]
#[verifier::external_body]
pub struct ExStdRng(StdRng);

/// Relies on rand::Rng::gen::<u8>: draws the next byte from the
/// generator.  The value depends on the generator's hidden state, so
/// nothing is promised of it.
#[verifier::external_body]
pub(crate) fn next_random_byte(rng: &mut StdRng) -> (b: u8) {
    rng.gen()
}

/// Relies on rand::SeedableRng::from_entropy: a fresh generator seeded
/// from the operating system's randomness source.  It aborts only if
/// that source fails, which no input can cause.
#[verifier::external_body]
pub(crate) fn entropy_rng() -> (r: StdRng) {
    StdRng::from_entropy()
}

} // verus!
