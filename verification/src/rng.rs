//! The crate's one source of randomness: rand's thread-local generator,
//! behind trusted declarations.
//!
//! Nothing is assumed of which number comes back, only of its range;
//! every function that consumes a random number is verified for every
//! value the range admits.

use vstd::prelude::*;

verus! {

/// rand's thread-local generator, opaque to the verifier.
#[verifier::external_type_specification]
#[verifier::external_body]
pub struct ExThreadRng(rand::rngs::ThreadRng);

/// Relies on `rand::rng`: a handle to the thread-local generator. It
/// aborts only if the operating system's entropy source fails when the
/// thread's generator is first seeded.
#[verifier::external_body]
pub fn new_rng() -> rand::rngs::ThreadRng {
    rand::rng()
}

/// Relies on `rand::RngExt::random_range` on the half-open range
/// `lo..hi`: the sample is uniform in the range, and the call panics
/// only on an empty range, which the precondition rules out.
#[verifier::external_body]
pub fn random_in_range(rng: &mut rand::rngs::ThreadRng, lo: u32, hi: u32) -> (n: u32)
    requires
        lo < hi,
    ensures
        lo <= n < hi,
{
    rand::RngExt::random_range(rng, lo..hi)
}

} // verus!
