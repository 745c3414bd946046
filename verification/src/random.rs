//! Random draws, from the thread-local generator of the `rand` crate.

use vstd::prelude::*;
use rand::rngs::ThreadRng;
use rand::Rng;

verus! {

/// The thread-local generator. Opaque here.
#[verifier::external_type_specification]
#[verifier::external_body]
pub struct ExThreadRng(rand::rngs::ThreadRng);

/// `rand::thread_rng` hands out the generator of the calling thread.
/// Nothing is claimed of it.
pub assume_specification[ rand::thread_rng ]() -> (generator: ThreadRng);

/// Calls `Rng::gen_range` on the half-open range from `low` to `high`.
/// Trusted: the value drawn lies in the range. An empty range is kept out:
/// the call panics on it.
#[verifier::external_body]
pub(crate) fn draw(generator: &mut ThreadRng, low: u32, high: u32) -> (drawn: u32)
    requires
        low < high,
    ensures
        low <= drawn < high,
{
    generator.gen_range(low..high)
}

} // verus!
