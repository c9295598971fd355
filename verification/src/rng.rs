//! The random source behind terrain generation. Nothing here is proved:
//! these are the assumptions made of the `rand` crate.

use vstd::prelude::*;

use rand::rngs::ThreadRng;
use rand::Rng;

verus! {

/// `rand::rngs::ThreadRng`, the handle to the thread-local generator. Its
/// state is not modelled.
#[verifier::external_type_specification]
#[verifier::external_body]
pub struct ExThreadRng(ThreadRng);

/// `rand::thread_rng`: hands out the thread-local generator. Nothing is
/// claimed of the handle. The call fails only where the operating system
/// has no entropy to seed the generator with.
pub assume_specification[ rand::thread_rng ]() -> (rng: ThreadRng);

/// `Rng::gen_range` on the inclusive range `low..=high`. Claimed: the draw
/// lies in the range. The range must not be empty, or `gen_range` panics.
#[verifier::external_body]
pub(crate) fn gen_range_inclusive(rng: &mut ThreadRng, low: usize, high: usize) -> (n: usize)
    requires
        low <= high,
    ensures
        low <= n <= high,
{
    rng.gen_range(low..=high)
}

} // verus!
