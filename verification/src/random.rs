//! The random source behind the producers: rand's thread-local generator.

use rand::rngs::ThreadRng;
use rand::Rng;
use vstd::prelude::*;

verus! {

/// rand's `ThreadRng`, a handle to the generator of the calling thread. It is carried
/// through the producers as an opaque value: nothing is known of its state.
#[verifier::external_type_specification]
#[verifier::external_body]
pub struct ExThreadRng(ThreadRng);

/// `rand::thread_rng` hands out a handle to the calling thread's generator, which it
/// seeds from the system on first use. Nothing is claimed of the handle.
pub assume_specification[ rand::thread_rng ]() -> (rng: ThreadRng);

/// `Rng::gen_range` on the inclusive range `low..=high` of `i128`. rand panics on an
/// empty range, hence the precondition. The one thing claimed of the value drawn is
/// that it lies in the range, as rand's sampler for integers has it: the lower bound
/// plus an offset below the width of the range. Which value comes is up to the
/// generator, so two calls on the same range may differ.
#[verifier::external_body]
pub(crate) fn draw_inclusive(rng: &mut ThreadRng, low: i128, high: i128) -> (drawn: i128)
    requires
        low <= high,
    ensures
        low <= drawn <= high,
{
    rng.gen_range(low..=high)
}

} // verus!
