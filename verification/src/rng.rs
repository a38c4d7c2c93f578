//! The source of the random strokes of the brush: the thread-local generator
//! of the `rand` crate. Nothing here is proved; the contracts state what the
//! crate documents.

use vstd::prelude::*;
use rand::rngs::ThreadRng;
use rand::Rng;

verus! {

/// `rand::rngs::ThreadRng`, a handle to the generator of the current thread.
/// Nothing is known of what it holds.
#[verifier::external_type_specification]
#[verifier::external_body]
pub struct ExThreadRng(ThreadRng);

/// `rand::thread_rng` hands out the generator of the current thread. Nothing
/// is claimed of the handle. (The crate panics if the operating system gives
/// it no seed; no argument decides that.)
pub assume_specification[ rand::thread_rng ]() -> (rng: ThreadRng)
;

/// `Rng::gen_range` on the half-open range `low..high`. The crate panics on
/// an empty range, so the range must hold a value; the value drawn lies in
/// the range. Which value it is depends on the generator, so nothing more is
/// claimed.
#[verifier::external_body]
pub(crate) fn gen_range(rng: &mut ThreadRng, low: usize, high: usize) -> (value: usize)
    requires
        low < high,
    ensures
        low <= value < high,
{
    rng.gen_range(low..high)
}

} // verus!
