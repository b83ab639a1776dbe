//! The single source of randomness of the engine.

use rand::Rng;
use vstd::prelude::*;

verus! {

/// Draws a number from `0` up to, but not including, `bound`.
///
/// Trusted: calls `rand::Rng::gen_range` on the thread-local generator with
/// the half-open range `[0, bound)`. The contract claims only that the draw
/// lies in that range, which holds whatever the generator produces. The call
/// panics on an empty range, so `bound` must be positive.
#[verifier::external_body]
pub(crate) fn draw_below(bound: u32) -> (r: u32)
    requires
        bound > 0,
    ensures
        r < bound,
{
    rand::thread_rng().gen_range(0, bound)
}

} // verus!
