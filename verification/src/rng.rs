//! The randomized rate source for click-repeat commands.

use rand::Rng;
use vstd::prelude::*;

verus! {

/// Draws a click rate uniformly from the inclusive range `[min, max]`.
///
/// Relies on `rand::Rng::gen_range` over an inclusive integer range: for a
/// non-empty range it returns a value within the bounds (and panics on an
/// empty one, which the precondition rules out).  Nothing else is assumed of
/// the draw: two calls with the same bounds may differ.
#[verifier::external_body]
pub(crate) fn draw_cps(min: u32, max: u32) -> (r: u32)
    requires
        min <= max,
    ensures
        min <= r <= max,
{
    rand::thread_rng().gen_range(min..=max)
}

} // verus!
