//! The source of secrets.

use rand::Rng;
use vstd::prelude::*;

verus! {

/// Draws a number between `lo` and `hi`, both included, by `Rng::gen_range`
/// of the crate `rand` on the inclusive range `lo..=hi`, with the generator
/// that `rand::thread_rng` hands out.
///
/// Believed, not proved: the number lies within the bounds. Which number
/// comes is left open, so two draws on the same bounds may differ.
/// `gen_range` panics on an empty range; `lo <= hi` keeps the range from
/// being empty.
#[verifier::external_body]
pub(crate) fn draw_between(lo: u32, hi: u32) -> (r: u32)
    requires
        lo <= hi,
    ensures
        lo <= r <= hi,
{
    rand::thread_rng().gen_range(lo..=hi)
}

} // verus!
