//! The one source of chance in the game.

use rand::Rng;
use vstd::prelude::*;

verus! {

/// Draws a whole number from `low` up to, but not including, `high`.
///
/// This is `Rng::gen_range` of the `rand` crate on the thread's generator,
/// `thread_rng`, with the half-open range `low..high`. Nothing is proved of
/// it. What is taken on trust is that the number lies in the range; which
/// one it is differs from call to call. `gen_range` panics on an empty
/// range, hence the precondition.
#[verifier::external_body]
pub(crate) fn random_in_range(low: i64, high: i64) -> (drawn: i64)
    requires
        low < high,
    ensures
        low <= drawn < high,
{
    rand::thread_rng().gen_range(low..high)
}

} // verus!
