//! The one source of randomness of the puzzle.

use rand::Rng;
use vstd::prelude::*;

verus! {

/// Draws an integer from the half-open range `low..high` with
/// `rand::rng().random_range(low..high)`, the thread-local generator of the
/// `rand` crate.
///
/// Trusted, not proved: the value drawn lies in the range. `random_range`
/// panics on an empty range, which the precondition rules out; the
/// generator itself fails only where the operating system gives it no seed.
/// Nothing is claimed about which value of the range comes back, so two
/// draws from one range may differ.
#[verifier::external_body]
pub(crate) fn random_index(low: i16, high: i16) -> (r: i16)
    requires
        low < high,
    ensures
        low <= r < high,
{
    rand::rng().random_range(low..high)
}

} // verus!
