//! The one place where chance enters the simulation.

use rand::Rng;
use vstd::prelude::*;

verus! {

/// Draws one integer from the thread-local generator of the `rand` crate,
/// `rand::rng()`, with `Rng::random_range(low..high)`.
///
/// Trusted, not proved: for a non-empty range the call returns a value of
/// the half-open range, `low` included and `high` excluded. Which value is
/// left open; two draws need not agree. The empty range, on which the call
/// panics, is excluded.
#[verifier::external_body]
pub(crate) fn draw_in_range(low: u64, high: u64) -> (drawn: u64)
    requires
        low < high,
    ensures
        low <= drawn < high,
{
    rand::rng().random_range(low..high)
}

} // verus!
