//! Trusted bridge to the process-wide random number generator. Each
//! wrapper makes one call into the `rand` crate; the contracts state only
//! what holds of every outcome, never which outcome comes back.

use vstd::prelude::*;

verus! {

/// Relies on rand::random::<bool>: one draw of a fair coin from the
/// thread-local generator. Nothing can be promised of the outcome.
#[verifier::external_body]
pub(crate) fn random_bool() -> bool {
    rand::random::<bool>()
}

/// Relies on rand::random_range over `0..n`: a uniform draw strictly below
/// `n`. The range is non-empty by the precondition, so the call cannot
/// panic.
#[verifier::external_body]
pub(crate) fn random_below(n: usize) -> (r: usize)
    requires
        n >= 1,
    ensures
        r < n,
{
    rand::random_range(0..n)
}

/// Relies on rand::random_range over `0..1_000_000`: a uniform draw of
/// millionths in `[0, 1)`.
#[verifier::external_body]
pub(crate) fn random_micro() -> (r: u64)
    ensures
        r < 1_000_000,
{
    rand::random_range(0u64..1_000_000)
}

} // verus!
