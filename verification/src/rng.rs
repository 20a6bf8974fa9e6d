//! Draws from the process-wide random generator.

use vstd::prelude::*;

verus! {

/// Calls `fastrand::u32(0..bound)`: a random value drawn from `0..bound`.
/// Its documentation promises a value in the range and panics on an empty
/// range, which `requires` rules out. Which value comes back is chance.
#[verifier::external_body]
pub(crate) fn random_u32_below(bound: u32) -> (r: u32)
    requires
        bound > 0,
    ensures
        r < bound,
{
    fastrand::u32(0..bound)
}

/// Calls `fastrand::usize(..bound)`: a random index drawn from `0..bound`.
/// Its documentation promises a value in the range and panics on an empty
/// range, which `requires` rules out. Which value comes back is chance.
#[verifier::external_body]
pub(crate) fn random_usize_below(bound: usize) -> (r: usize)
    requires
        bound > 0,
    ensures
        r < bound,
{
    fastrand::usize(..bound)
}

} // verus!
