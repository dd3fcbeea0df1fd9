//! The two sources of chance that the flock draws on.
use vstd::prelude::*;

verus! {

/// Calls `rand::random::<u32>()`, which draws from the thread's generator a
/// value spread evenly over all 32-bit patterns. Nothing is claimed of the
/// value drawn.
#[verifier::external_body]
pub(crate) fn random_bits() -> (bits: u32) {
    rand::random::<u32>()
}

/// Calls `rand::Rng::gen_range` on the thread's generator with the half-open
/// range `low..high`. The call panics on an empty range, which `requires`
/// excludes; the contract claims only that the value drawn lies in the range.
#[verifier::external_body]
pub(crate) fn random_between(low: i64, high: i64) -> (drawn: i64)
    requires
        low < high,
    ensures
        low <= drawn < high,
{
    rand::Rng::gen_range(&mut rand::thread_rng(), low..high)
}

} // verus!
