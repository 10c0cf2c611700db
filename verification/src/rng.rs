//! The one randomness primitive the engine draws on.

use vstd::prelude::*;

use rand::RngExt;

verus! {

/// Relies on rand's `rng()` (the thread-local generator) and
/// `RngExt::random_range`: on a nonempty inclusive range it returns a value
/// inside the range. Nothing more is assumed of the draw.
#[verifier::external_body]
pub(crate) fn random_in_range_u64(lo: u64, hi: u64) -> (r: u64)
    requires
        lo <= hi,
    ensures
        lo <= r <= hi,
{
    rand::rng().random_range(lo..=hi)
}

} // verus!
