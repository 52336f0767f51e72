//! The one random draw the game makes: the starting ball velocity.

use vstd::prelude::*;

verus! {

/// Relies on rand::random_range: a value drawn uniformly from `lo..hi`.
/// The call panics on an empty range, so one is excluded here; of the
/// value itself nothing is promised beyond its bounds.
#[verifier::external_body]
pub(crate) fn random_in_range(lo: i64, hi: i64) -> (r: i64)
    requires
        lo < hi,
    ensures
        lo <= r < hi,
{
    rand::random_range(lo..hi)
}

} // verus!
