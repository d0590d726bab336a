//! The model's single source of randomness.

use vstd::prelude::*;

verus! {

/// Relies on rand::random_range: a draw from the thread-local generator,
/// uniform over `lo..hi`; the range must be non-empty or the call panics.
/// Nothing more is promised of a random value than its range.
#[verifier::external_body]
pub fn draw_in_range(lo: usize, hi: usize) -> (r: usize)
    requires
        lo < hi,
    ensures
        lo <= r < hi,
{
    rand::random_range(lo..hi)
}

} // verus!
