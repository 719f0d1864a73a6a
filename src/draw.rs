//! Random draws, taken from the thread-local generator of `rand`.

use rand::Rng;
use vstd::prelude::*;

verus! {

/// Relies on `rand::Rng::gen_range` over `thread_rng()`: for a non-empty
/// half-open range `lo..hi` it returns a value inside it (it panics on an
/// empty range, which `requires` leaves out).
#[verifier::external_body]
pub(crate) fn random_in(lo: u32, hi: u32) -> (r: u32)
    requires
        lo < hi,
    ensures
        lo <= r < hi,
{
    rand::thread_rng().gen_range(lo..hi)
}

} // verus!
