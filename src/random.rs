//! Draws from the thread-local random number generator.
use vstd::prelude::*;
use rand::Rng;

verus! {

/// Relies on rand::thread_rng and rand::Rng::gen_range over an inclusive
/// range of u64: the value drawn lies in `[lo, hi]`; the call panics on an
/// empty range, which `requires` leaves out.
#[verifier::external_body]
pub(crate) fn draw_between(lo: u64, hi: u64) -> (r: u64)
    requires
        lo <= hi,
    ensures
        lo <= r <= hi,
{
    rand::thread_rng().gen_range(lo..=hi)
}

} // verus!
