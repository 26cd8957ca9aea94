//! The engine's single source of randomness: a uniform draw from a small
//! range, used to pick piece kinds and spawn orientations.

use vstd::prelude::*;

verus! {

/// Relies on `rand::thread_rng` and `rand::Rng::gen_range`: sampling the
/// range `0..n` yields a value below `n`, uniformly distributed; the call
/// panics only on an empty range, which the precondition rules out.
#[verifier::external_body]
pub(crate) fn rand_below(n: u8) -> (r: u8)
    requires
        1 <= n,
    ensures
        r < n,
{
    rand::Rng::gen_range(&mut rand::thread_rng(), 0..n)
}

} // verus!
