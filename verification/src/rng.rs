//! The library's one source of randomness.  The draw itself is outside
//! code; everything that depends on the drawn value takes it as an
//! argument and is verified for every value the contract admits.

use vstd::prelude::*;

verus! {

/// Draw a uniform random value below `n`.
///
/// Relies on `rand::thread_rng` for the thread-local generator and on
/// `rand::Rng::gen_range` over the half-open range `0..n`: the result is
/// uniform in that range, so it is always strictly below `n`, and the
/// range is non-empty, so the call does not panic.  Nothing more is
/// assumed: two draws with the same bound may differ.
#[verifier::external_body]
pub(crate) fn roll_below(n: u32) -> (r: u32)
    requires
        n >= 1,
    ensures
        r < n,
{
    rand::Rng::gen_range(&mut rand::thread_rng(), 0..n)
}

} // verus!
