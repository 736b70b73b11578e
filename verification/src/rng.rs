//! The one point where the simulation draws randomness: enemy spawn columns.

use vstd::prelude::*;
use rand::Rng;

verus! {

/// Relies on `rand::Rng::gen_range` on a fresh thread-local generator
/// (`rand::rngs::ThreadRng`): for a nonempty inclusive range the sample lies
/// within the range, and the call does not panic. Nothing more is promised
/// of the draw.
#[verifier::external_body]
pub(crate) fn random_in_range(lo: i32, hi: i32) -> (r: i32)
    requires
        lo <= hi,
    ensures
        lo <= r <= hi,
{
    let mut rng = rand::rngs::ThreadRng::default();
    rng.gen_range(lo..=hi)
}

} // verus!
