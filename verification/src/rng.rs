//! The crate's only source of randomness: thin trusted wrappers over the
//! `rand` crate. Every function that consumes a drawn value takes it as an
//! argument and is verified for each value the contracts here allow.

use vstd::prelude::*;

verus! {

/// Relies on `rand::Rng::gen_range` on the thread-local generator: the
/// sample lies in the half-open range given. `gen_range` panics on an empty
/// range, which the precondition excludes.
#[verifier::external_body]
pub fn rand_range_u64(lo: u64, hi: u64) -> (r: u64)
    requires
        lo < hi,
    ensures
        lo <= r < hi,
{
    rand::Rng::gen_range(&mut rand::thread_rng(), lo..hi)
}

/// Relies on `rand::random::<bool>`: a coin flip; nothing is promised of
/// which side comes up.
#[verifier::external_body]
pub fn rand_bool() -> bool {
    rand::random::<bool>()
}

} // verus!
