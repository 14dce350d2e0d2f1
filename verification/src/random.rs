//! Randomness, drawn from the thread-local generator of `rand`.

use vstd::prelude::*;
use rand::Rng;
use rand::RngCore;

verus! {

/// A number drawn from `0..bound` by `rand::rng().random_range`. The draw is
/// random: only its range is stated. `random_range` panics on an empty
/// range, which `bound > 0` rules out.
#[verifier::external_body]
pub(crate) fn random_below(bound: usize) -> (r: usize)
    requires
        bound > 0,
    ensures
        r < bound,
{
    rand::rng().random_range(0..bound)
}

/// `n` random bytes, filled by `rand::rng().fill_bytes`. Only the length is
/// stated.
#[verifier::external_body]
pub(crate) fn random_bytes(n: usize) -> (r: Vec<u8>)
    ensures
        r@.len() == n,
{
    let mut bytes = vec![0u8; n];
    rand::rng().fill_bytes(&mut bytes);
    bytes
}

} // verus!
