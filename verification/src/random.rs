//! Random draws, made through `fastrand`'s thread-local generator.
use vstd::prelude::*;

verus! {

/// Calls `fastrand::usize(0..n)`. The crate documents that the draw lies in
/// the range and panics on an empty range; which value comes back is chance,
/// so the contract states only the range.
#[verifier::external_body]
pub(crate) fn random_index(n: usize) -> (r: usize)
    requires
        n > 0,
    ensures
        r < n,
{
    fastrand::usize(0..n)
}

/// Calls `fastrand::bool()`, a fair coin; nothing is promised of its value.
#[verifier::external_body]
pub(crate) fn random_coin() -> (b: bool) {
    fastrand::bool()
}

/// Calls `fastrand::shuffle` on the vector's slice. The crate's source shows
/// that it only swaps elements, so the result is a permutation of the input:
/// same length and same multiset of elements. The order is chance.
#[verifier::external_body]
pub(crate) fn random_shuffle<T>(v: &mut Vec<T>)
    ensures
        final(v)@.len() == old(v)@.len(),
        final(v)@.to_multiset() == old(v)@.to_multiset(),
{
    fastrand::shuffle(v.as_mut_slice())
}

} // verus!
