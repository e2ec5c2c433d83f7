//! The library's sources of chance, drawn from the `rand` crate's
//! thread-local generator.

use vstd::prelude::*;
use rand::seq::IteratorRandom;

verus! {

/// Draws a position below `len` through `rand`'s `IteratorRandom::choose`
/// over `0..len` with the thread-local generator (the same uniform draw that
/// `SliceRandom::choose` makes on a slice of `len` items). The contract
/// claims only that the position is below `len`; which one comes out is
/// left to chance and is not stated.
#[verifier::external_body]
pub(crate) fn random_index(len: usize) -> (i: usize)
    requires
        len > 0,
    ensures
        i < len,
{
    (0..len).choose(&mut rand::thread_rng()).unwrap()
}

/// Draws a `u32` through `rand::random`. Any value may come out, so the
/// contract claims nothing of it.
#[verifier::external_body]
pub(crate) fn random_u32() -> u32 {
    rand::random::<u32>()
}

} // verus!
