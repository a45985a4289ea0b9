//! Trusted wrappers around the `rand` crate.
//!
//! Every random draw of the library goes through one of these functions.
//! Their contracts state only what holds of every outcome: a draw from a
//! range lands inside it, a shuffle is a permutation, a choice of two takes
//! two different positions.

use vstd::prelude::*;
use rand::rngs::ThreadRng;
use rand::Rng;
use rand::seq::{IndexedRandom, SliceRandom};

verus! {

/// The thread-local generator of `rand`, carried through by value.
#[verifier::external_type_specification]
#[verifier::external_body]
pub struct ExThreadRng(ThreadRng);

/// Calls `rand::rng()`, which hands out a handle to the thread-local
/// generator. Nothing is claimed of its state.
#[verifier::external_body]
pub fn thread_rng() -> ThreadRng {
    rand::rng()
}

/// Calls `Rng::random_range(low..high)` on `usize`. The `rand` source asserts
/// that the range is not empty and returns `low` plus an offset below
/// `high - low`, so the result lies in `[low, high)`. Which value comes out
/// is left open.
#[verifier::external_body]
pub fn random_in_range(rng: &mut ThreadRng, low: usize, high: usize) -> (r: usize)
    requires
        low < high,
    ensures
        low <= r < high,
{
    rng.random_range(low..high)
}

/// Calls `SliceRandom::shuffle` on the vector. The `rand` source permutes the
/// slice by swaps, so the result holds the same items with the same
/// multiplicities; their order is left open.
#[verifier::external_body]
pub fn shuffle<T>(v: &mut Vec<T>, rng: &mut ThreadRng)
    ensures
        final(v)@.to_multiset() =~= old(v)@.to_multiset(),
        final(v)@.len() == old(v)@.len(),
{
    v.shuffle(rng)
}

/// `r` holds two items of `items` found at different positions.
pub open spec fn is_two_of<T>(items: Seq<T>, r: (T, T)) -> bool {
    exists|i: int, j: int|
        0 <= i < items.len() && 0 <= j < items.len() && i != j && r.0 == items[i] && r.1
            == items[j]
}

/// Calls `IndexedRandom::choose_multiple(items, rng, 2)`. The `rand` source
/// draws two distinct positions below the length with `index::sample` and
/// hands out the items there, so two items at different positions come
/// out. Which two, and in which order, is left open.
#[verifier::external_body]
pub fn choose_two<T: Copy>(items: &Vec<T>, rng: &mut ThreadRng) -> (r: (T, T))
    requires
        items@.len() >= 2,
    ensures
        is_two_of(items@, r),
{
    let picked: Vec<&T> = items.choose_multiple(rng, 2).collect();
    (*picked[0], *picked[1])
}

} // verus!
