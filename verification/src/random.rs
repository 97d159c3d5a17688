//! The two calls into `rand` that dealing and drawing make.

use rand::seq::{IndexedRandom, SliceRandom};
use vstd::prelude::*;

verus! {

/// Calls `rand::seq::IndexedRandom::choose` on the cards with the thread
/// generator and copies out the chosen card. As its documentation and source
/// show, it returns `None` exactly for an empty slice, and otherwise one of
/// the slice's elements; which one is left to chance and is not stated.
#[verifier::external_body]
pub(crate) fn choose_card<C: Copy>(cards: &Vec<C>) -> (r: Option<C>)
    ensures
        cards@.len() == 0 ==> r is None,
        cards@.len() > 0 ==> r is Some && cards@.contains(r->0),
{
    cards.as_slice().choose(&mut rand::rng()).copied()
}

/// Calls `rand::seq::SliceRandom::shuffle` on the cards with the thread
/// generator. The source swaps elements in place, so the result is a
/// permutation of the input: same length, same multiset of elements. The
/// order that comes out is left to chance and is not stated.
#[verifier::external_body]
pub(crate) fn shuffle_cards<C>(cards: &mut Vec<C>)
    ensures
        final(cards)@.len() == old(cards)@.len(),
        final(cards)@.to_multiset() == old(cards)@.to_multiset(),
{
    cards.as_mut_slice().shuffle(&mut rand::rng());
}

} // verus!
