//! The source of randomness: the thread-local generator of the `rand` crate.
//!
//! Nothing in this module is proved. Each item states, of one function of
//! `rand`, only what holds of every outcome; which outcome comes is left open.

use rand::rngs::ThreadRng;
use rand::seq::SliceRandom;
use rand::Rng;
use vstd::prelude::*;

verus! {

/// `rand::rngs::ThreadRng`, a handle to the generator of the current thread.
/// Its state is hidden: no contract speaks of what it holds.
#[verifier::external_type_specification]
#[verifier::external_body]
pub struct ExThreadRng(ThreadRng);

/// `rand::thread_rng`: hands out the handle. Nothing is claimed of it.
pub assume_specification[ rand::thread_rng ]() -> (rng: ThreadRng);

/// `Rng::gen_range` on the half-open range `0..bound`: the number drawn lies
/// in the range. The call panics on an empty range, which `requires` excludes.
#[verifier::external_body]
pub(crate) fn gen_below(rng: &mut ThreadRng, bound: usize) -> (n: usize)
    requires
        bound > 0,
    ensures
        n < bound,
{
    rng.gen_range(0..bound)
}

/// `SliceRandom::shuffle`: reorders the slice in place by swapping elements,
/// so the items afterwards are the items before, each as often as before.
#[verifier::external_body]
pub(crate) fn shuffle<T>(items: &mut Vec<T>, rng: &mut ThreadRng)
    ensures
        final(items)@.to_multiset() == old(items)@.to_multiset(),
{
    items.shuffle(rng)
}

/// `SliceRandom::choose_multiple`: picks `amount` positions of the slice, or
/// all of them where it is shorter, no position twice, and yields the items
/// found there. The result holds copies of them in the order they come.
#[verifier::external_body]
pub(crate) fn choose_multiple<T: Copy>(items: &Vec<T>, rng: &mut ThreadRng, amount: usize) -> (picked: Vec<T>)
    ensures
        picked@.len() == if amount <= items@.len() { amount as nat } else { items@.len() },
        picked@.to_multiset().subset_of(items@.to_multiset()),
{
    items.choose_multiple(rng, amount).copied().collect()
}


} // verus!
