//! The random source: the thread-local generator of the `rand` crate and the
//! three draws the password generator makes from it.
//!
//! Nothing in this module is proved. Each contract states what the `rand`
//! documentation and source show of the call, for every outcome of the draw;
//! none says anything about how the outcomes are distributed.

use rand::rngs::ThreadRng;
use rand::seq::IteratorRandom;
use rand::seq::SliceRandom;
use rand::Rng;
use vstd::prelude::*;

verus! {

/// `rand::rngs::ThreadRng`, a handle to the thread-local generator. Its state
/// is opaque to the verifier.
#[verifier::external_type_specification]
#[verifier::external_body]
pub struct ExThreadRng(ThreadRng);

/// `rand::thread_rng`: hands out the lazily initialised thread-local
/// generator, seeded from the operating system. Nothing is claimed of the
/// generator. The first call on a thread panics if the operating system
/// gives no entropy to seed it with.
pub assume_specification[ rand::thread_rng ]() -> (rng: ThreadRng);

/// `Rng::gen_range` on the half-open range `0..bound`: the drawn index lies
/// below `bound`. The call panics on an empty range, so `bound` is positive.
#[verifier::external_body]
pub(crate) fn random_index(rng: &mut ThreadRng, bound: usize) -> (index: usize)
    requires
        bound > 0,
    ensures
        index < bound,
{
    rng.gen_range(0..bound)
}

/// `IteratorRandom::choose` on the characters of `alphabet`: `None` exactly
/// when the alphabet is empty, otherwise one of its characters.
#[verifier::external_body]
pub(crate) fn choose_char(rng: &mut ThreadRng, alphabet: &str) -> (choice: Option<char>)
    ensures
        choice is None <==> alphabet@.len() == 0,
        choice matches Some(c) ==> alphabet@.contains(c),
{
    alphabet.chars().choose(rng)
}

/// `SliceRandom::shuffle`: reorders the buffer in place by swapping pairs of
/// elements, so the buffer afterwards holds the same characters, each as
/// often as before.
#[verifier::external_body]
pub(crate) fn shuffle_chars(rng: &mut ThreadRng, buffer: &mut Vec<char>)
    ensures
        final(buffer)@.to_multiset() == old(buffer)@.to_multiset(),
{
    buffer.shuffle(rng);
}

} // verus!
