//! The order in which the wallets of a user are tried: a random permutation
//! of their positions.

use rand::seq::SliceRandom;
use vstd::prelude::*;

verus! {

/// `order` lists each of the positions `0..n` exactly once.
pub open spec fn is_permutation(order: Seq<usize>, n: nat) -> bool {
    &&& order.len() == n
    &&& order.no_duplicates()
    &&& forall|i: int| 0 <= i < order.len() ==> order[i] < n
}

/// The positions `0..n` in rising order.
pub open spec fn identity(n: nat) -> Seq<usize> {
    Seq::new(n, |i: int| i as usize)
}

/// Calls `rand::seq::SliceRandom::shuffle` with the thread's generator
/// `rand::rng()`, which rearranges the slice in place by swaps. Not proved:
/// that the vector holds the same values afterwards, each as often as
/// before. Nothing is claimed of which rearrangement comes out. The
/// generator seeds itself from the operating system when a thread first
/// uses it, and panics if that fails.
#[verifier::external_body]
fn shuffle(order: &mut Vec<usize>)
    ensures
        final(order)@.to_multiset() == old(order)@.to_multiset(),
{
    order.shuffle(&mut rand::rng());
}

/// Whatever holds the same values as the positions `0..n`, each as often, is
/// a permutation of them.
pub proof fn lemma_rearranged_identity(order: Seq<usize>, n: nat)
    requires
        n <= usize::MAX,
        order.to_multiset() == identity(n).to_multiset(),
    ensures
        is_permutation(order, n),
{
    let id = identity(n);
    id.lemma_multiset_has_no_duplicates();
    order.lemma_multiset_has_no_duplicates_conv();
    vstd::seq_lib::to_multiset_len(order);
    vstd::seq_lib::to_multiset_len(id);
    assert forall|i: int| 0 <= i < order.len() implies order[i] < n by {
        vstd::seq_lib::to_multiset_contains(order, order[i]);
        vstd::seq_lib::to_multiset_contains(id, order[i]);
    }
}

/// The positions `0..n` in a random order.
pub fn shuffled_indices(n: usize) -> (order: Vec<usize>)
    ensures
        is_permutation(order@, n as nat),
{
    let mut order: Vec<usize> = Vec::new();
    let mut i: usize = 0;
    while i < n
        invariant
            i <= n,
            order@ == identity(i as nat),
        decreases n - i,
    {
        order.push(i);
        i = i + 1;
    }
    shuffle(&mut order);
    proof {
        lemma_rearranged_identity(order@, n as nat);
    }
    order
}

} // verus!
