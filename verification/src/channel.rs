//! Messages from two concurrent senders arrive at one receiver in whatever
//! order scheduling produces: the received transcript is some interleaving
//! of the two send sequences.  The law below states that any interleaving
//! delivers every message exactly once — none lost, none duplicated.

use vstd::prelude::*;
use vstd::seq_lib::group_to_multiset_ensures;
use vstd::multiset::Multiset;

verus! {

/// `c` is an interleaving of `a` and `b`: each step of `c` takes the next
/// pending message of one sender or the other, keeping each sender's own
/// order, until both are drained.
pub open spec fn is_interleaving<A>(a: Seq<A>, b: Seq<A>, c: Seq<A>) -> bool
    decreases c.len(),
{
    if c.len() == 0 {
        a.len() == 0 && b.len() == 0
    } else {
        ||| (a.len() > 0 && c[0] == a[0] && is_interleaving(a.drop_first(), b, c.drop_first()))
        ||| (b.len() > 0 && c[0] == b[0] && is_interleaving(a, b.drop_first(), c.drop_first()))
    }
}

/// Dropping the first entry of a non-empty sequence removes exactly one
/// occurrence of it from the sequence's multiset.
proof fn lemma_to_multiset_drop_first<A>(s: Seq<A>)
    requires
        s.len() > 0,
    ensures
        s.to_multiset() =~= s.drop_first().to_multiset().insert(s[0]),
{
    broadcast use group_to_multiset_ensures;
    broadcast use vstd::multiset::group_multiset_axioms;

    assert(s.remove(0) =~= s.drop_first());
    assert(s.contains(s[0]));
    assert(s.to_multiset().count(s[0]) > 0);
    assert(s.remove(0).to_multiset() =~= s.to_multiset().remove(s[0]));
}

/// Every interleaving of two send sequences delivers exactly their
/// messages: its length is the two lengths added, and its multiset is the
/// union of the two senders' multisets — no message lost or duplicated.
pub proof fn lemma_interleaving_delivers_all<A>(a: Seq<A>, b: Seq<A>, c: Seq<A>)
    requires
        is_interleaving(a, b, c),
    ensures
        c.len() == a.len() + b.len(),
        c.to_multiset() =~= a.to_multiset().add(b.to_multiset()),
    decreases c.len(),
{
    broadcast use group_to_multiset_ensures;
    broadcast use vstd::multiset::group_multiset_axioms;

    if c.len() == 0 {
        assert(a.to_multiset().len() == 0);
        assert(b.to_multiset().len() == 0);
        assert(a.to_multiset() =~= Multiset::<A>::empty());
        assert(b.to_multiset() =~= Multiset::<A>::empty());
    } else if a.len() > 0 && c[0] == a[0] && is_interleaving(a.drop_first(), b, c.drop_first()) {
        lemma_interleaving_delivers_all(a.drop_first(), b, c.drop_first());
        lemma_to_multiset_drop_first(c);
        lemma_to_multiset_drop_first(a);
    } else {
        lemma_interleaving_delivers_all(a, b.drop_first(), c.drop_first());
        lemma_to_multiset_drop_first(c);
        lemma_to_multiset_drop_first(b);
    }
}

/// Concatenating the two send sequences is one particular interleaving:
/// the arrival order in which one sender drains before the other starts.
pub proof fn lemma_concat_is_interleaving<A>(a: Seq<A>, b: Seq<A>)
    ensures
        is_interleaving(a, b, a + b),
    decreases a.len(), b.len(),
{
    let c = a + b;
    if a.len() > 0 {
        assert(c[0] == a[0]);
        assert(c.drop_first() =~= a.drop_first() + b);
        lemma_concat_is_interleaving(a.drop_first(), b);
    } else if b.len() > 0 {
        assert(c[0] == b[0]);
        assert(c.drop_first() =~= a + b.drop_first());
        lemma_concat_is_interleaving(a, b.drop_first());
    } else {
        assert(c.len() == 0);
    }
}

/// Drains one sender's messages and then the other's into a single
/// transcript: one arrival order the receiver can observe, and an
/// interleaving of the two batches.
pub fn merge_received(a: &Vec<String>, b: &Vec<String>) -> (r: Vec<String>)
    ensures
        r@ == a@ + b@,
        is_interleaving(a@, b@, r@),
{
    let mut r: Vec<String> = Vec::new();
    let mut idx: usize = 0;
    while idx < a.len()
        invariant
            0 <= idx <= a@.len(),
            r@ == a@.take(idx as int),
        decreases a@.len() - idx,
    {
        r.push(a[idx].clone());
        proof {
            assert(r@ =~= a@.take(idx as int + 1));
        }
        idx += 1;
    }
    let mut jdx: usize = 0;
    while jdx < b.len()
        invariant
            0 <= jdx <= b@.len(),
            r@ == a@ + b@.take(jdx as int),
        decreases b@.len() - jdx,
    {
        r.push(b[jdx].clone());
        proof {
            assert(r@ =~= a@ + b@.take(jdx as int + 1));
        }
        jdx += 1;
    }
    proof {
        assert(r@ =~= a@ + b@);
        lemma_concat_is_interleaving(a@, b@);
    }
    r
}

} // verus!
