//! Facts about sequences and the sets of their elements.
use vstd::prelude::*;

verus! {

/// Pushing an element adds it to the set of elements.
pub proof fn lemma_push_to_set<A>(s: Seq<A>, x: A)
    ensures
        s.push(x).to_set() == s.to_set().insert(x),
{
    assert forall|y: A| s.push(x).to_set().contains(y) <==> s.to_set().insert(x).contains(y) by {
        if s.contains(y) {
            let k = choose|k: int| 0 <= k < s.len() && s[k] == y;
            assert(s.push(x)[k] == y);
        }
        if s.push(x).contains(y) && y != x {
            let k = choose|k: int| 0 <= k < s.push(x).len() && s.push(x)[k] == y;
            assert(k < s.len());
            assert(s[k] == y);
        }
        if y == x {
            assert(s.push(x)[s.len() as int] == y);
        }
    }
    assert(s.push(x).to_set() =~= s.to_set().insert(x));
}

/// The empty sequence has no elements.
pub proof fn lemma_empty_to_set<A>()
    ensures
        Seq::<A>::empty().to_set() == Set::<A>::empty(),
{
    assert(Seq::<A>::empty().to_set() =~= Set::<A>::empty());
}

} // verus!
