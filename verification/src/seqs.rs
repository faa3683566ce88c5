//! The first place in a sequence at which something holds.

use vstd::prelude::*;

verus! {

/// Whether `i` is the first place of a sequence whose item satisfies `p`.
pub open spec fn is_first<T>(s: Seq<T>, p: spec_fn(T) -> bool, i: int) -> bool {
    &&& 0 <= i < s.len()
    &&& p(s[i])
    &&& forall|k: int| 0 <= k < i ==> !p(s[k])
}

/// The first place of a sequence whose item satisfies `p`, if an item does.
pub open spec fn first<T>(s: Seq<T>, p: spec_fn(T) -> bool) -> Option<int> {
    if exists|i: int| is_first(s, p, i) {
        Some(choose|i: int| is_first(s, p, i))
    } else {
        None
    }
}

/// There is one first place: a place that is first is the one that `first` names.
pub proof fn lemma_first<T>(s: Seq<T>, p: spec_fn(T) -> bool, i: int)
    requires
        is_first(s, p, i),
    ensures
        first(s, p) == Some(i),
{
    let j = choose|j: int| is_first(s, p, j);
    assert(is_first(s, p, j));
    if i < j {
        assert(!p(s[i]));
    } else if j < i {
        assert(!p(s[j]));
    }
}

/// Where no item satisfies `p`, there is no first place.
pub proof fn lemma_no_first<T>(s: Seq<T>, p: spec_fn(T) -> bool)
    requires
        forall|k: int| 0 <= k < s.len() ==> !p(s[k]),
    ensures
        first(s, p) is None,
{
}

/// The first place, where there is one, is a place of the sequence whose item
/// satisfies `p`, and no earlier item does.
pub proof fn lemma_first_is_first<T>(s: Seq<T>, p: spec_fn(T) -> bool)
    ensures
        match first(s, p) {
            Some(i) => is_first(s, p, i),
            None => forall|k: int| 0 <= k < s.len() ==> !p(s[k]),
        },
{
    if first(s, p) is None {
        assert forall|k: int| 0 <= k < s.len() implies !p(s[k]) by {
            if p(s[k]) {
                lemma_some_first(s, p, k);
            }
        }
    }
}

/// Where an item satisfies `p`, there is a first place.
pub proof fn lemma_some_first<T>(s: Seq<T>, p: spec_fn(T) -> bool, k: int)
    requires
        0 <= k < s.len(),
        p(s[k]),
    ensures
        first(s, p) is Some,
    decreases k,
{
    if forall|j: int| 0 <= j < k ==> !p(s[j]) {
        assert(is_first(s, p, k));
    } else {
        let j = choose|j: int| 0 <= j < k && p(s[j]);
        lemma_some_first(s, p, j);
    }
}

} // verus!
