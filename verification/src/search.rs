//! The first element of a sequence that meets a condition.

use vstd::prelude::*;

verus! {

/// Whether `i` is the place of the first element of `s` that is `wanted`.
pub open spec fn is_first<T>(s: Seq<T>, wanted: spec_fn(T) -> bool, i: int) -> bool {
    &&& 0 <= i < s.len()
    &&& wanted(s[i])
    &&& forall|j: int| 0 <= j < i ==> !wanted(#[trigger] s[j])
}

/// Whether no element of `s` is `wanted`.
pub open spec fn none_is<T>(s: Seq<T>, wanted: spec_fn(T) -> bool) -> bool {
    forall|j: int| 0 <= j < s.len() ==> !wanted(#[trigger] s[j])
}

/// The place of the first element of `s` that is `wanted`, if there is one.
pub open spec fn first_index<T>(s: Seq<T>, wanted: spec_fn(T) -> bool) -> Option<int> {
    if exists|i: int| is_first(s, wanted, i) {
        Some(choose|i: int| is_first(s, wanted, i))
    } else {
        None
    }
}

proof fn lemma_some_is_first<T>(s: Seq<T>, wanted: spec_fn(T) -> bool, n: int)
    requires
        0 <= n < s.len(),
        wanted(s[n]),
    ensures
        exists|i: int| is_first(s, wanted, i),
    decreases n,
{
    if exists|k: int| 0 <= k < n && wanted(#[trigger] s[k]) {
        let k = choose|k: int| 0 <= k < n && wanted(#[trigger] s[k]);
        lemma_some_is_first(s, wanted, k);
    } else {
        assert(is_first(s, wanted, n));
    }
}

/// There is at most one first wanted element; `first_index` names it, and
/// names none exactly when no element is wanted.
pub proof fn lemma_first_index<T>(s: Seq<T>, wanted: spec_fn(T) -> bool)
    ensures
        forall|i: int| is_first(s, wanted, i) <==> first_index(s, wanted) == Some(i),
        none_is(s, wanted) <==> first_index(s, wanted) is None,
{
    assert forall|i: int| is_first(s, wanted, i) implies first_index(s, wanted) == Some(i) by {
        let k = choose|k: int| is_first(s, wanted, k);
        if k < i {
            assert(!wanted(s[k]));
        } else if i < k {
            assert(!wanted(s[i]));
        }
    }
    if !none_is(s, wanted) {
        let n = choose|n: int| 0 <= n < s.len() && wanted(#[trigger] s[n]);
        lemma_some_is_first(s, wanted, n);
    }
    if first_index(s, wanted) is Some {
        let k = choose|k: int| is_first(s, wanted, k);
        assert(wanted(s[k]));
    }
}

} // verus!
