//! The first position in a sequence at which a condition holds.

use vstd::prelude::*;

verus! {

/// The first position at or after `from` whose item satisfies `pred`.
pub open spec fn first_from<T>(s: Seq<T>, pred: spec_fn(T) -> bool, from: int) -> Option<int>
    decreases s.len() - from,
{
    if from < 0 || from >= s.len() {
        None
    } else if pred(s[from]) {
        Some(from)
    } else {
        first_from(s, pred, from + 1)
    }
}

/// The first position whose item satisfies `pred`.
pub open spec fn first_where<T>(s: Seq<T>, pred: spec_fn(T) -> bool) -> Option<int> {
    first_from(s, pred, 0)
}

/// A search that has seen no match before `upto` continues from there.
pub proof fn lemma_first_from_skips<T>(s: Seq<T>, pred: spec_fn(T) -> bool, from: int, upto: int)
    requires
        0 <= from <= upto <= s.len(),
        forall|j: int| from <= j < upto ==> !pred(#[trigger] s[j]),
    ensures
        first_from(s, pred, from) == first_from(s, pred, upto),
    decreases upto - from,
{
    if from < upto {
        lemma_first_from_skips(s, pred, from + 1, upto);
    }
}

/// What the search returns: a position in range whose item satisfies the
/// condition and before which no item does, or nothing when no item from
/// `from` on satisfies it.
pub proof fn lemma_first_from_is_first<T>(s: Seq<T>, pred: spec_fn(T) -> bool, from: int)
    requires
        0 <= from,
    ensures
        match first_from(s, pred, from) {
            Some(i) => from <= i < s.len() && pred(s[i]) && forall|j: int|
                from <= j < i ==> !pred(#[trigger] s[j]),
            None => forall|j: int| from <= j < s.len() ==> !pred(#[trigger] s[j]),
        },
    decreases s.len() - from,
{
    if from < s.len() && !pred(s[from]) {
        lemma_first_from_is_first(s, pred, from + 1);
    }
}

} // verus!
