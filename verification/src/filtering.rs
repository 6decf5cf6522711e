//! Facts about filtering a sequence from the front.

use vstd::prelude::*;

verus! {

/// Filtering the first `i + 1` elements is filtering the first `i` and then
/// deciding on the next.
pub proof fn lemma_filter_take_step<A>(s: Seq<A>, pred: spec_fn(A) -> bool, i: int)
    requires
        0 <= i < s.len(),
    ensures
        s.take(i + 1).filter(pred) == if pred(s[i]) {
            s.take(i).filter(pred).push(s[i])
        } else {
            s.take(i).filter(pred)
        },
{
    reveal(Seq::filter);
    assert(s.take(i + 1).drop_last() =~= s.take(i));
}

/// Filtering more of a sequence never yields less.
pub proof fn lemma_filter_grows<A>(s: Seq<A>, pred: spec_fn(A) -> bool, i: int)
    requires
        0 <= i <= s.len(),
    ensures
        s.take(i).filter(pred).len() <= s.filter(pred).len(),
    decreases s.len() - i,
{
    if i < s.len() {
        lemma_filter_take_step(s, pred, i);
        lemma_filter_grows(s, pred, i + 1);
    } else {
        assert(s.take(i) =~= s);
    }
}

/// Nothing passes the filter of an empty sequence.
pub proof fn lemma_filter_take_none<A>(s: Seq<A>, pred: spec_fn(A) -> bool)
    ensures
        s.take(0).filter(pred) == Seq::<A>::empty(),
{
    reveal(Seq::filter);
    assert(s.take(0) =~= Seq::<A>::empty());
}

/// Whatever passes the filter of the first `i` elements is one of them and
/// passes the predicate.
pub proof fn lemma_filter_take_members<A>(s: Seq<A>, pred: spec_fn(A) -> bool, i: int)
    requires
        0 <= i <= s.len(),
    ensures
        forall|j: int|
            0 <= j < s.take(i).filter(pred).len() ==> pred(#[trigger] s.take(i).filter(pred)[j])
                && exists|k: int| 0 <= k < i && s[k] == s.take(i).filter(pred)[j],
    decreases i,
{
    if i == 0 {
        lemma_filter_take_none(s, pred);
    } else {
        lemma_filter_take_members(s, pred, i - 1);
        lemma_filter_take_step(s, pred, i - 1);
        let shorter = s.take(i - 1).filter(pred);
        let longer = s.take(i).filter(pred);
        assert forall|j: int| 0 <= j < longer.len() implies pred(#[trigger] longer[j])
            && exists|k: int| 0 <= k < i && s[k] == longer[j] by {
            if j < shorter.len() {
                assert(longer[j] == shorter[j]);
                let k = choose|k: int| 0 <= k < i - 1 && s[k] == shorter[j];
                assert(s[k] == longer[j]);
            } else {
                assert(s[i - 1] == longer[j]);
            }
        }
    }
}

} // verus!
