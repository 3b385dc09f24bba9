//! Facts about filtering a sequence from its front.

use vstd::prelude::*;

verus! {

/// Filtering one element more either appends it or changes nothing.
pub proof fn lemma_filter_next<A>(s: Seq<A>, keep: spec_fn(A) -> bool, i: int)
    requires
        0 <= i < s.len(),
    ensures
        s.take(i + 1).filter(keep) == if keep(s[i]) {
            s.take(i).filter(keep).push(s[i])
        } else {
            s.take(i).filter(keep)
        },
{
    assert(s.take(i + 1).drop_last() =~= s.take(i));
    assert(s.take(i + 1).last() == s[i]);
    reveal(Seq::filter);
}

/// What a filter keeps passes the filter, and was in the sequence.
pub proof fn lemma_filter_members<A>(s: Seq<A>, keep: spec_fn(A) -> bool)
    ensures
        forall|k: int|
            0 <= k < s.filter(keep).len() ==> keep(#[trigger] s.filter(keep)[k]) && s.contains(
                s.filter(keep)[k],
            ),
        s.filter(keep).len() <= s.len(),
    decreases s.len(),
{
    reveal(Seq::filter);
    if s.len() > 0 {
        lemma_filter_members(s.drop_last(), keep);
        let shorter = s.drop_last().filter(keep);
        assert forall|k: int| 0 <= k < s.filter(keep).len() implies keep(
            #[trigger] s.filter(keep)[k],
        ) && s.contains(s.filter(keep)[k]) by {
            if k < shorter.len() {
                let x = shorter[k];
                assert(s.drop_last().contains(x));
                let at = choose|at: int| 0 <= at < s.drop_last().len() && s.drop_last()[at] == x;
                assert(s[at] == x);
            } else {
                assert(s.filter(keep)[k] == s.last());
                assert(s[s.len() - 1] == s.last());
            }
        }
    }
}

/// Filtering what a filter kept keeps all of it.
pub proof fn lemma_filter_twice<A>(s: Seq<A>, keep: spec_fn(A) -> bool)
    ensures
        s.filter(keep).filter(keep) == s.filter(keep),
    decreases s.len(),
{
    reveal(Seq::filter);
    if s.len() > 0 {
        lemma_filter_twice(s.drop_last(), keep);
        let shorter = s.drop_last().filter(keep);
        if keep(s.last()) {
            let kept = shorter.push(s.last());
            assert(kept.drop_last() =~= shorter);
            assert(kept.last() == s.last());
        }
    }
}

} // verus!
