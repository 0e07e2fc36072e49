//! Counting helpers over per-item outcome sequences. The attach and bind
//! phases both record one boolean outcome per work item; these specs relate
//! the number of successes to the shape of the outcome sequence.

use vstd::prelude::*;

verus! {

/// How many outcomes in `s` are successes.
pub open spec fn count_true(s: Seq<bool>) -> int
    decreases s.len(),
{
    if s.len() == 0 {
        0
    } else {
        count_true(s.drop_last()) + (if s.last() {
            1int
        } else {
            0int
        })
    }
}

/// A run where every item succeeded has as many successes as items.
pub proof fn lemma_all_true_count(s: Seq<bool>)
    requires
        forall|p: int| 0 <= p < s.len() ==> s[p],
    ensures
        count_true(s) == s.len(),
    decreases s.len(),
{
    if s.len() > 0 {
        lemma_all_true_count(s.drop_last());
    }
}

/// A run where exactly one item failed has one success fewer than items:
/// the failure stays isolated to its own item.
pub proof fn lemma_single_failure_count(s: Seq<bool>, f: int)
    requires
        0 <= f < s.len(),
        !s[f],
        forall|p: int| 0 <= p < s.len() && p != f ==> s[p],
    ensures
        count_true(s) == s.len() - 1,
    decreases s.len(),
{
    if f == s.len() - 1 {
        lemma_all_true_count(s.drop_last());
    } else {
        lemma_single_failure_count(s.drop_last(), f);
    }
}

} // verus!
