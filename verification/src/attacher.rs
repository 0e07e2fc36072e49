//! Recording of per-entry-point load and attach outcomes. The caller
//! performs the actual kernel calls and hands each call's outcome back as a
//! plain boolean; the functions here apply the state transitions and collect
//! one tagged error per failed item, so that one failure never aborts the
//! remaining items.

use vstd::prelude::*;
use crate::errors::PipelineError;
use crate::image::{EntryPoint, EntryPointKind, EntryPointState};

verus! {

/// The indices (into the entry list) that reach `Attached` when the
/// work-list `wl` is driven with the per-item outcomes `oc`, in work-list
/// order.
pub open spec fn attached_indices(wl: Seq<usize>, oc: Seq<bool>) -> Seq<usize>
    decreases wl.len(),
{
    if wl.len() == 0 {
        Seq::empty()
    } else {
        let pre = attached_indices(wl.drop_last(), oc.drop_last());
        if oc[wl.len() - 1] {
            pre.push(wl.last())
        } else {
            pre
        }
    }
}

/// The (name, kind) pairs of the work-list items that fail when `wl` is
/// driven with outcomes `oc`, in work-list order.
pub open spec fn failed_attaches(entries: Seq<EntryPoint>, wl: Seq<usize>, oc: Seq<bool>) -> Seq<
    (Seq<char>, EntryPointKind),
>
    decreases wl.len(),
{
    if wl.len() == 0 {
        Seq::empty()
    } else {
        let pre = failed_attaches(entries, wl.drop_last(), oc.drop_last());
        if !oc[wl.len() - 1] {
            pre.push((entries[wl.last() as int].name@, entries[wl.last() as int].kind))
        } else {
            pre
        }
    }
}

/// What an attach error reports: the failing entry point's name and kind.
pub open spec fn attach_failure_view(e: PipelineError) -> (Seq<char>, EntryPointKind) {
    match e {
        PipelineError::Attach { entry_name, kind } => (entry_name@, kind),
        _ => (Seq::empty(), EntryPointKind::Other),
    }
}

pub open spec fn attach_failure_views(s: Seq<PipelineError>) -> Seq<(Seq<char>, EntryPointKind)> {
    s.map_values(|e: PipelineError| attach_failure_view(e))
}

/// The names of the entries that fail to register when all of `entries` is
/// driven with outcomes `oc`, in entry order.
pub open spec fn failed_loads(entries: Seq<EntryPoint>, oc: Seq<bool>) -> Seq<Seq<char>>
    decreases oc.len(),
{
    if oc.len() == 0 {
        Seq::empty()
    } else {
        let pre = failed_loads(entries, oc.drop_last());
        if !oc.last() {
            pre.push(entries[oc.len() - 1].name@)
        } else {
            pre
        }
    }
}

/// What a load error reports: the failing entry point's name.
pub open spec fn load_failure_view(e: PipelineError) -> Seq<char> {
    match e {
        PipelineError::Load { entry_name } => entry_name@,
        _ => Seq::empty(),
    }
}

pub open spec fn load_failure_views(s: Seq<PipelineError>) -> Seq<Seq<char>> {
    s.map_values(|e: PipelineError| load_failure_view(e))
}

/// Replaces one entry's state, keeping its name and kind and every other
/// entry untouched.
fn set_entry_state(entries: &mut Vec<EntryPoint>, idx: usize, state: EntryPointState)
    requires
        idx < old(entries)@.len(),
    ensures
        final(entries)@.len() == old(entries)@.len(),
        forall|i: int|
            0 <= i < old(entries)@.len() && i != idx ==> final(entries)@[i] == old(entries)@[i],
        final(entries)@[idx as int].name == old(entries)@[idx as int].name,
        final(entries)@[idx as int].kind == old(entries)@[idx as int].kind,
        final(entries)@[idx as int].state == state,
{
    let name = entries[idx].name.clone();
    let kind = entries[idx].kind;
    entries.set(idx, EntryPoint { name, kind, state });
}

/// Applies one attach outcome: success moves the entry to `Attached`;
/// failure moves it to `Failed` and yields the error naming the entry point
/// and its kind. Either way the entry transitions exactly once and no other
/// entry is touched.
pub fn record_attach_outcome(entries: &mut Vec<EntryPoint>, idx: usize, success: bool) -> (err:
    Option<PipelineError>)
    requires
        idx < old(entries)@.len(),
        old(entries)@[idx as int].state == EntryPointState::Loaded,
    ensures
        final(entries)@.len() == old(entries)@.len(),
        forall|i: int|
            0 <= i < old(entries)@.len() && i != idx ==> final(entries)@[i] == old(entries)@[i],
        final(entries)@[idx as int].name == old(entries)@[idx as int].name,
        final(entries)@[idx as int].kind == old(entries)@[idx as int].kind,
        final(entries)@[idx as int].state == (if success {
            EntryPointState::Attached
        } else {
            EntryPointState::Failed
        }),
        err == (if success {
            Option::<PipelineError>::None
        } else {
            Option::Some(
                (PipelineError::Attach {
                    entry_name: old(entries)@[idx as int].name,
                    kind: old(entries)@[idx as int].kind,
                }),
            )
        }),
{
    if success {
        set_entry_state(entries, idx, EntryPointState::Attached);
        None
    } else {
        let entry_name = entries[idx].name.clone();
        let kind = entries[idx].kind;
        set_entry_state(entries, idx, EntryPointState::Failed);
        Some(PipelineError::Attach { entry_name, kind })
    }
}

/// The report of one attach phase: which work-list items reached
/// `Attached`, and one error per item that failed.
pub struct AttachReport {
    pub attached: Vec<usize>,
    pub failures: Vec<PipelineError>,
}

/// Drives a whole work-list with the given per-item outcomes. Every item is
/// processed whatever the outcomes of its siblings: a failed attach marks
/// its own entry `Failed`, adds one tagged error, and leaves all other
/// items to proceed.
pub fn record_attach_outcomes(
    entries: &mut Vec<EntryPoint>,
    worklist: &Vec<usize>,
    outcomes: &Vec<bool>,
) -> (report: AttachReport)
    requires
        outcomes@.len() == worklist@.len(),
        forall|a: int, b: int| 0 <= a < b < worklist@.len() ==> worklist@[a] < worklist@[b],
        forall|a: int|
            0 <= a < worklist@.len() ==> worklist@[a] < old(entries)@.len() && old(entries)@[
                #[trigger] worklist@[a] as int
            ].state == EntryPointState::Loaded,
    ensures
        final(entries)@.len() == old(entries)@.len(),
        forall|i: usize|
            i < old(entries)@.len() && !worklist@.contains(i) ==> final(entries)@[i as int] == old(
                entries,
            )@[i as int],
        forall|p: int|
            0 <= p < worklist@.len() ==> {
                let i = #[trigger] worklist@[p] as int;
                &&& final(entries)@[i].name == old(entries)@[i].name
                &&& final(entries)@[i].kind == old(entries)@[i].kind
                &&& final(entries)@[i].state == (if outcomes@[p] {
                    EntryPointState::Attached
                } else {
                    EntryPointState::Failed
                })
            },
        report.attached@ == attached_indices(worklist@, outcomes@),
        forall|j: int|
            0 <= j < report.failures@.len() ==> (#[trigger] report.failures@[j]) is Attach,
        attach_failure_views(report.failures@) == failed_attaches(
            old(entries)@,
            worklist@,
            outcomes@,
        ),
{
    let mut attached: Vec<usize> = Vec::new();
    let mut failures: Vec<PipelineError> = Vec::new();
    let k = worklist.len();
    let mut p: usize = 0;
    while p < k
        invariant
            k == worklist@.len(),
            outcomes@.len() == worklist@.len(),
            p <= k,
            forall|a: int, b: int| 0 <= a < b < worklist@.len() ==> worklist@[a] < worklist@[b],
            forall|a: int|
                0 <= a < worklist@.len() ==> worklist@[a] < old(entries)@.len() && old(entries)@[
                    #[trigger] worklist@[a] as int
                ].state == EntryPointState::Loaded,
            entries@.len() == old(entries)@.len(),
            forall|i: usize|
                i < old(entries)@.len() && !worklist@.take(p as int).contains(i) ==> entries@[
                    i as int
                ] == old(entries)@[i as int],
            forall|q: int|
                0 <= q < p ==> {
                    let i = #[trigger] worklist@[q] as int;
                    &&& entries@[i].name == old(entries)@[i].name
                    &&& entries@[i].kind == old(entries)@[i].kind
                    &&& entries@[i].state == (if outcomes@[q] {
                        EntryPointState::Attached
                    } else {
                        EntryPointState::Failed
                    })
                },
            attached@ == attached_indices(worklist@.take(p as int), outcomes@.take(p as int)),
            forall|j: int| 0 <= j < failures@.len() ==> (#[trigger] failures@[j]) is Attach,
            attach_failure_views(failures@) == failed_attaches(
                old(entries)@,
                worklist@.take(p as int),
                outcomes@.take(p as int),
            ),
        decreases k - p,
    {
        let idx = worklist[p];
        let ok = outcomes[p];
        proof {
            assert(!worklist@.take(p as int).contains(idx)) by {
                if worklist@.take(p as int).contains(idx) {
                    let q = choose|q: int|
                        0 <= q < worklist@.take(p as int).len() && worklist@.take(p as int)[q]
                            == idx;
                    assert(worklist@[q] == idx);
                    assert(worklist@[q] < worklist@[p as int]);
                    assert(false);
                }
            }
            assert(entries@[idx as int] == old(entries)@[idx as int]);
        }
        let ghost pre_entries = entries@;
        let ghost pre_attached = attached@;
        let ghost pre_failures = failures@;
        let err = record_attach_outcome(entries, idx, ok);
        if ok {
            attached.push(idx);
        } else {
            let e = err.unwrap();
            failures.push(e);
        }
        proof {
            let pp = (p + 1) as int;
            assert(worklist@.take(pp).drop_last() =~= worklist@.take(p as int));
            assert(outcomes@.take(pp).drop_last() =~= outcomes@.take(p as int));
            assert(worklist@.take(pp).last() == idx);
            assert(outcomes@.take(pp)[pp - 1] == ok);
            if ok {
                assert(attached@ == pre_attached.push(idx));
                assert(attached@ == attached_indices(worklist@.take(pp), outcomes@.take(pp)));
            } else {
                assert(attach_failure_views(failures@) =~= attach_failure_views(
                    pre_failures,
                ).push(attach_failure_view(failures@.last())));
                assert(attach_failure_views(failures@) == failed_attaches(
                    old(entries)@,
                    worklist@.take(pp),
                    outcomes@.take(pp),
                ));
            }
            assert forall|i: usize|
                i < old(entries)@.len() && !worklist@.take(pp).contains(i) implies entries@[
                i as int
            ] == old(entries)@[i as int] by {
                assert(worklist@.take(pp)[p as int] == idx);
                assert(i != idx);
                assert(!worklist@.take(p as int).contains(i)) by {
                    if worklist@.take(p as int).contains(i) {
                        let q = choose|q: int|
                            0 <= q < worklist@.take(p as int).len() && worklist@.take(p as int)[q]
                                == i;
                        assert(worklist@.take(pp)[q] == i);
                        assert(false);
                    }
                }
                assert(pre_entries[i as int] == old(entries)@[i as int]);
                assert(entries@[i as int] == pre_entries[i as int]);
            }
        }
        p += 1;
    }
    proof {
        assert(worklist@.take(k as int) =~= worklist@);
        assert(outcomes@.take(k as int) =~= outcomes@);
    }
    AttachReport { attached, failures }
}

/// Applies the load-phase outcomes for the whole entry list: a failed
/// registration marks its own entry `Failed` and yields one error naming
/// it; successful entries stay `Loaded` and untouched.
pub fn record_load_outcomes(entries: &mut Vec<EntryPoint>, outcomes: &Vec<bool>) -> (failures: Vec<
    PipelineError,
>)
    requires
        outcomes@.len() == old(entries)@.len(),
        forall|i: int|
            0 <= i < old(entries)@.len() ==> old(entries)@[i].state == EntryPointState::Loaded,
    ensures
        final(entries)@.len() == old(entries)@.len(),
        forall|i: int|
            0 <= i < old(entries)@.len() ==> {
                &&& final(entries)@[i].name == (#[trigger] old(entries)@[i]).name
                &&& final(entries)@[i].kind == old(entries)@[i].kind
                &&& final(entries)@[i].state == (if outcomes@[i] {
                    EntryPointState::Loaded
                } else {
                    EntryPointState::Failed
                })
            },
        forall|j: int|
            0 <= j < failures@.len() ==> (#[trigger] failures@[j]) is Load,
        load_failure_views(failures@) == failed_loads(old(entries)@, outcomes@),
{
    let mut failures: Vec<PipelineError> = Vec::new();
    let n = entries.len();
    let mut i: usize = 0;
    while i < n
        invariant
            n == entries@.len(),
            entries@.len() == old(entries)@.len(),
            outcomes@.len() == old(entries)@.len(),
            i <= n,
            forall|q: int|
                0 <= q < old(entries)@.len() ==> (#[trigger] old(entries)@[q]).state
                    == EntryPointState::Loaded,
            forall|q: int|
                i <= q < old(entries)@.len() ==> (#[trigger] entries@[q]) == old(entries)@[q],
            forall|q: int|
                0 <= q < i ==> {
                    &&& entries@[q].name == (#[trigger] old(entries)@[q]).name
                    &&& entries@[q].kind == old(entries)@[q].kind
                    &&& entries@[q].state == (if outcomes@[q] {
                        EntryPointState::Loaded
                    } else {
                        EntryPointState::Failed
                    })
                },
            forall|j: int| 0 <= j < failures@.len() ==> (#[trigger] failures@[j]) is Load,
            load_failure_views(failures@) == failed_loads(old(entries)@, outcomes@.take(i as int)),
        decreases n - i,
    {
        let ghost pre_entries = entries@;
        let ghost pre_failures = failures@;
        if !outcomes[i] {
            let entry_name = entries[i].name.clone();
            failures.push(PipelineError::Load { entry_name });
            set_entry_state(entries, i, EntryPointState::Failed);
        }
        proof {
            let ii = (i + 1) as int;
            assert(outcomes@.take(ii).drop_last() =~= outcomes@.take(i as int));
            assert(outcomes@.take(ii).last() == outcomes@[i as int]);
            if !outcomes@[i as int] {
                assert(load_failure_views(failures@) =~= load_failure_views(pre_failures).push(
                    load_failure_view(failures@.last()),
                ));
            }
            assert(load_failure_views(failures@) == failed_loads(
                old(entries)@,
                outcomes@.take(ii),
            ));
            assert forall|q: int| 0 <= q < ii implies {
                &&& entries@[q].name == old(entries)@[q].name
                &&& entries@[q].kind == old(entries)@[q].kind
                &&& entries@[q].state == (if outcomes@[q] {
                    EntryPointState::Loaded
                } else {
                    EntryPointState::Failed
                })
            } by {
                if q < i {
                    assert(entries@[q] == pre_entries[q]);
                } else {
                    assert(pre_entries[q] == old(entries)@[q]);
                }
            }
        }
        i += 1;
    }
    proof {
        assert(outcomes@.take(n as int) =~= outcomes@);
    }
    failures
}

/// How many items of a work-list reach `Attached`: exactly the number of
/// successful outcomes.
pub proof fn lemma_attached_count(wl: Seq<usize>, oc: Seq<bool>)
    requires
        wl.len() == oc.len(),
    ensures
        attached_indices(wl, oc).len() == crate::outcomes::count_true(oc),
    decreases wl.len(),
{
    if wl.len() > 0 {
        lemma_attached_count(wl.drop_last(), oc.drop_last());
    }
}

/// When every attach succeeds, every work-list item reaches `Attached`.
pub proof fn lemma_all_success_attached(wl: Seq<usize>, oc: Seq<bool>)
    requires
        wl.len() == oc.len(),
        forall|p: int| 0 <= p < oc.len() ==> oc[p],
    ensures
        attached_indices(wl, oc).len() == wl.len(),
{
    lemma_attached_count(wl, oc);
    crate::outcomes::lemma_all_true_count(oc);
}

/// Failure isolation: one failing attach among K work-list items still
/// yields K - 1 attached entries — the failure never spreads to a sibling.
pub proof fn lemma_failure_isolation(wl: Seq<usize>, oc: Seq<bool>, f: int)
    requires
        wl.len() == oc.len(),
        0 <= f < oc.len(),
        !oc[f],
        forall|p: int| 0 <= p < oc.len() && p != f ==> oc[p],
    ensures
        attached_indices(wl, oc).len() == wl.len() - 1,
{
    lemma_attached_count(wl, oc);
    crate::outcomes::lemma_single_failure_count(oc, f);
}

} // verus!
