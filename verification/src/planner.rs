//! Attachment planning: a pure partition of the image's entry points into
//! the two work-lists the attacher will drive, decided by each entry point's
//! declared kind and by whether a network interface name was supplied.

use vstd::prelude::*;
use crate::image::{EntryPoint, EntryPointKind, EntryPointState};

verus! {

/// An entry point that belongs on the XDP work-list: declared for the
/// network datapath and still waiting in the `Loaded` state.
pub open spec fn plans_xdp(e: EntryPoint) -> bool {
    e.kind == EntryPointKind::Xdp && e.state == EntryPointState::Loaded
}

/// An entry point that belongs on the probe work-list: a kernel entry or
/// return hook, still waiting in the `Loaded` state.
pub open spec fn plans_probe(e: EntryPoint) -> bool {
    (e.kind == EntryPointKind::Kprobe || e.kind == EntryPointKind::Kretprobe)
        && e.state == EntryPointState::Loaded
}

/// `list` is a work-list over `entries` for the selector `sel`: a strictly
/// increasing list of indices into `entries` holding exactly the positions
/// of the entries that `sel` accepts.
pub open spec fn is_worklist(
    list: Seq<usize>,
    entries: Seq<EntryPoint>,
    sel: spec_fn(EntryPoint) -> bool,
) -> bool {
    &&& forall|i: int, j: int| 0 <= i < j < list.len() ==> list[i] < list[j]
    &&& forall|i: int|
        0 <= i < list.len() ==> list[i] < entries.len() && sel(
            entries[#[trigger] list[i] as int],
        )
    &&& forall|e: int| 0 <= e < entries.len() && sel(#[trigger] entries[e]) ==> list.contains(
        e as usize,
    )
}

/// The two disjoint work-lists the planner produces, as indices into the
/// image's entry-point list.
pub struct AttachmentPlan {
    pub xdp: Vec<usize>,
    pub probes: Vec<usize>,
}

/// What `plan_attachments` promises of its result: the XDP work-list holds
/// exactly the loaded XDP entries when an interface was supplied and is
/// empty otherwise; the probe work-list holds exactly the loaded kernel
/// probes, independent of the interface.
pub open spec fn plan_is_valid(
    plan: AttachmentPlan,
    entries: Seq<EntryPoint>,
    has_interface: bool,
) -> bool {
    &&& has_interface ==> is_worklist(plan.xdp@, entries, |e: EntryPoint| plans_xdp(e))
    &&& !has_interface ==> plan.xdp@.len() == 0
    &&& is_worklist(plan.probes@, entries, |e: EntryPoint| plans_probe(e))
}

/// Partitions the entry points into the XDP and probe work-lists. A pure
/// decision with no side effects: entry points of kind `Other` are never
/// selected, and without an interface name no XDP attachment is planned.
pub fn plan_attachments(entries: &Vec<EntryPoint>, interface: &Option<String>) -> (plan:
    AttachmentPlan)
    ensures
        plan_is_valid(plan, entries@, interface.is_some()),
{
    let mut xdp: Vec<usize> = Vec::new();
    let mut probes: Vec<usize> = Vec::new();
    let n = entries.len();
    if interface.is_some() {
        let mut i: usize = 0;
        while i < n
            invariant
                n == entries@.len(),
                i <= n,
                forall|a: int, b: int| 0 <= a < b < xdp@.len() ==> xdp@[a] < xdp@[b],
                forall|a: int|
                    0 <= a < xdp@.len() ==> xdp@[a] < i && plans_xdp(
                        entries@[#[trigger] xdp@[a] as int],
                    ),
                forall|e: int|
                    0 <= e < i && plans_xdp(#[trigger] entries@[e]) ==> xdp@.contains(e as usize),
            decreases n - i,
        {
            let ep = &entries[i];
            if ep.kind == EntryPointKind::Xdp && ep.state == EntryPointState::Loaded {
                let ghost pre = xdp@;
                xdp.push(i);
                proof {
                    assert forall|e: int| 0 <= e < i + 1 && plans_xdp(entries@[e]) implies xdp@
                        .contains(e as usize) by {
                        if e < i {
                            let k = choose|k: int| 0 <= k < pre.len() && pre[k] == e as usize;
                            assert(xdp@[k] == e as usize);
                        } else {
                            assert(xdp@[pre.len() as int] == e as usize);
                        }
                    }
                }
            }
            i += 1;
        }
    }
    let mut i: usize = 0;
    while i < n
        invariant
            n == entries@.len(),
            i <= n,
            forall|a: int, b: int| 0 <= a < b < probes@.len() ==> probes@[a] < probes@[b],
            forall|a: int|
                0 <= a < probes@.len() ==> probes@[a] < i && plans_probe(
                    entries@[#[trigger] probes@[a] as int],
                ),
            forall|e: int|
                0 <= e < i && plans_probe(#[trigger] entries@[e]) ==> probes@.contains(e as usize),
        decreases n - i,
    {
        let ep = &entries[i];
        if (ep.kind == EntryPointKind::Kprobe || ep.kind == EntryPointKind::Kretprobe)
            && ep.state == EntryPointState::Loaded {
            let ghost pre = probes@;
            probes.push(i);
            proof {
                assert forall|e: int| 0 <= e < i + 1 && plans_probe(entries@[e]) implies probes@
                    .contains(e as usize) by {
                    if e < i {
                        let k = choose|k: int| 0 <= k < pre.len() && pre[k] == e as usize;
                        assert(probes@[k] == e as usize);
                    } else {
                        assert(probes@[pre.len() as int] == e as usize);
                    }
                }
            }
        }
        i += 1;
    }
    AttachmentPlan { xdp, probes }
}

/// Entry points of kind `Other` never reach a work-list: neither selector
/// accepts them, whatever their state and whether or not an interface name
/// was supplied.
pub proof fn lemma_other_never_planned(
    plan: AttachmentPlan,
    entries: Seq<EntryPoint>,
    has_interface: bool,
    e: usize,
)
    requires
        plan_is_valid(plan, entries, has_interface),
        e < entries.len(),
        entries[e as int].kind == EntryPointKind::Other,
    ensures
        !plan.xdp@.contains(e),
        !plan.probes@.contains(e),
{
    if plan.xdp@.contains(e) {
        let i = choose|i: int| 0 <= i < plan.xdp@.len() && plan.xdp@[i] == e;
        assert(plans_xdp(entries[plan.xdp@[i] as int]));
        assert(false);
    }
    if plan.probes@.contains(e) {
        let i = choose|i: int| 0 <= i < plan.probes@.len() && plan.probes@[i] == e;
        assert(plans_probe(entries[plan.probes@[i] as int]));
        assert(false);
    }
}

/// With no interface name supplied, the XDP work-list is empty regardless
/// of which entry-point kinds the image holds.
pub proof fn lemma_no_interface_no_xdp(plan: AttachmentPlan, entries: Seq<EntryPoint>)
    requires
        plan_is_valid(plan, entries, false),
    ensures
        plan.xdp@.len() == 0,
{
}

/// The two work-lists are disjoint: no entry point is planned for both the
/// network datapath and a kernel probe.
pub proof fn lemma_worklists_disjoint(
    plan: AttachmentPlan,
    entries: Seq<EntryPoint>,
    has_interface: bool,
    e: usize,
)
    requires
        plan_is_valid(plan, entries, has_interface),
        plan.xdp@.contains(e),
    ensures
        !plan.probes@.contains(e),
{
    let i = choose|i: int| 0 <= i < plan.xdp@.len() && plan.xdp@[i] == e;
    assert(plans_xdp(entries[plan.xdp@[i] as int]));
    if plan.probes@.contains(e) {
        let j = choose|j: int| 0 <= j < plan.probes@.len() && plan.probes@[j] == e;
        assert(plans_probe(entries[plan.probes@[j] as int]));
        assert(false);
    }
}

} // verus!
