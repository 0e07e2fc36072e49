//! Buffer binding: one ring buffer per (output map, active CPU) pair. The
//! caller queries the CPU topology and performs the actual bind calls; this
//! module plans exactly which pairs to bind, gates the phase on the
//! topology query, and collects per-pair outcomes so that one failed bind
//! never prevents the remaining pairs.

use vstd::prelude::*;
use crate::errors::PipelineError;
use crate::image::{DataMap, MapKind};
use crate::outcomes::count_true;

verus! {

/// Ring-buffer capacity used for every binding, in pages.
pub const RING_CAPACITY_PAGES: usize = 16;

/// One planned binding: a map (by index into the image's map list) and the
/// CPU whose ring buffer will carry its events.
#[derive(Clone, Copy, Debug, PartialEq, Eq, Structural)]
pub struct BindRequest {
    pub map_index: usize,
    pub cpu_id: u32,
}

/// One ring buffer bound to one (map, cpu) pair.
pub struct BoundBuffer {
    pub map_name: String,
    pub cpu_id: u32,
    pub capacity_pages: usize,
}

/// Whether a map feeds the event stream.
pub open spec fn is_output(m: DataMap) -> bool {
    m.kind == MapKind::Output
}

/// How many maps feed the event stream.
pub open spec fn count_output(maps: Seq<DataMap>) -> int
    decreases maps.len(),
{
    if maps.len() == 0 {
        0
    } else {
        count_output(maps.drop_last()) + (if is_output(maps.last()) {
            1int
        } else {
            0int
        })
    }
}

/// The requests one output map contributes: one per active CPU, in CPU
/// order.
pub open spec fn cpu_row(map_index: usize, cpus: Seq<u32>) -> Seq<BindRequest> {
    Seq::new(cpus.len(), |c: int| BindRequest { map_index, cpu_id: cpus[c] })
}

/// Every (output map, active CPU) pair, ordered by map then by CPU: the
/// exact set of buffers the binder is to create, with no duplicates and no
/// omissions.
pub open spec fn binding_pairs(maps: Seq<DataMap>, cpus: Seq<u32>) -> Seq<BindRequest>
    decreases maps.len(),
{
    if maps.len() == 0 {
        Seq::empty()
    } else {
        binding_pairs(maps.drop_last(), cpus) + (if is_output(maps.last()) {
            cpu_row((maps.len() - 1) as usize, cpus)
        } else {
            Seq::empty()
        })
    }
}

/// Plans the complete set of bindings for the image's maps over the active
/// CPUs. Pure enumeration: no side effects.
pub fn plan_bindings(maps: &Vec<DataMap>, cpus: &Vec<u32>) -> (requests: Vec<BindRequest>)
    ensures
        requests@ == binding_pairs(maps@, cpus@),
{
    let mut requests: Vec<BindRequest> = Vec::new();
    let m = maps.len();
    let mut i: usize = 0;
    while i < m
        invariant
            m == maps@.len(),
            i <= m,
            requests@ == binding_pairs(maps@.take(i as int), cpus@),
        decreases m - i,
    {
        if maps[i].kind == MapKind::Output {
            let ghost pre = requests@;
            let ncpu = cpus.len();
            let mut c: usize = 0;
            while c < ncpu
                invariant
                    ncpu == cpus@.len(),
                    c <= ncpu,
                    i < maps@.len(),
                    requests@ == pre + cpu_row(i, cpus@).take(c as int),
                decreases ncpu - c,
            {
                requests.push(BindRequest { map_index: i, cpu_id: cpus[c] });
                proof {
                    assert(cpu_row(i, cpus@).take((c + 1) as int) =~= cpu_row(i, cpus@).take(
                        c as int,
                    ).push(cpu_row(i, cpus@)[c as int]));
                    assert(requests@ =~= pre + cpu_row(i, cpus@).take((c + 1) as int));
                }
                c += 1;
            }
            proof {
                assert(cpu_row(i, cpus@).take(ncpu as int) =~= cpu_row(i, cpus@));
                assert(requests@ =~= pre + cpu_row(i, cpus@));
            }
        }
        proof {
            let ii = (i + 1) as int;
            assert(maps@.take(ii).drop_last() =~= maps@.take(i as int));
            assert(maps@.take(ii).last() == maps@[i as int]);
            if is_output(maps@[i as int]) {
                assert(requests@ == binding_pairs(maps@.take(ii), cpus@));
            } else {
                assert(binding_pairs(maps@.take(ii), cpus@) =~= binding_pairs(
                    maps@.take(i as int),
                    cpus@,
                ));
            }
        }
        i += 1;
    }
    proof {
        assert(maps@.take(m as int) =~= maps@);
    }
    requests
}

/// A map that is not an output map is never bound: every planned pair
/// points at an output map.
pub proof fn lemma_non_output_never_bound(maps: Seq<DataMap>, cpus: Seq<u32>, r: int)
    requires
        maps.len() <= usize::MAX,
        0 <= r < binding_pairs(maps, cpus).len(),
    ensures
        binding_pairs(maps, cpus)[r].map_index < maps.len(),
        is_output(maps[binding_pairs(maps, cpus)[r].map_index as int]),
    decreases maps.len(),
{
    let pre = binding_pairs(maps.drop_last(), cpus);
    if r < pre.len() {
        lemma_non_output_never_bound(maps.drop_last(), cpus, r);
    } else {
        assert(is_output(maps.last()));
        assert(binding_pairs(maps, cpus)[r] == cpu_row((maps.len() - 1) as usize, cpus)[r
            - pre.len()]);
    }
}

/// The plan holds exactly N×M pairs: the number of output maps times the
/// number of active CPUs.
pub proof fn lemma_binding_pairs_len(maps: Seq<DataMap>, cpus: Seq<u32>)
    ensures
        binding_pairs(maps, cpus).len() == count_output(maps) * cpus.len(),
    decreases maps.len(),
{
    if maps.len() == 0 {
    } else {
        lemma_binding_pairs_len(maps.drop_last(), cpus);
        let c = count_output(maps.drop_last());
        let n = cpus.len() as int;
        if is_output(maps.last()) {
            assert((c + 1) * n == c * n + n) by (nonlinear_arith);
        }
    }
}

/// The (map name, cpu) views of the buffers bound when `reqs` is driven
/// with outcomes `oc`, in request order.
pub open spec fn bound_pairs(maps: Seq<DataMap>, reqs: Seq<BindRequest>, oc: Seq<bool>) -> Seq<
    (Seq<char>, u32),
>
    decreases reqs.len(),
{
    if reqs.len() == 0 {
        Seq::empty()
    } else {
        let pre = bound_pairs(maps, reqs.drop_last(), oc.drop_last());
        if oc[reqs.len() - 1] {
            pre.push((maps[reqs.last().map_index as int].name@, reqs.last().cpu_id))
        } else {
            pre
        }
    }
}

/// The (map name, cpu) tags of the pairs that fail to bind, in request
/// order.
pub open spec fn failed_binds(maps: Seq<DataMap>, reqs: Seq<BindRequest>, oc: Seq<bool>) -> Seq<
    (Seq<char>, u32),
>
    decreases reqs.len(),
{
    if reqs.len() == 0 {
        Seq::empty()
    } else {
        let pre = failed_binds(maps, reqs.drop_last(), oc.drop_last());
        if !oc[reqs.len() - 1] {
            pre.push((maps[reqs.last().map_index as int].name@, reqs.last().cpu_id))
        } else {
            pre
        }
    }
}

pub open spec fn buffer_view(b: BoundBuffer) -> (Seq<char>, u32) {
    (b.map_name@, b.cpu_id)
}

pub open spec fn buffer_views(s: Seq<BoundBuffer>) -> Seq<(Seq<char>, u32)> {
    s.map_values(|b: BoundBuffer| buffer_view(b))
}

/// What a bind error reports: the failing pair's map name and CPU.
pub open spec fn bind_failure_view(e: PipelineError) -> (Seq<char>, u32) {
    match e {
        PipelineError::Bind { map_name, cpu_id } => (map_name@, cpu_id),
        _ => (Seq::empty(), 0),
    }
}

pub open spec fn bind_failure_views(s: Seq<PipelineError>) -> Seq<(Seq<char>, u32)> {
    s.map_values(|e: PipelineError| bind_failure_view(e))
}

/// One bind phase bound as many pairs as succeeded.
pub proof fn lemma_bound_pairs_len(maps: Seq<DataMap>, reqs: Seq<BindRequest>, oc: Seq<bool>)
    requires
        oc.len() == reqs.len(),
    ensures
        bound_pairs(maps, reqs, oc).len() == count_true(oc),
        failed_binds(maps, reqs, oc).len() == oc.len() - count_true(oc),
    decreases reqs.len(),
{
    if reqs.len() > 0 {
        lemma_bound_pairs_len(maps, reqs.drop_last(), oc.drop_last());
    }
}

/// The report of one bind phase: the buffers that were bound, and one
/// tagged error per pair that failed.
pub struct BindReport {
    pub buffers: Vec<BoundBuffer>,
    pub failures: Vec<PipelineError>,
}

/// Collects the per-pair outcomes of the bind calls. Every pair gets its
/// own buffer or its own discrete error tagged with the map name and CPU;
/// one pair's failure never prevents the remaining pairs.
pub fn collect_bound_buffers(
    maps: &Vec<DataMap>,
    requests: &Vec<BindRequest>,
    outcomes: &Vec<bool>,
) -> (report: BindReport)
    requires
        outcomes@.len() == requests@.len(),
        forall|r: int|
            0 <= r < requests@.len() ==> (#[trigger] requests@[r]).map_index < maps@.len(),
    ensures
        buffer_views(report.buffers@) == bound_pairs(maps@, requests@, outcomes@),
        forall|b: int|
            0 <= b < report.buffers@.len() ==> (#[trigger] report.buffers@[b]).capacity_pages
                == RING_CAPACITY_PAGES,
        forall|j: int|
            0 <= j < report.failures@.len() ==> (#[trigger] report.failures@[j]) is Bind,
        bind_failure_views(report.failures@) == failed_binds(maps@, requests@, outcomes@),
        report.buffers@.len() == count_true(outcomes@),
        report.failures@.len() == outcomes@.len() - count_true(outcomes@),
{
    let mut buffers: Vec<BoundBuffer> = Vec::new();
    let mut failures: Vec<PipelineError> = Vec::new();
    let n = requests.len();
    let mut r: usize = 0;
    while r < n
        invariant
            n == requests@.len(),
            outcomes@.len() == requests@.len(),
            r <= n,
            forall|a: int|
                0 <= a < requests@.len() ==> (#[trigger] requests@[a]).map_index < maps@.len(),
            buffer_views(buffers@) == bound_pairs(maps@, requests@.take(r as int), outcomes@.take(r as int)),
            forall|b: int|
                0 <= b < buffers@.len() ==> (#[trigger] buffers@[b]).capacity_pages
                    == RING_CAPACITY_PAGES,
            forall|j: int| 0 <= j < failures@.len() ==> (#[trigger] failures@[j]) is Bind,
            bind_failure_views(failures@) == failed_binds(maps@, requests@.take(r as int), outcomes@.take(r as int)),
        decreases n - r,
    {
        let req = requests[r];
        let ok = outcomes[r];
        let ghost pre_buffers = buffers@;
        let ghost pre_failures = failures@;
        let map_name = maps[req.map_index].name.clone();
        if ok {
            buffers.push(BoundBuffer {
                map_name,
                cpu_id: req.cpu_id,
                capacity_pages: RING_CAPACITY_PAGES,
            });
        } else {
            failures.push(PipelineError::Bind { map_name, cpu_id: req.cpu_id });
        }
        proof {
            let rr = (r + 1) as int;
            assert(requests@.take(rr).drop_last() =~= requests@.take(r as int));
            assert(outcomes@.take(rr).drop_last() =~= outcomes@.take(r as int));
            assert(requests@.take(rr).last() == req);
            assert(outcomes@.take(rr)[rr - 1] == ok);
            if ok {
                assert(buffer_views(buffers@) =~= buffer_views(pre_buffers).push(
                    buffer_view(buffers@.last()),
                ));
                assert(buffer_views(buffers@) == bound_pairs(
                    maps@,
                    requests@.take(rr),
                    outcomes@.take(rr),
                ));
                assert(failed_binds(maps@, requests@.take(rr), outcomes@.take(rr))
                    == failed_binds(maps@, requests@.take(r as int), outcomes@.take(r as int)));
            } else {
                assert(bind_failure_views(failures@) =~= bind_failure_views(pre_failures).push(
                    bind_failure_view(failures@.last()),
                ));
                assert(bind_failure_views(failures@) == failed_binds(
                    maps@,
                    requests@.take(rr),
                    outcomes@.take(rr),
                ));
                assert(bound_pairs(maps@, requests@.take(rr), outcomes@.take(rr)) == bound_pairs(
                    maps@,
                    requests@.take(r as int),
                    outcomes@.take(r as int),
                ));
            }
        }
        r += 1;
    }
    proof {
        assert(requests@.take(n as int) =~= requests@);
        assert(outcomes@.take(n as int) =~= outcomes@);
        lemma_bound_pairs_len(maps@, requests@, outcomes@);
    }
    BindReport { buffers, failures }
}

/// With M output maps, N active CPUs and every binding succeeding, exactly
/// N×M buffers are bound.
pub proof fn lemma_full_binding_count(maps: Seq<DataMap>, cpus: Seq<u32>, oc: Seq<bool>)
    requires
        oc.len() == binding_pairs(maps, cpus).len(),
        forall|p: int| 0 <= p < oc.len() ==> oc[p],
    ensures
        bound_pairs(maps, binding_pairs(maps, cpus), oc).len() == count_output(maps) * cpus.len(),
{
    lemma_bound_pairs_len(maps, binding_pairs(maps, cpus), oc);
    crate::outcomes::lemma_all_true_count(oc);
    lemma_binding_pairs_len(maps, cpus);
}

/// Gates the bind phase on the CPU topology query: without a CPU list the
/// phase aborts fatally before any binding is attempted, and no request is
/// ever produced.
pub fn bind_phase(maps: &Vec<DataMap>, topology: Option<Vec<u32>>) -> (r: Result<
    Vec<BindRequest>,
    PipelineError,
>)
    ensures
        topology is None ==> r == Result::<Vec<BindRequest>, PipelineError>::Err(
            PipelineError::Topology,
        ),
        topology matches Some(cpus) ==> r matches Ok(reqs) && reqs@ == binding_pairs(
            maps@,
            cpus@,
        ),
{
    match topology {
        None => Err(PipelineError::Topology),
        Some(cpus) => Ok(plan_bindings(maps, &cpus)),
    }
}

} // verus!
