//! End-to-end scenarios over the whole pipeline, driven with synthetic
//! kernel outcomes in place of real attach and bind calls.

use cargo_bpf::aggregator::{AggregatorAction, AggregatorEvent, EventBatch, StreamAggregator};
use cargo_bpf::attacher::record_attach_outcomes;
use cargo_bpf::binder::{bind_phase, collect_bound_buffers};
use cargo_bpf::errors::{classify_run, PipelineError, RunOutcome};
use cargo_bpf::image::{DataMap, EntryPoint, EntryPointKind, EntryPointState, MapKind};
use cargo_bpf::planner::plan_attachments;

fn entry(name: &str, kind: EntryPointKind) -> EntryPoint {
    EntryPoint { name: name.to_string(), kind, state: EntryPointState::Loaded }
}

#[test]
fn scenario_one_xdp_with_interface_fully_attached() {
    let mut entries = vec![entry("xdp_filter", EntryPointKind::Xdp)];
    let plan = plan_attachments(&entries, &Some("eth0".to_string()));
    assert_eq!(plan.xdp, vec![0]);
    assert!(plan.probes.is_empty());
    let outcomes = vec![true];
    let report = record_attach_outcomes(&mut entries, &plan.xdp, &outcomes);
    assert_eq!(report.attached.len(), 1);
    assert!(report.failures.is_empty());
    assert_eq!(entries[0].state, EntryPointState::Attached);
    let outcome = classify_run(false, report.failures.len());
    assert_eq!(outcome, RunOutcome::FullyAttached);
}

#[test]
fn scenario_two_kprobes_one_failing_partially_attached() {
    let mut entries = vec![
        entry("kp_open", EntryPointKind::Kprobe),
        entry("kp_close", EntryPointKind::Kprobe),
    ];
    let plan = plan_attachments(&entries, &None);
    assert_eq!(plan.probes, vec![0, 1]);
    let outcomes = vec![true, false];
    let report = record_attach_outcomes(&mut entries, &plan.probes, &outcomes);
    assert_eq!(report.attached, vec![0]);
    assert_eq!(report.failures.len(), 1);
    match &report.failures[0] {
        PipelineError::Attach { entry_name, kind } => {
            assert_eq!(entry_name, "kp_close");
            assert_eq!(*kind, EntryPointKind::Kprobe);
        }
        other => panic!("expected an attach error, got {:?}", other),
    }
    let outcome = classify_run(false, report.failures.len());
    assert_eq!(outcome, RunOutcome::PartiallyAttached);
}

#[test]
fn scenario_four_cpus_one_map_isolated_delivery() {
    let maps = vec![DataMap { name: "events".to_string(), kind: MapKind::Output }];
    let requests = bind_phase(&maps, Some(vec![0, 1, 2, 3])).expect("topology was supplied");
    assert_eq!(requests.len(), 4);
    let outcomes = vec![true; 4];
    let report = collect_bound_buffers(&maps, &requests, &outcomes);
    assert_eq!(report.buffers.len(), 4);
    let mut agg = StreamAggregator::new(report.buffers, false);
    // A readiness event on CPU 2's buffer delivers without touching the rest.
    let batch = EventBatch { events: vec![b"payload".to_vec()] };
    let action = agg.step(AggregatorEvent::Readiness { buffer: 2, batch });
    match action {
        AggregatorAction::Deliver { buffer, batch } => {
            assert_eq!(buffer, 2);
            assert_eq!(batch.events, vec![b"payload".to_vec()]);
        }
        other => panic!("expected a delivery, got {:?}", other),
    }
    assert_eq!(agg.buffers.len(), 4);
    for (i, b) in agg.buffers.iter().enumerate() {
        assert_eq!(b.cpu_id, i as u32);
        assert_eq!(b.map_name, "events");
    }
}

#[test]
fn scenario_topology_failure_aborts_before_binding() {
    let maps = vec![
        DataMap { name: "events".to_string(), kind: MapKind::Output },
        DataMap { name: "more_events".to_string(), kind: MapKind::Output },
    ];
    let r = bind_phase(&maps, None);
    let err = r.expect_err("topology was missing");
    assert!(matches!(err, PipelineError::Topology));
    assert!(err.is_fatal());
    let outcome = classify_run(err.is_fatal(), 0);
    assert_eq!(outcome, RunOutcome::FatallyAborted);
}

#[test]
fn fatal_and_recoverable_errors_are_distinguished() {
    assert!(PipelineError::Image.is_fatal());
    assert!(PipelineError::Topology.is_fatal());
    assert!(PipelineError::StreamFault.is_fatal());
    assert!(!PipelineError::Load { entry_name: "a".to_string() }.is_fatal());
    assert!(!PipelineError::Attach {
        entry_name: "a".to_string(),
        kind: EntryPointKind::Xdp
    }
    .is_fatal());
    assert!(!PipelineError::Bind { map_name: "m".to_string(), cpu_id: 0 }.is_fatal());
    assert!(!PipelineError::Consumer.is_fatal());
}
