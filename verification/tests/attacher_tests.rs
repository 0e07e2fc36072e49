use cargo_bpf::attacher::{record_attach_outcome, record_attach_outcomes, record_load_outcomes};
use cargo_bpf::errors::PipelineError;
use cargo_bpf::image::{EntryPoint, EntryPointKind, EntryPointState};

fn entry(name: &str, kind: EntryPointKind) -> EntryPoint {
    EntryPoint { name: name.to_string(), kind, state: EntryPointState::Loaded }
}

#[test]
fn one_failure_leaves_siblings_attached() {
    let mut entries = vec![
        entry("kp_a", EntryPointKind::Kprobe),
        entry("kp_b", EntryPointKind::Kprobe),
        entry("kp_c", EntryPointKind::Kprobe),
    ];
    let worklist = vec![0, 1, 2];
    let outcomes = vec![true, false, true];
    let report = record_attach_outcomes(&mut entries, &worklist, &outcomes);
    assert_eq!(report.attached, vec![0, 2]);
    assert_eq!(report.failures.len(), 1);
    assert_eq!(entries[0].state, EntryPointState::Attached);
    assert_eq!(entries[1].state, EntryPointState::Failed);
    assert_eq!(entries[2].state, EntryPointState::Attached);
}

#[test]
fn attach_error_names_the_entry_and_kind() {
    let mut entries = vec![entry("probe_x", EntryPointKind::Kretprobe)];
    let err = record_attach_outcome(&mut entries, 0, false);
    match err {
        Some(PipelineError::Attach { entry_name, kind }) => {
            assert_eq!(entry_name, "probe_x");
            assert_eq!(kind, EntryPointKind::Kretprobe);
        }
        other => panic!("expected an attach error, got {:?}", other),
    }
    assert_eq!(entries[0].state, EntryPointState::Failed);
}

#[test]
fn attach_success_reports_no_error() {
    let mut entries = vec![entry("xdp_main", EntryPointKind::Xdp)];
    let err = record_attach_outcome(&mut entries, 0, true);
    assert!(err.is_none());
    assert_eq!(entries[0].state, EntryPointState::Attached);
    assert_eq!(entries[0].name, "xdp_main");
    assert_eq!(entries[0].kind, EntryPointKind::Xdp);
}

#[test]
fn untouched_entries_keep_their_state() {
    let mut entries = vec![
        entry("kp_a", EntryPointKind::Kprobe),
        entry("misc", EntryPointKind::Other),
        entry("kp_b", EntryPointKind::Kprobe),
    ];
    let worklist = vec![0, 2];
    let outcomes = vec![true, true];
    let report = record_attach_outcomes(&mut entries, &worklist, &outcomes);
    assert_eq!(report.attached, vec![0, 2]);
    assert!(report.failures.is_empty());
    assert_eq!(entries[1].state, EntryPointState::Loaded);
}

#[test]
fn load_failure_is_isolated_and_named() {
    let mut entries = vec![
        entry("a", EntryPointKind::Kprobe),
        entry("b", EntryPointKind::Xdp),
        entry("c", EntryPointKind::Other),
    ];
    let outcomes = vec![true, false, true];
    let failures = record_load_outcomes(&mut entries, &outcomes);
    assert_eq!(failures.len(), 1);
    match &failures[0] {
        PipelineError::Load { entry_name } => assert_eq!(entry_name, "b"),
        other => panic!("expected a load error, got {:?}", other),
    }
    assert_eq!(entries[0].state, EntryPointState::Loaded);
    assert_eq!(entries[1].state, EntryPointState::Failed);
    assert_eq!(entries[2].state, EntryPointState::Loaded);
}

#[test]
fn empty_worklist_attaches_nothing() {
    let mut entries = vec![entry("kp", EntryPointKind::Kprobe)];
    let report = record_attach_outcomes(&mut entries, &Vec::new(), &Vec::new());
    assert!(report.attached.is_empty());
    assert!(report.failures.is_empty());
    assert_eq!(entries[0].state, EntryPointState::Loaded);
}
