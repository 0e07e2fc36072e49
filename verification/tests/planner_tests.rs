use cargo_bpf::image::{EntryPoint, EntryPointKind, EntryPointState, MapKind, PERF_EVENT_ARRAY_KIND};
use cargo_bpf::planner::plan_attachments;

fn entry(name: &str, kind: EntryPointKind) -> EntryPoint {
    EntryPoint { name: name.to_string(), kind, state: EntryPointState::Loaded }
}

#[test]
fn other_kind_never_planned() {
    let entries = vec![
        entry("xdp_a", EntryPointKind::Xdp),
        entry("misc", EntryPointKind::Other),
        entry("kp_a", EntryPointKind::Kprobe),
        entry("misc2", EntryPointKind::Other),
    ];
    let plan = plan_attachments(&entries, &Some("eth0".to_string()));
    assert!(!plan.xdp.contains(&1) && !plan.xdp.contains(&3));
    assert!(!plan.probes.contains(&1) && !plan.probes.contains(&3));
    assert_eq!(plan.xdp, vec![0]);
    assert_eq!(plan.probes, vec![2]);
}

#[test]
fn no_interface_means_empty_xdp_worklist() {
    let entries = vec![
        entry("xdp_a", EntryPointKind::Xdp),
        entry("xdp_b", EntryPointKind::Xdp),
        entry("kret", EntryPointKind::Kretprobe),
    ];
    let plan = plan_attachments(&entries, &None);
    assert!(plan.xdp.is_empty());
    assert_eq!(plan.probes, vec![2]);
}

#[test]
fn interface_selects_only_xdp() {
    let entries = vec![
        entry("kp", EntryPointKind::Kprobe),
        entry("xdp", EntryPointKind::Xdp),
        entry("kret", EntryPointKind::Kretprobe),
    ];
    let plan = plan_attachments(&entries, &Some("lo".to_string()));
    assert_eq!(plan.xdp, vec![1]);
    assert_eq!(plan.probes, vec![0, 2]);
}

#[test]
fn failed_entries_are_not_planned() {
    let mut failed = entry("xdp_bad", EntryPointKind::Xdp);
    failed.state = EntryPointState::Failed;
    let entries = vec![failed, entry("xdp_ok", EntryPointKind::Xdp)];
    let plan = plan_attachments(&entries, &Some("eth0".to_string()));
    assert_eq!(plan.xdp, vec![1]);
}

#[test]
fn empty_image_plans_nothing() {
    let entries: Vec<EntryPoint> = Vec::new();
    let plan = plan_attachments(&entries, &Some("eth0".to_string()));
    assert!(plan.xdp.is_empty());
    assert!(plan.probes.is_empty());
}

#[test]
fn output_map_discriminator() {
    assert_eq!(MapKind::from_discriminator(PERF_EVENT_ARRAY_KIND), MapKind::Output);
    assert_eq!(MapKind::from_discriminator(0), MapKind::Opaque);
    assert_eq!(MapKind::from_discriminator(3), MapKind::Opaque);
    assert_eq!(MapKind::from_discriminator(5), MapKind::Opaque);
}
