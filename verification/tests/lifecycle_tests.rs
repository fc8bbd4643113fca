use container_core::capability::CapabilityAllowList;
use container_core::channel::{PHASE2_ABORT, PHASE2_PROCEED, phase2_proceeds, phase2_signal_byte};
use container_core::entrypoint::ContainerEntrypoint;
use container_core::errors::{LaunchError, MapError, classify_launch_errno};
use container_core::launch::{ContainerSpec, HostLauncher, STACK_SIZE, allocate_stack};
use container_core::lifecycle::{
    LaunchEvent, LifecycleState, LifecycleTracker, Stage, failure_exit_code,
};
use container_core::mapping::{IdentityMapping, MapEntry};
use container_core::namespace::NamespaceFlagSet;

fn entry(ns_start: u64, host_start: u64, length: u64) -> MapEntry {
    MapEntry { ns_start, host_start, length }
}

fn scenario_spec() -> ContainerSpec {
    ContainerSpec {
        command: "/bin/sh".to_string(),
        args: vec!["/bin/sh".to_string()],
        namespaces: NamespaceFlagSet {
            mount: true,
            pid: true,
            uts: false,
            user: true,
            ipc: false,
            network: false,
            cgroup: false,
        },
        allow_list: CapabilityAllowList::new(vec![
            "CAP_SETUID".to_string(),
            "CAP_SETGID".to_string(),
        ]),
        mapping: IdentityMapping {
            uid_entries: vec![entry(0, 1000, 1)],
            gid_entries: vec![entry(0, 1000, 1)],
        },
    }
}

#[test]
fn host_drives_mapping_phase_exactly_once_before_capability_drop() {
    let mut host = HostLauncher::begin(scenario_spec()).expect("spec is valid");
    assert_eq!(host.tracker.current(), LifecycleState::Created);

    let pid = host.note_clone(Ok(4242)).expect("creation succeeded");
    assert_eq!(pid, 4242);
    assert_eq!(host.tracker.current(), LifecycleState::NamespaceEntered);

    host.note_child_parked();
    assert_eq!(host.tracker.current(), LifecycleState::WaitingForIdentityMap);

    let plan = host.apply_identity_map(4242).expect("mapping is valid");
    assert_eq!(plan.len(), 3);
    assert_eq!(plan[0].path, "/proc/4242/setgroups");
    assert_eq!(plan[0].contents, "deny");
    assert_eq!(plan[1].path, "/proc/4242/gid_map");
    assert_eq!(plan[1].contents, "0 1000 1");
    assert_eq!(plan[2].path, "/proc/4242/uid_map");
    assert_eq!(plan[2].contents, "0 1000 1");
    assert_eq!(host.tracker.current(), LifecycleState::IdentityMapped);

    let handle = host.into_handle(4242, allocate_stack());
    assert_eq!(handle.pid, 4242);
    assert_eq!(handle.state, LifecycleState::IdentityMapped);
    assert_eq!(handle.stack.len(), STACK_SIZE);
}

#[test]
fn full_trace_reaches_exec_with_mapping_before_drop() {
    // The whole-core scenario: {user, pid, mount} namespaces, allow-list
    // {CAP_SETUID, CAP_SETGID}, single root mapping; terminal state Execed.
    let mut tracker = LifecycleTracker::new(true);
    tracker.advance(LaunchEvent::NamespacesEntered);
    tracker.advance(LaunchEvent::ChildParked);
    assert_eq!(tracker.current(), LifecycleState::WaitingForIdentityMap);
    tracker.advance(LaunchEvent::MapApplied);
    assert_eq!(tracker.current(), LifecycleState::IdentityMapped);
    tracker.advance(LaunchEvent::CapsApplied);
    assert_eq!(tracker.current(), LifecycleState::CapabilitiesDropped);
    tracker.advance(LaunchEvent::ImageReplaced);
    assert_eq!(tracker.current(), LifecycleState::Execed);
}

#[test]
fn invalid_spec_is_refused_before_any_launch_work() {
    let mut spec = scenario_spec();
    spec.mapping.uid_entries = vec![entry(0, 1000, 1), entry(0, 2000, 1)];
    let outcome = HostLauncher::begin(spec);
    assert!(matches!(outcome, Err(LaunchError::UnsupportedConfiguration)));
}

#[test]
fn overlapping_mapping_fails_the_launch_with_no_planned_write() {
    let mut spec = scenario_spec();
    spec.mapping.gid_entries = vec![entry(0, 1000, 1), entry(0, 2000, 1)];
    // The spec-level validation refuses this launch outright; a writer fed
    // the same table refuses it again at apply time, planning nothing.
    assert!(!spec.check());
    let mut host = HostLauncher::begin(scenario_spec()).expect("valid spec");
    host.config.mapping.gid_entries = vec![entry(0, 1000, 1), entry(0, 2000, 1)];
    host.note_clone(Ok(9)).expect("created");
    host.note_child_parked();
    let outcome = host.apply_identity_map(9);
    assert!(matches!(outcome, Err(MapError::InvalidMapping)));
    assert_eq!(
        host.tracker.current(),
        LifecycleState::Failed(Stage::WaitingForIdentityMap)
    );
}

#[test]
fn clone_failure_is_classified_and_ends_the_launch() {
    let mut host = HostLauncher::begin(scenario_spec()).expect("valid spec");
    let outcome = host.note_clone(Err(1));
    assert!(matches!(outcome, Err(LaunchError::PermissionDenied)));
    assert_eq!(host.tracker.current(), LifecycleState::Failed(Stage::Created));
}

#[test]
fn errno_classification_matches_the_taxonomy() {
    assert_eq!(classify_launch_errno(1), LaunchError::PermissionDenied);
    assert_eq!(classify_launch_errno(13), LaunchError::PermissionDenied);
    assert_eq!(classify_launch_errno(11), LaunchError::ResourceExhausted);
    assert_eq!(classify_launch_errno(12), LaunchError::ResourceExhausted);
    assert_eq!(classify_launch_errno(28), LaunchError::ResourceExhausted);
    assert_eq!(classify_launch_errno(22), LaunchError::UnsupportedConfiguration);
    assert_eq!(classify_launch_errno(0), LaunchError::UnsupportedConfiguration);
}

#[test]
fn child_unblocks_only_on_the_proceed_byte() {
    let allow = CapabilityAllowList::new(vec!["CAP_SETUID".to_string()]);
    let mut child = ContainerEntrypoint::new(allow, true);
    child.note_entered();
    child.park();
    assert_eq!(child.tracker.current(), LifecycleState::WaitingForIdentityMap);
    let proceed = child.unblock(phase2_signal_byte(true));
    assert!(proceed);
    assert_eq!(child.tracker.current(), LifecycleState::IdentityMapped);
}

#[test]
fn host_failure_signal_unparks_the_child_into_a_failed_state() {
    // Liveness half on the child's side: a failure indication at the
    // second phase leaves the child at Failed(WaitingForIdentityMap),
    // terminating, never execing.
    let allow = CapabilityAllowList::new(vec!["CAP_SETUID".to_string()]);
    let mut child = ContainerEntrypoint::new(allow, true);
    child.note_entered();
    child.park();
    let proceed = child.unblock(phase2_signal_byte(false));
    assert!(!proceed);
    assert_eq!(
        child.tracker.current(),
        LifecycleState::Failed(Stage::WaitingForIdentityMap)
    );
    assert_eq!(child.abort_exit_code(), 2);
}

#[test]
fn exec_failure_terminates_with_the_reserved_code() {
    let mut child = ContainerEntrypoint::new(CapabilityAllowList::new(vec![]), false);
    child.note_entered();
    child.park();
    let proceed = child.unblock(phase2_signal_byte(true));
    assert!(proceed);
    child.tracker.advance(LaunchEvent::CapsApplied);
    assert_eq!(child.tracker.current(), LifecycleState::CapabilitiesDropped);
    let code = child.note_exec_failed();
    assert_eq!(code, 4);
    assert_eq!(child.abort_exit_code(), 4);
}

#[test]
fn phase_bytes_round_trip() {
    assert_eq!(phase2_signal_byte(true), PHASE2_PROCEED);
    assert_eq!(phase2_signal_byte(false), PHASE2_ABORT);
    assert!(phase2_proceeds(PHASE2_PROCEED));
    assert!(!phase2_proceeds(PHASE2_ABORT));
    assert!(!phase2_proceeds(7));
}

#[test]
fn exit_codes_are_nonzero_and_distinguish_stages() {
    assert_eq!(failure_exit_code(Stage::Created), 1);
    assert_eq!(failure_exit_code(Stage::NamespaceEntered), 1);
    assert_eq!(failure_exit_code(Stage::WaitingForIdentityMap), 2);
    assert_eq!(failure_exit_code(Stage::IdentityMapped), 3);
    assert_eq!(failure_exit_code(Stage::CapabilitiesDropped), 4);
}

#[test]
fn namespace_flag_word_matches_the_kernel_constants() {
    assert_eq!(NamespaceFlagSet::none().compose_flag_bits(), 0);
    assert_eq!(NamespaceFlagSet::all().compose_flag_bits(), 0x7e02_0000);
    let user_only = NamespaceFlagSet {
        mount: false,
        pid: false,
        uts: false,
        user: true,
        ipc: false,
        network: false,
        cgroup: false,
    };
    assert_eq!(user_only.compose_flag_bits(), 0x1000_0000);
    let mount_and_pid = NamespaceFlagSet {
        mount: true,
        pid: true,
        uts: false,
        user: false,
        ipc: false,
        network: false,
        cgroup: false,
    };
    assert_eq!(mount_and_pid.compose_flag_bits(), 0x2002_0000);
}

#[test]
fn mapping_phase_is_skipped_without_a_user_namespace() {
    let mut spec = scenario_spec();
    spec.namespaces = NamespaceFlagSet {
        mount: true,
        pid: true,
        uts: false,
        user: false,
        ipc: false,
        network: false,
        cgroup: false,
    };
    let mut host = HostLauncher::begin(spec).expect("valid spec");
    host.note_clone(Ok(31)).expect("created");
    host.note_child_parked();
    let plan = host.apply_identity_map(31).expect("no mapping owed");
    assert!(plan.is_empty());
    assert_eq!(host.tracker.current(), LifecycleState::IdentityMapped);
}
