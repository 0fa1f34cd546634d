use veln::domain::vm::{ConsoleType, NetworkBackend, Uuid, VirtualMachine, VmConfig, VmState};
use veln::error::VelnError;

#[test]
fn uuid_from_clock_zero_is_exact() {
    assert_eq!(Uuid::from_clock(0).0, "00152a3f-5469-4e93-a8bd-d2e7fc11263b");
}

#[test]
fn uuid_from_clock_reading_is_exact() {
    assert_eq!(
        Uuid::from_clock(1_700_000_000_123_456_789).0,
        "15d8af02-aaf5-4984-a8bd-d2e7fc11263b"
    );
}

#[test]
fn uuid_variant_digit_is_in_range() {
    let u = Uuid::new_v4();
    let c = u.0.chars().nth(19).unwrap();
    assert!(c == '8' || c == '9' || c == 'a' || c == 'b');
    assert_eq!(u.0.chars().nth(14), Some('4'));
}

#[test]
fn invalid_transition_names_both_states() {
    let mut vm = VirtualMachine::new("web".to_string());
    vm.transition_to(VmState::Stopped).unwrap();
    match vm.transition_to(VmState::Running) {
        Err(VelnError::InvalidStateTransition(from, to)) => {
            assert_eq!(from, "stopped");
            assert_eq!(to, "running");
        }
        other => panic!("unexpected {other:?}"),
    }
    assert_eq!(vm.state, VmState::Stopped);
}

#[test]
fn no_state_transitions_to_itself() {
    for s in [
        VmState::Undefined,
        VmState::Stopped,
        VmState::Starting,
        VmState::Running,
        VmState::Stopping,
        VmState::Failed,
    ] {
        assert!(!s.can_transition_to(s));
    }
}

#[test]
fn full_lifecycle_is_allowed() {
    let mut vm = VirtualMachine::new("life".to_string());
    for s in [
        VmState::Stopped,
        VmState::Starting,
        VmState::Running,
        VmState::Stopping,
        VmState::Stopped,
        VmState::Undefined,
    ] {
        vm.transition_to(s).unwrap();
    }
    assert_eq!(vm.state, VmState::Undefined);
}

#[test]
fn failed_vm_recovers_only_by_stopping() {
    let mut vm = VirtualMachine::new("f".to_string());
    vm.transition_to(VmState::Stopped).unwrap();
    vm.transition_to(VmState::Starting).unwrap();
    vm.transition_to(VmState::Failed).unwrap();
    assert!(vm.transition_to(VmState::Running).is_err());
    assert!(vm.transition_to(VmState::Starting).is_err());
    vm.transition_to(VmState::Stopped).unwrap();
}

#[test]
fn defined_vm_is_stopped_with_given_hardware() {
    let vm = VirtualMachine::defined("db".to_string(), 4, 4096, 100);
    assert_eq!(vm.name, "db");
    assert_eq!(vm.state, VmState::Stopped);
    assert_eq!(vm.config.cpus, 4);
    assert_eq!(vm.config.memory_mb, 4096);
    assert_eq!(vm.config.disk_gb, 100);
    assert_eq!(vm.config.console, ConsoleType::Tty);
    assert_eq!(vm.uuid.0.len(), 36);
}

#[test]
fn with_uuid_keeps_identity() {
    let vm = VirtualMachine::with_uuid(
        Uuid("550e8400-e29b-41d4-a716-446655440000".to_string()),
        "x".to_string(),
        VmConfig::default(),
    );
    assert_eq!(vm.uuid.0, "550e8400-e29b-41d4-a716-446655440000");
    assert_eq!(vm.state, VmState::Undefined);
    match vm.config.network.backend {
        NetworkBackend::TapBridge { bridge } => assert_eq!(bridge, "bridge0"),
        NetworkBackend::Vale { .. } => panic!("expected tap"),
    }
}

#[test]
fn nearby_clock_readings_give_different_uuids() {
    let base: u128 = 1_700_000_000_123_456_789;
    let uuids: Vec<String> = (0..64).map(|d| Uuid::from_clock(base + d * 37).0).collect();
    for i in 0..uuids.len() {
        for j in i + 1..uuids.len() {
            assert_ne!(uuids[i], uuids[j]);
        }
    }
}

#[test]
fn new_uuids_are_lower_hex_outside_the_dashes() {
    let u = Uuid::new_v4().0;
    assert_eq!(u.len(), 36);
    for (i, c) in u.chars().enumerate() {
        if [8, 13, 18, 23].contains(&i) {
            assert_eq!(c, '-');
        } else {
            assert!(c.is_ascii_hexdigit() && !c.is_ascii_uppercase(), "{u}");
        }
    }
    assert_eq!(u.split('-').count(), 5);
}
