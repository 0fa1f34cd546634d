use veln::domain::vm::{NetworkBackend, Uuid, VirtualMachine, VmConfig, VmState};

#[test]
fn test_vm_state_transitions_valid() {
    // Undefined -> Stopped
    assert!(VmState::Undefined.can_transition_to(VmState::Stopped));

    // Stopped -> Starting
    assert!(VmState::Stopped.can_transition_to(VmState::Starting));
    // Stopped -> Undefined (destroy)
    assert!(VmState::Stopped.can_transition_to(VmState::Undefined));

    // Starting -> Running
    assert!(VmState::Starting.can_transition_to(VmState::Running));
    // Starting -> Failed
    assert!(VmState::Starting.can_transition_to(VmState::Failed));

    // Running -> Stopping
    assert!(VmState::Running.can_transition_to(VmState::Stopping));
    // Running -> Failed
    assert!(VmState::Running.can_transition_to(VmState::Failed));

    // Stopping -> Stopped
    assert!(VmState::Stopping.can_transition_to(VmState::Stopped));
    // Stopping -> Failed
    assert!(VmState::Stopping.can_transition_to(VmState::Failed));

    // Failed -> Stopped
    assert!(VmState::Failed.can_transition_to(VmState::Stopped));
}

#[test]
fn test_vm_state_transitions_invalid() {
    // Cannot go from Undefined to Running directly
    assert!(!VmState::Undefined.can_transition_to(VmState::Running));
    // Cannot go from Undefined to Starting
    assert!(!VmState::Undefined.can_transition_to(VmState::Starting));

    // Cannot go from Stopped to Stopped
    assert!(!VmState::Stopped.can_transition_to(VmState::Stopped));
    // Cannot go from Stopped to Running directly
    assert!(!VmState::Stopped.can_transition_to(VmState::Running));

    // Cannot go from Running to Starting
    assert!(!VmState::Running.can_transition_to(VmState::Starting));
    // Cannot go from Running to Undefined directly
    assert!(!VmState::Running.can_transition_to(VmState::Undefined));
}

#[test]
fn test_vm_transition_to_changes_state() {
    let mut vm = VirtualMachine::new("test".to_string());
    assert_eq!(vm.state, VmState::Undefined);

    vm.transition_to(VmState::Stopped).unwrap();
    assert_eq!(vm.state, VmState::Stopped);

    vm.transition_to(VmState::Starting).unwrap();
    assert_eq!(vm.state, VmState::Starting);

    vm.transition_to(VmState::Running).unwrap();
    assert_eq!(vm.state, VmState::Running);
}

#[test]
fn test_vm_transition_to_invalid_fails() {
    let mut vm = VirtualMachine::new("test".to_string());

    // Should fail: Undefined -> Running
    let result = vm.transition_to(VmState::Running);
    assert!(result.is_err());
    assert_eq!(vm.state, VmState::Undefined); // State should not change
}

#[test]
fn test_uuid_generation() {
    let uuid1 = Uuid::new_v4();
    let uuid2 = Uuid::new_v4();

    // UUIDs should be different
    assert_ne!(uuid1.0, uuid2.0);

    // Should be valid UUID format (36 characters with dashes)
    assert_eq!(uuid1.0.len(), 36);
    assert!(uuid1.0.contains('-'));

    // Should have version 4 indicator (4 at position 14)
    let parts: Vec<&str> = uuid1.0.split('-').collect();
    assert_eq!(parts.len(), 5);
    assert!(parts[2].starts_with('4'));
}

#[test]
fn test_vm_has_uuid() {
    let vm = VirtualMachine::new("test".to_string());

    // Should have a UUID
    assert_eq!(vm.uuid.0.len(), 36);

    // UUID should be unique for each VM
    let vm2 = VirtualMachine::new("test2".to_string());
    assert_ne!(vm.uuid.0, vm2.uuid.0);
}

#[test]
fn test_vm_config_default() {
    let config = VmConfig::default();

    assert_eq!(config.cpus, 2);
    assert_eq!(config.memory_mb, 1024);
    assert_eq!(config.disk_gb, 20);

    // Check default network backend
    match &config.network.backend {
        NetworkBackend::TapBridge { bridge } => {
            assert_eq!(bridge, "bridge0");
        }
        _ => panic!("Expected TapBridge backend by default"),
    }
    assert!(config.network.mac.is_none());
}

#[test]
fn test_vm_display_format() {
    assert_eq!(VmState::Undefined.to_string(), "undefined");
    assert_eq!(VmState::Stopped.to_string(), "stopped");
    assert_eq!(VmState::Starting.to_string(), "starting");
    assert_eq!(VmState::Running.to_string(), "running");
    assert_eq!(VmState::Stopping.to_string(), "stopping");
    assert_eq!(VmState::Failed.to_string(), "failed");
}
