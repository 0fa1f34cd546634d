use veln::domain::resources::{HostResources, ResourceMonitor};
use veln::error::VelnError;

fn host() -> HostResources {
    ResourceMonitor::get_resources(16384, 2048, 4, 100, 50)
}

fn message(r: Result<(), VelnError>) -> String {
    match r {
        Err(VelnError::InsufficientResources(m)) => m,
        other => panic!("unexpected {other:?}"),
    }
}

#[test]
fn resources_count_all_cores_available() {
    let h = host();
    assert_eq!(h.available_cores, 4);
    assert_eq!(h.cpu_cores, 4);
    assert_eq!(h.total_disk_gb, 100);
}

#[test]
fn fitting_vm_is_accepted() {
    assert!(ResourceMonitor::can_create_vm(&host(), 1024, 20, 2).is_ok());
    assert!(ResourceMonitor::can_create_vm(&host(), 1536, 40, 3).is_ok());
}

#[test]
fn memory_shortfall() {
    assert_eq!(
        message(ResourceMonitor::can_create_vm(&host(), 1600, 20, 2)),
        "Insufficient memory: required 1600MB, available 1536MB (keeping 512MB for host)"
    );
    let small = ResourceMonitor::get_resources(2048, 1024, 4, 100, 50);
    assert_eq!(
        message(ResourceMonitor::can_create_vm(&small, 1024, 20, 2)),
        "Insufficient memory: required 1024MB, available 512MB (keeping 512MB for host)"
    );
    let tiny = ResourceMonitor::get_resources(2048, 100, 4, 100, 50);
    assert_eq!(
        message(ResourceMonitor::can_create_vm(&tiny, 1, 20, 2)),
        "Insufficient memory: required 1MB, available 0MB (keeping 512MB for host)"
    );
}

#[test]
fn disk_shortfall() {
    assert_eq!(
        message(ResourceMonitor::can_create_vm(&host(), 1024, 41, 2)),
        "Insufficient disk space: required 41GB, available 40GB (keeping 10GB buffer)"
    );
}

#[test]
fn core_shortfall() {
    assert_eq!(
        message(ResourceMonitor::can_create_vm(&host(), 1024, 20, 4)),
        "Insufficient CPU cores: required 4, available 3 (keeping 1 for host)"
    );
}

#[test]
fn sysctl_parsing() {
    assert_eq!(ResourceMonitor::parse_total_memory("17179869184\n").unwrap(), 16384);
    match ResourceMonitor::parse_total_memory("abc") {
        Err(VelnError::HostRequirements(m)) => {
            assert_eq!(m, "Invalid memory value: invalid digit found in string")
        }
        other => panic!("unexpected {other:?}"),
    }
    match ResourceMonitor::parse_page_size("") {
        Err(VelnError::HostRequirements(m)) => {
            assert_eq!(m, "Invalid page size: cannot parse integer from empty string")
        }
        other => panic!("unexpected {other:?}"),
    }
    assert_eq!(ResourceMonitor::parse_free_pages(" 1000 ").unwrap(), 1000);
    assert_eq!(ResourceMonitor::available_memory_mb(262144, 4096), 1024);
    assert_eq!(ResourceMonitor::parse_cpu_cores("8\n").unwrap(), 8);
}

#[test]
fn df_parsing() {
    let df = "Filesystem 1024-blocks Used Avail Capacity Mounted on\nzroot/ROOT/default 104857600 1048576 52428800 2% /\n";
    assert_eq!(ResourceMonitor::parse_disk_space(df).unwrap(), (100, 50));
    match ResourceMonitor::parse_disk_space("header only\n") {
        Err(VelnError::HostRequirements(m)) => assert_eq!(m, "Could not parse disk information"),
        other => panic!("unexpected {other:?}"),
    }
    match ResourceMonitor::parse_disk_space("h\na b c\n") {
        Err(VelnError::HostRequirements(m)) => assert_eq!(m, "Invalid disk information format"),
        other => panic!("unexpected {other:?}"),
    }
    match ResourceMonitor::parse_disk_space("h\nfs x 1 2\n") {
        Err(VelnError::HostRequirements(m)) => {
            assert_eq!(m, "Invalid total disk value: invalid digit found in string")
        }
        other => panic!("unexpected {other:?}"),
    }
}
