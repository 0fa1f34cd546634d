//! Host resources and the rule that keeps VM creation from exhausting them.
use crate::error::VelnError;
use crate::text::{
    dec, int_error_message, int_error_text, lines, parse_uint, parse_unsigned, push_dec, text_lines,
    text_trim, text_words, trim, views, words, IntErrorKind,
};
use vstd::prelude::*;

verus! {

/// Host resource information.
#[derive(Debug, Clone)]
pub struct HostResources {
    /// Total system memory in MB
    pub total_memory_mb: u64,
    /// Available memory in MB
    pub available_memory_mb: u64,
    /// Number of CPU cores
    pub cpu_cores: usize,
    /// Available CPU cores (not in use by other VMs)
    pub available_cores: usize,
    /// Total disk space in GB (ZFS pool)
    pub total_disk_gb: u64,
    /// Available disk space in GB
    pub available_disk_gb: u64,
}

/// Resource monitor for host system: prevents VM creation from exhausting
/// resources.
pub struct ResourceMonitor;

/// Subtraction that stops at zero.
pub open spec fn sat_sub(a: int, b: int) -> int {
    if a >= b {
        a - b
    } else {
        0
    }
}

/// Memory kept for the host, in MB.
pub open spec fn host_memory_reserve() -> int {
    512
}

/// Cores kept for the host.
pub open spec fn host_core_reserve() -> int {
    1
}

/// Disk kept free for ZFS overhead: a tenth of the total, in GB.
pub open spec fn disk_buffer(r: HostResources) -> int {
    (r.total_disk_gb * 10) / 100
}

/// Memory that VMs may use, in MB.
pub open spec fn usable_memory(r: HostResources) -> int {
    sat_sub(r.available_memory_mb as int, host_memory_reserve())
}

/// Disk that VMs may use, in GB.
pub open spec fn usable_disk(r: HostResources) -> int {
    sat_sub(r.available_disk_gb as int, disk_buffer(r))
}

/// Cores that VMs may use.
pub open spec fn usable_cores(r: HostResources) -> int {
    sat_sub(r.available_cores as int, host_core_reserve())
}

/// Why a VM does not fit on the host, checking memory, then disk, then
/// cores; `None` when it fits.
pub open spec fn capacity_shortfall(
    r: HostResources,
    memory_mb: u64,
    disk_gb: u64,
    cores: u8,
) -> Option<Seq<char>> {
    if memory_mb > usable_memory(r) {
        Some(
            "Insufficient memory: required "@ + dec(memory_mb as nat) + "MB, available "@ + dec(
                usable_memory(r) as nat,
            ) + "MB (keeping 512MB for host)"@,
        )
    } else if disk_gb > usable_disk(r) {
        Some(
            "Insufficient disk space: required "@ + dec(disk_gb as nat) + "GB, available "@ + dec(
                usable_disk(r) as nat,
            ) + "GB (keeping "@ + dec(disk_buffer(r) as nat) + "GB buffer)"@,
        )
    } else if cores > usable_cores(r) {
        Some(
            "Insufficient CPU cores: required "@ + dec(cores as nat) + ", available "@ + dec(
                usable_cores(r) as nat,
            ) + " (keeping 1 for host)"@,
        )
    } else {
        None
    }
}

/// A sysctl value or a `df` field read as a number: the number, or the
/// message `<label>: <parse error>`.
pub open spec fn read_number(text: Seq<char>, max: nat, label: Seq<char>) -> Result<
    nat,
    Seq<char>,
> {
    match parse_uint(text, max) {
        Ok(v) => Ok(v),
        Err(k) => Err(label + ": "@ + int_error_message(k)),
    }
}

/// The disk figures of `df -k /` output: the second line's second and fourth
/// fields (total and available KB) in GB; or why they cannot be read.
pub open spec fn disk_space(df: Seq<char>) -> Result<(nat, nat), Seq<char>> {
    let ls = lines(df);
    if ls.len() < 2 {
        Err("Could not parse disk information"@)
    } else {
        let parts = words(ls[1]);
        if parts.len() < 4 {
            Err("Invalid disk information format"@)
        } else {
            match read_number(parts[1], u64::MAX as nat, "Invalid total disk value"@) {
                Err(m) => Err(m),
                Ok(total) => match read_number(
                    parts[3],
                    u64::MAX as nat,
                    "Invalid available disk value"@,
                ) {
                    Err(m) => Err(m),
                    Ok(avail) => Ok((total / 1024 / 1024, avail / 1024 / 1024)),
                },
            }
        }
    }
}

fn message_with_error(label: &str, k: IntErrorKind) -> (r: String)
    ensures
        r@ == label@ + ": "@ + int_error_message(k),
{
    let mut s = label.to_owned();
    s.append(": ");
    let e = int_error_text(k);
    s.append(e.as_str());
    s
}

/// Reads a number of at most `max` from text, naming it by `label` in the
/// error message.
fn read_number_exec(text: &str, max: u64, label: &str) -> (r: Result<u64, VelnError>)
    ensures
        r matches Ok(x) ==> x <= max,
        match read_number(text@, max as nat, label@) {
            Ok(v) => r matches Ok(x) && x == v,
            Err(m) => r matches Err(VelnError::HostRequirements(e)) && e@ == m,
        },
{
    match parse_unsigned(text, max) {
        Ok(v) => Ok(v),
        Err(k) => Err(VelnError::HostRequirements(message_with_error(label, k))),
    }
}

impl ResourceMonitor {
    /// The host resources from the figures read from the system; all cores
    /// count as available (running VMs are not subtracted).
    pub fn get_resources(
        total_memory_mb: u64,
        available_memory_mb: u64,
        cpu_cores: usize,
        total_disk_gb: u64,
        available_disk_gb: u64,
    ) -> (r: HostResources)
        ensures
            r == (HostResources {
                total_memory_mb,
                available_memory_mb,
                cpu_cores,
                available_cores: cpu_cores,
                total_disk_gb,
                available_disk_gb,
            }),
    {
        // Calculate available cores (simplified - in production would check running VMs)
        let available_cores = cpu_cores;
        HostResources {
            total_memory_mb,
            available_memory_mb,
            cpu_cores,
            available_cores,
            total_disk_gb,
            available_disk_gb,
        }
    }

    /// Check if a VM with the given requirements fits on the host, keeping
    /// 512 MB of memory, a tenth of the disk and one core for the host.
    /// Fails with `VelnError::InsufficientResources` saying what is short.
    pub fn can_create_vm(
        resources: &HostResources,
        required_memory_mb: u64,
        required_disk_gb: u64,
        required_cores: u8,
    ) -> (r: Result<(), VelnError>)
        requires
            resources.total_disk_gb * 10 <= u64::MAX,
        ensures
            match capacity_shortfall(
                *resources,
                required_memory_mb,
                required_disk_gb,
                required_cores,
            ) {
                None => r is Ok,
                Some(m) => r matches Err(VelnError::InsufficientResources(e)) && e@ == m,
            },
    {
        // Reserve 512MB for host OS
        let min_host_memory_mb: u64 = 512;
        let usable_memory = resources.available_memory_mb.saturating_sub(min_host_memory_mb);
        if required_memory_mb > usable_memory {
            let mut m = "Insufficient memory: required ".to_owned();
            push_dec(&mut m, required_memory_mb);
            m.append("MB, available ");
            push_dec(&mut m, usable_memory);
            m.append("MB (keeping 512MB for host)");
            return Err(VelnError::InsufficientResources(m));
        }
        // Reserve 10% of disk for ZFS overhead

        let min_disk_buffer_gb: u64 = (resources.total_disk_gb * 10) / 100;
        let usable_disk = resources.available_disk_gb.saturating_sub(min_disk_buffer_gb);
        if required_disk_gb > usable_disk {
            let mut m = "Insufficient disk space: required ".to_owned();
            push_dec(&mut m, required_disk_gb);
            m.append("GB, available ");
            push_dec(&mut m, usable_disk);
            m.append("GB (keeping ");
            push_dec(&mut m, min_disk_buffer_gb);
            m.append("GB buffer)");
            return Err(VelnError::InsufficientResources(m));
        }
        // Reserve 1 core for host

        let min_host_cores: usize = 1;
        let usable_cores = resources.available_cores.saturating_sub(min_host_cores);
        if (required_cores as usize) > usable_cores {
            let mut m = "Insufficient CPU cores: required ".to_owned();
            push_dec(&mut m, required_cores as u64);
            m.append(", available ");
            push_dec(&mut m, usable_cores as u64);
            m.append(" (keeping 1 for host)");
            return Err(VelnError::InsufficientResources(m));
        }
        Ok(())
    }

    /// Total memory in MB from the output of `sysctl -n hw.physmem` (bytes).
    pub fn parse_total_memory(out: &str) -> (r: Result<u64, VelnError>)
        ensures
            match read_number(trim(out@), u64::MAX as nat, "Invalid memory value"@) {
                Ok(v) => r matches Ok(x) && x == v / 1024 / 1024,
                Err(m) => r matches Err(VelnError::HostRequirements(e)) && e@ == m,
            },
    {
        let t = text_trim(out);
        let bytes = read_number_exec(t.as_str(), u64::MAX, "Invalid memory value")?;
        Ok(bytes / 1024 / 1024)
    }

    /// Free page count from the output of `sysctl -n vm.stats.vm.v_free_count`.
    pub fn parse_free_pages(out: &str) -> (r: Result<u64, VelnError>)
        ensures
            match read_number(trim(out@), u64::MAX as nat, "Invalid free memory value"@) {
                Ok(v) => r matches Ok(x) && x == v,
                Err(m) => r matches Err(VelnError::HostRequirements(e)) && e@ == m,
            },
    {
        let t = text_trim(out);
        read_number_exec(t.as_str(), u64::MAX, "Invalid free memory value")
    }

    /// Page size from the output of `sysctl -n hw.pagesize`.
    pub fn parse_page_size(out: &str) -> (r: Result<u64, VelnError>)
        ensures
            match read_number(trim(out@), u64::MAX as nat, "Invalid page size"@) {
                Ok(v) => r matches Ok(x) && x == v,
                Err(m) => r matches Err(VelnError::HostRequirements(e)) && e@ == m,
            },
    {
        let t = text_trim(out);
        read_number_exec(t.as_str(), u64::MAX, "Invalid page size")
    }

    /// Available memory in MB: free pages times the page size.
    pub fn available_memory_mb(free_pages: u64, page_size: u64) -> (r: u64)
        requires
            free_pages * page_size <= u64::MAX,
        ensures
            r == (free_pages * page_size) / 1024 / 1024,
    {
        (free_pages * page_size) / 1024 / 1024
    }

    /// The number of CPU cores from the output of `sysctl -n hw.ncpu`.
    pub fn parse_cpu_cores(out: &str) -> (r: Result<usize, VelnError>)
        ensures
            match read_number(trim(out@), usize::MAX as nat, "Invalid CPU count"@) {
                Ok(v) => r matches Ok(x) && x == v,
                Err(m) => r matches Err(VelnError::HostRequirements(e)) && e@ == m,
            },
    {
        let t = text_trim(out);
        let v = read_number_exec(t.as_str(), usize::MAX as u64, "Invalid CPU count")?;
        Ok(v as usize)
    }

    /// Total and available disk in GB from the output of `df -k /`.
    pub fn parse_disk_space(df: &str) -> (r: Result<(u64, u64), VelnError>)
        ensures
            match disk_space(df@) {
                Ok((t, a)) => r matches Ok((x, y)) && x == t && y == a,
                Err(m) => r matches Err(VelnError::HostRequirements(e)) && e@ == m,
            },
    {
        let ls = text_lines(df);
        if ls.len() < 2 {
            return Err(VelnError::HostRequirements("Could not parse disk information".to_owned()));
        }
        assert(views(ls@)[1] == ls@[1]@);
        // Parse the second line (first is header)
        let parts = text_words(ls[1].as_str());
        if parts.len() < 4 {
            return Err(VelnError::HostRequirements("Invalid disk information format".to_owned()));
        }
        assert(views(parts@)[1] == parts@[1]@);
        assert(views(parts@)[3] == parts@[3]@);
        let total_kb = read_number_exec(parts[1].as_str(), u64::MAX, "Invalid total disk value")?;
        let available_kb = read_number_exec(
            parts[3].as_str(),
            u64::MAX,
            "Invalid available disk value",
        )?;
        Ok((total_kb / 1024 / 1024, available_kb / 1024 / 1024))
    }
}

// ---------------------------------------------------------------------------
// Laws
// ---------------------------------------------------------------------------
/// A VM that is accepted leaves the host its reserve: 512 MB of memory, a
/// tenth of the disk and one core, for each resource the VM asks any of.
pub proof fn lemma_host_reserve_kept(r: HostResources, memory_mb: u64, disk_gb: u64, cores: u8)
    requires
        capacity_shortfall(r, memory_mb, disk_gb, cores) is None,
    ensures
        memory_mb > 0 ==> memory_mb + host_memory_reserve() <= r.available_memory_mb,
        disk_gb > 0 ==> disk_gb + disk_buffer(r) <= r.available_disk_gb,
        cores > 0 ==> cores + host_core_reserve() <= r.available_cores,
{
}

/// A VM that fits within what is left after the reserves is accepted.
pub proof fn lemma_fitting_vm_accepted(r: HostResources, memory_mb: u64, disk_gb: u64, cores: u8)
    requires
        memory_mb + host_memory_reserve() <= r.available_memory_mb,
        disk_gb + disk_buffer(r) <= r.available_disk_gb,
        cores + host_core_reserve() <= r.available_cores,
    ensures
        capacity_shortfall(r, memory_mb, disk_gb, cores) is None,
{
}

/// Asking for less never turns an accepted VM into a refused one.
pub proof fn lemma_capacity_monotone(
    r: HostResources,
    memory_mb: u64,
    disk_gb: u64,
    cores: u8,
    less_memory_mb: u64,
    less_disk_gb: u64,
    less_cores: u8,
)
    requires
        capacity_shortfall(r, memory_mb, disk_gb, cores) is None,
        less_memory_mb <= memory_mb,
        less_disk_gb <= disk_gb,
        less_cores <= cores,
    ensures
        capacity_shortfall(r, less_memory_mb, less_disk_gb, less_cores) is None,
{
}

} // verus!
