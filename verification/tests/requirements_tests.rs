use veln::command::Outcome;
use veln::domain::requirements::{BhyveRequirements, Check, Probe, RequirementsStep};
use veln::error::VelnError;

fn ran(success: bool, stdout: &str) -> Outcome {
    Outcome::Ran { success, stdout: stdout.to_string(), stderr: String::new() }
}

/// Runs the checks, answering each probe with `answer`, and records the probes.
fn run(answer: impl Fn(&Check) -> Outcome) -> (Result<(), VelnError>, Vec<Check>) {
    let mut c = BhyveRequirements::first_check();
    let mut seen = Vec::new();
    loop {
        seen.push(c);
        let _probe: Probe = BhyveRequirements::probe(c);
        match BhyveRequirements::after(c, &answer(&c)) {
            RequirementsStep::Next(n) => c = n,
            RequirementsStep::Done(r) => return (r, seen),
        }
    }
}

fn healthy(c: &Check) -> Outcome {
    match c {
        Check::CpuVmx | Check::VmmInit => ran(true, "1\n"),
        Check::CpuSvm => ran(true, "0\n"),
        Check::Module(_) | Check::TunDevice => ran(true, ""),
    }
}

#[test]
fn healthy_intel_host_passes_without_asking_amd() {
    let (r, seen) = run(healthy);
    assert!(r.is_ok());
    assert_eq!(
        seen,
        vec![Check::CpuVmx, Check::Module(0), Check::Module(1), Check::Module(2), Check::VmmInit, Check::TunDevice]
    );
}

#[test]
fn amd_host_passes() {
    let (r, seen) = run(|c| match c {
        Check::CpuVmx => ran(true, "0"),
        Check::CpuSvm => ran(true, " 1 "),
        other => healthy(other),
    });
    assert!(r.is_ok());
    assert_eq!(seen[1], Check::CpuSvm);
}

#[test]
fn no_virtualization_fails() {
    let (r, _) = run(|c| match c {
        Check::CpuVmx | Check::CpuSvm => ran(true, "0"),
        other => healthy(other),
    });
    match r {
        Err(VelnError::HostRequirements(m)) => {
            assert_eq!(m, "CPU does not support virtualization (VT-x or AMD-V)")
        }
        other => panic!("unexpected {other:?}"),
    }
}

#[test]
fn missing_module_fails_with_hint() {
    let (r, _) = run(|c| match c {
        Check::Module(1) => ran(false, ""),
        other => healthy(other),
    });
    match r {
        Err(VelnError::HostRequirements(m)) => {
            assert_eq!(m, "Required kernel module 'if_tuntap' is not loaded. Run: kldload if_tuntap")
        }
        other => panic!("unexpected {other:?}"),
    }
}

#[test]
fn spawn_failure_and_missing_tun() {
    let (r, _) = run(|c| match c {
        Check::CpuVmx => Outcome::SpawnFailed("No such file or directory (os error 2)".to_string()),
        other => healthy(other),
    });
    match r {
        Err(VelnError::HostRequirements(m)) => {
            assert_eq!(m, "Failed to check CPU support: No such file or directory (os error 2)")
        }
        other => panic!("unexpected {other:?}"),
    }
    let (r, _) = run(|c| match c {
        Check::TunDevice => ran(false, ""),
        other => healthy(other),
    });
    match r {
        Err(VelnError::HostRequirements(m)) => {
            assert_eq!(m, "TUN/TAP device not found. Ensure 'if_tuntap' module is loaded.")
        }
        other => panic!("unexpected {other:?}"),
    }
}

#[test]
fn probes_name_the_right_commands() {
    match BhyveRequirements::probe(Check::Module(2)) {
        Probe::Run(c) => {
            assert_eq!(c.program, "kldstat");
            assert_eq!(c.args, vec!["-n".to_string(), "nmdm".to_string()]);
        }
        Probe::PathExists(_) => panic!("expected a command"),
    }
    match BhyveRequirements::probe(Check::TunDevice) {
        Probe::PathExists(p) => assert_eq!(p, "/dev/net/tun"),
        Probe::Run(_) => panic!("expected a path"),
    }
}
