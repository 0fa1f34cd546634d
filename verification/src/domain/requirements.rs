//! bhyve host requirements: the checks that run before VM operations, as a
//! sequence of probes of the host and the decision after each answer.
//!
//! Reference: <https://docs.freebsd.org/en/books/handbook/virtualization/#virtualization-host-bhyve>
use crate::command::{args2, Command, CommandView, Outcome};
use crate::error::VelnError;
use crate::text::{text_eq, text_trim, trim, views};
use vstd::prelude::*;

verus! {

/// bhyve host requirements.
pub struct BhyveRequirements;

/// Requirements checker that runs before VM operations.
pub struct RequirementsChecker;

/// The check in progress: CPU virtualization (Intel VT-x, else AMD-V), the
/// kernel modules `vmm`, `if_tuntap` and `nmdm` (by index), the vmm
/// subsystem, and the TUN/TAP device.
#[derive(Debug, Clone, Copy, PartialEq, Eq, Structural)]
pub enum Check {
    CpuVmx,
    CpuSvm,
    Module(usize),
    VmmInit,
    TunDevice,
}

/// How a check asks the host: a command to run, or a path whose existence
/// is the answer (reported as a command that succeeded or not).
pub enum Probe {
    Run(Command),
    PathExists(String),
}

/// The model of a probe.
pub enum ProbeView {
    Run(CommandView),
    PathExists(Seq<char>),
}

impl View for Probe {
    type V = ProbeView;

    open spec fn view(&self) -> ProbeView {
        match self {
            Probe::Run(c) => ProbeView::Run(c@),
            Probe::PathExists(p) => ProbeView::PathExists(p@),
        }
    }
}

/// The model of a command's outcome.
pub enum OutcomeView {
    Ran { success: bool, stdout: Seq<char>, stderr: Seq<char> },
    SpawnFailed(Seq<char>),
}

impl View for Outcome {
    type V = OutcomeView;

    open spec fn view(&self) -> OutcomeView {
        match self {
            Outcome::Ran { success, stdout, stderr } => OutcomeView::Ran {
                success: *success,
                stdout: stdout@,
                stderr: stderr@,
            },
            Outcome::SpawnFailed(e) => OutcomeView::SpawnFailed(e@),
        }
    }
}

/// What follows an answer: the next check, or the verdict.
pub enum RequirementsStep {
    Next(Check),
    Done(Result<(), VelnError>),
}

/// The model of what follows an answer.
pub enum StepModel {
    Next(Check),
    Pass,
    Fail(Seq<char>),
}

/// The kernel module checked by a module check.
pub open spec fn module_name(i: int) -> Seq<char> {
    if i == 0 {
        "vmm"@
    } else if i == 1 {
        "if_tuntap"@
    } else {
        "nmdm"@
    }
}

/// Whether a check is one of the checks.
pub open spec fn check_valid(c: Check) -> bool {
    match c {
        Check::Module(i) => i < 3,
        _ => true,
    }
}

/// The probe of a check: `sysctl -n <flag>` for the CPU and vmm flags,
/// `kldstat -n <module>` for a module, and the path `/dev/net/tun`.
pub open spec fn probe_of(c: Check) -> ProbeView {
    match c {
        Check::CpuVmx => ProbeView::Run(
            CommandView { program: "sysctl"@, args: seq!["-n"@, "hw.vmm.vmx.initialized"@] },
        ),
        Check::CpuSvm => ProbeView::Run(
            CommandView { program: "sysctl"@, args: seq!["-n"@, "hw.vmm.svm.initialized"@] },
        ),
        Check::Module(i) => ProbeView::Run(
            CommandView { program: "kldstat"@, args: seq!["-n"@, module_name(i as int)] },
        ),
        Check::VmmInit => ProbeView::Run(
            CommandView { program: "sysctl"@, args: seq!["-n"@, "hw.vmm.vmm_initialized"@] },
        ),
        Check::TunDevice => ProbeView::PathExists("/dev/net/tun"@),
    }
}

/// Whether a sysctl flag is set: its output, trimmed, is `1`.
pub open spec fn flag_set(stdout: Seq<char>) -> bool {
    trim(stdout) == "1"@
}

/// The message when a command of a check cannot be started.
pub open spec fn spawn_failure(c: Check, e: Seq<char>) -> Seq<char> {
    match c {
        Check::CpuVmx => "Failed to check CPU support: "@ + e,
        Check::CpuSvm => "Failed to check CPU support: "@ + e,
        Check::Module(i) => "Failed to check module "@ + module_name(i as int) + ": "@ + e,
        Check::VmmInit => "Failed to check vmm: "@ + e,
        Check::TunDevice => "TUN/TAP device not found. Ensure 'if_tuntap' module is loaded."@,
    }
}

/// What follows the answer to a check. A CPU without VT-x is asked for
/// AMD-V; a CPU with neither, a module not loaded, an uninitialized vmm or a
/// missing TUN/TAP device fail the host with a message that says what to do;
/// the host passes after the last check.
pub open spec fn requirements_after(c: Check, o: OutcomeView) -> StepModel {
    match o {
        OutcomeView::SpawnFailed(e) => StepModel::Fail(spawn_failure(c, e)),
        OutcomeView::Ran { success, stdout, stderr } => match c {
            Check::CpuVmx => if flag_set(stdout) {
                StepModel::Next(Check::Module(0))
            } else {
                StepModel::Next(Check::CpuSvm)
            },
            Check::CpuSvm => if flag_set(stdout) {
                StepModel::Next(Check::Module(0))
            } else {
                StepModel::Fail("CPU does not support virtualization (VT-x or AMD-V)"@)
            },
            Check::Module(i) => if !success {
                StepModel::Fail(
                    "Required kernel module '"@ + module_name(i as int)
                        + "' is not loaded. Run: kldload "@ + module_name(i as int),
                )
            } else if i + 1 < 3 {
                StepModel::Next(Check::Module((i + 1) as usize))
            } else {
                StepModel::Next(Check::VmmInit)
            },
            Check::VmmInit => if flag_set(stdout) {
                StepModel::Next(Check::TunDevice)
            } else {
                StepModel::Fail(
                    "VMM subsystem is not initialized. Ensure 'vmm' module is loaded."@,
                )
            },
            Check::TunDevice => if success {
                StepModel::Pass
            } else {
                StepModel::Fail("TUN/TAP device not found. Ensure 'if_tuntap' module is loaded."@)
            },
        },
    }
}

/// Whether a step is the one that the model describes.
pub open spec fn step_is(r: RequirementsStep, m: StepModel) -> bool {
    match m {
        StepModel::Next(n) => r == RequirementsStep::Next(n),
        StepModel::Pass => r matches RequirementsStep::Done(Ok(())),
        StepModel::Fail(msg) => r matches RequirementsStep::Done(Err(VelnError::HostRequirements(e)))
            && e@ == msg,
    }
}

fn module_text(i: usize) -> (r: String)
    requires
        i < 3,
    ensures
        r@ == module_name(i as int),
{
    if i == 0 {
        "vmm".to_owned()
    } else if i == 1 {
        "if_tuntap".to_owned()
    } else {
        "nmdm".to_owned()
    }
}

fn is_flag_set(stdout: &str) -> (r: bool)
    ensures
        r == flag_set(stdout@),
{
    let t = text_trim(stdout);
    text_eq(t.as_str(), "1")
}

fn fail(msg: String) -> (r: RequirementsStep)
    ensures
        r matches RequirementsStep::Done(Err(VelnError::HostRequirements(e))) && e@ == msg@,
{
    RequirementsStep::Done(Err(VelnError::HostRequirements(msg)))
}

impl BhyveRequirements {
    /// The first check: CPU virtualization support (VT-x).
    pub fn first_check() -> (c: Check)
        ensures
            c == Check::CpuVmx,
    {
        Check::CpuVmx
    }

    /// How to ask the host about a check.
    pub fn probe(c: Check) -> (p: Probe)
        requires
            check_valid(c),
        ensures
            p@ == probe_of(c),
    {
        match c {
            Check::CpuVmx => Probe::Run(
                Command::new("sysctl", args2("-n", "hw.vmm.vmx.initialized")),
            ),
            Check::CpuSvm => Probe::Run(
                Command::new("sysctl", args2("-n", "hw.vmm.svm.initialized")),
            ),
            Check::Module(i) => {
                let m = module_text(i);
                Probe::Run(Command::new("kldstat", args2("-n", m.as_str())))
            },
            Check::VmmInit => Probe::Run(
                Command::new("sysctl", args2("-n", "hw.vmm.vmm_initialized")),
            ),
            Check::TunDevice => Probe::PathExists("/dev/net/tun".to_owned()),
        }
    }

    /// What follows the answer to a check.
    pub fn after(c: Check, o: &Outcome) -> (r: RequirementsStep)
        requires
            check_valid(c),
        ensures
            step_is(r, requirements_after(c, o@)),
            r matches RequirementsStep::Next(n) ==> check_valid(n),
    {
        match o {
            Outcome::SpawnFailed(e) => {
                match c {
                    Check::CpuVmx | Check::CpuSvm => {
                        let mut m = "Failed to check CPU support: ".to_owned();
                        m.append(e.as_str());
                        fail(m)
                    },
                    Check::Module(i) => {
                        let mut m = "Failed to check module ".to_owned();
                        let name = module_text(i);
                        m.append(name.as_str());
                        m.append(": ");
                        m.append(e.as_str());
                        fail(m)
                    },
                    Check::VmmInit => {
                        let mut m = "Failed to check vmm: ".to_owned();
                        m.append(e.as_str());
                        fail(m)
                    },
                    Check::TunDevice => fail(
                        "TUN/TAP device not found. Ensure 'if_tuntap' module is loaded.".to_owned(),
                    ),
                }
            },
            Outcome::Ran { success, stdout, stderr: _ } => {
                match c {
                    Check::CpuVmx => {
                        if is_flag_set(stdout.as_str()) {
                            RequirementsStep::Next(Check::Module(0))
                        } else {
                            RequirementsStep::Next(Check::CpuSvm)
                        }
                    },
                    Check::CpuSvm => {
                        if is_flag_set(stdout.as_str()) {
                            RequirementsStep::Next(Check::Module(0))
                        } else {
                            fail("CPU does not support virtualization (VT-x or AMD-V)".to_owned())
                        }
                    },
                    Check::Module(i) => {
                        if !*success {
                            let name = module_text(i);
                            let mut m = "Required kernel module '".to_owned();
                            m.append(name.as_str());
                            m.append("' is not loaded. Run: kldload ");
                            m.append(name.as_str());
                            fail(m)
                        } else if i + 1 < 3 {
                            RequirementsStep::Next(Check::Module(i + 1))
                        } else {
                            RequirementsStep::Next(Check::VmmInit)
                        }
                    },
                    Check::VmmInit => {
                        if is_flag_set(stdout.as_str()) {
                            RequirementsStep::Next(Check::TunDevice)
                        } else {
                            fail(
                                "VMM subsystem is not initialized. Ensure 'vmm' module is loaded.".to_owned(),
                            )
                        }
                    },
                    Check::TunDevice => {
                        if *success {
                            RequirementsStep::Done(Ok(()))
                        } else {
                            fail(
                                "TUN/TAP device not found. Ensure 'if_tuntap' module is loaded.".to_owned(),
                            )
                        }
                    },
                }
            },
        }
    }
}

// ---------------------------------------------------------------------------
// The checks as a whole
// ---------------------------------------------------------------------------
/// The verdict of the checks from `c` on, when the host answers each check
/// with `answer(check)`; `fuel` bounds the number of checks.
pub open spec fn verdict_from(c: Check, answer: spec_fn(Check) -> OutcomeView, fuel: nat) -> Option<
    bool,
>
    decreases fuel,
{
    if fuel == 0 {
        None
    } else {
        match requirements_after(c, answer(c)) {
            StepModel::Pass => Some(true),
            StepModel::Fail(_) => Some(false),
            StepModel::Next(n) => verdict_from(n, answer, (fuel - 1) as nat),
        }
    }
}

/// Whether the host's answer to a check is a successful run.
pub open spec fn ran_ok(o: OutcomeView) -> bool {
    o matches OutcomeView::Ran { success, .. } && success
}

/// Whether the host's answer to a flag check says the flag is set.
pub open spec fn ran_flag(o: OutcomeView) -> bool {
    o matches OutcomeView::Ran { stdout, .. } && flag_set(stdout)
}

/// Each check asks the host its own question: no two checks share a probe,
/// so the AMD-V check never asks the VT-x flag again. The CPU checks read
/// the `initialized` flag of their own extension under `hw.vmm`: `vmx` for
/// VT-x and `svm` for AMD-V.
pub proof fn lemma_each_check_asks_its_own(c: Check, d: Check)
    requires
        check_valid(c),
        check_valid(d),
        c != d,
    ensures
        probe_of(c) != probe_of(d),
        probe_of(Check::CpuVmx) matches ProbeView::Run(cmd) && cmd.args.len() == 2
            && cmd.args[1].len() == 22 && cmd.args[1].subrange(7, 10) == seq!['v', 'm', 'x'],
        probe_of(Check::CpuSvm) matches ProbeView::Run(cmd) && cmd.args.len() == 2
            && cmd.args[1].len() == 22 && cmd.args[1].subrange(7, 10) == seq!['s', 'v', 'm'],
{
    reveal_strlit("sysctl");
    reveal_strlit("kldstat");
    reveal_strlit("hw.vmm.vmx.initialized");
    reveal_strlit("hw.vmm.svm.initialized");
    reveal_strlit("hw.vmm.vmm_initialized");
    reveal_strlit("vmm");
    reveal_strlit("if_tuntap");
    reveal_strlit("nmdm");
    assert("hw.vmm.vmx.initialized"@.subrange(7, 10) =~= seq!['v', 'm', 'x']);
    assert("hw.vmm.svm.initialized"@.subrange(7, 10) =~= seq!['s', 'v', 'm']);
    if probe_of(c) == probe_of(d) {
        match (probe_of(c), probe_of(d)) {
            (ProbeView::Run(x), ProbeView::Run(y)) => {
                assert(x.program == y.program);
                assert(x.args[1] == y.args[1]);
                assert(x.program[0] == y.program[0]);
                assert(x.args[1][0] == y.args[1][0]);
                assert(x.args[1][1] == y.args[1][1]);
                assert(x.args[1][7] == y.args[1][7]);
                assert(x.args[1][9] == y.args[1][9]);
                assert(x.args[1].len() == y.args[1].len());
            },
            _ => {},
        }
    }
}

/// The checks pass exactly when the CPU has VT-x or (asked after VT-x
/// answered no) AMD-V, the three kernel
/// modules are loaded, the vmm subsystem is initialized and the TUN/TAP
/// device exists; seven checks are always enough to decide.
pub proof fn lemma_requirements_verdict(answer: spec_fn(Check) -> OutcomeView)
    ensures
        verdict_from(Check::CpuVmx, answer, 7) == Some(
            (ran_flag(answer(Check::CpuVmx)) || (answer(Check::CpuVmx) is Ran && ran_flag(
                answer(Check::CpuSvm),
            ))) && ran_ok(
                answer(Check::Module(0)),
            ) && ran_ok(answer(Check::Module(1))) && ran_ok(answer(Check::Module(2))) && ran_flag(
                answer(Check::VmmInit),
            ) && ran_ok(answer(Check::TunDevice)),
        ),
{
    reveal_with_fuel(verdict_from, 8);
}

} // verus!
