//! The bhyve lifecycle of a VM — creating its disk, starting it, stopping
//! it gracefully or by force — as the commands it runs and the decision
//! after each outcome (see `jobs` for how a caller runs them).
use crate::command::{Command, CommandView, Outcome};
use crate::domain::requirements::OutcomeView;
use crate::domain::vm::VirtualMachine;
use crate::error::{ErrorView, VelnError};
use crate::infrastructure::bhyve::{bhyve_args, disk_dataset_of, disk_path_of, mac_text, BhyveRuntime};
use crate::infrastructure::jobs::{io_error, message, quoted, zfs, zfs1, zfs_cmd, Step, StepView};
use crate::infrastructure::zfs::exists_from;
use crate::text::{dec, push_dec, push_line, views};
use vstd::prelude::*;

verus! {

/// `pgrep -f bhyve.*<name>`: succeeds exactly when a bhyve process of the
/// VM runs.
pub open spec fn pgrep_cmd(name: Seq<char>) -> CommandView {
    CommandView { program: "pgrep"@, args: seq!["-f"@, "bhyve.*"@ + name] }
}

/// Whether a VM runs, from the outcome of `pgrep`: a command that could not
/// be started counts as "no".
pub open spec fn running_from(o: OutcomeView) -> bool {
    exists_from(o)
}

/// The `pgrep` command that tells whether a VM runs.
pub fn pgrep_command(name: &str) -> (c: Command)
    ensures
        c@ == pgrep_cmd(name@),
{
    let mut pattern = "bhyve.*".to_owned();
    pattern.append(name);
    let mut v: Vec<String> = Vec::new();
    push_line(&mut v, "-f".to_owned());
    push_line(&mut v, pattern);
    assert(views(v@) =~= seq!["-f"@, "bhyve.*"@ + name@]);
    Command::new("pgrep", v)
}

/// Whether a VM runs, from the outcome of its `pgrep` command.
pub fn is_running(o: &Outcome) -> (r: bool)
    ensures
        r == running_from(o@),
{
    crate::infrastructure::zfs::dataset_exists_from(o)
}

// ---------------------------------------------------------------------------
// Creating a VM's disk
// ---------------------------------------------------------------------------
/// The creation of a VM's disk: a ZVOL of the configured size, exposed as a
/// device (`volmode=dev`), only where there is none.
pub struct DiskJob {
    pub name: String,
    pub disk_dataset: String,
    pub disk_gb: u64,
}

/// The model of a disk's creation.
pub struct DiskJobView {
    pub name: Seq<char>,
    pub disk_dataset: Seq<char>,
    pub disk_gb: nat,
}

impl View for DiskJob {
    type V = DiskJobView;

    open spec fn view(&self) -> DiskJobView {
        DiskJobView { name: self.name@, disk_dataset: self.disk_dataset@, disk_gb: self.disk_gb as nat }
    }
}

/// What a disk's creation waits for: whether the ZVOL exists, and its creation.
#[derive(Debug, Clone, Copy, PartialEq, Eq, Structural)]
pub enum DiskStage {
    Exists,
    Create,
}

impl View for DiskStage {
    type V = DiskStage;

    open spec fn view(&self) -> DiskStage {
        *self
    }
}

/// Whether a command ran and succeeded.
pub open spec fn succeeded(o: OutcomeView) -> bool {
    o matches OutcomeView::Ran { success, .. } && success
}

/// The first step of a disk's creation: does the ZVOL exist?
pub open spec fn disk_start(j: DiskJobView) -> StepView<DiskStage> {
    StepView::Run(DiskStage::Exists, zfs_cmd(seq!["list"@, j.disk_dataset]))
}

/// What follows an outcome in a disk's creation.
pub open spec fn disk_next(j: DiskJobView, s: DiskStage, o: OutcomeView) -> StepView<DiskStage> {
    match o {
        OutcomeView::SpawnFailed(e) => StepView::Fail(ErrorView::Io(e)),
        OutcomeView::Ran { success, stderr, .. } => match s {
            DiskStage::Exists => if success {
                StepView::Fail(
                    ErrorView::ZfsError("Disk ZVOL already exists for VM '"@ + j.name + "'"@),
                )
            } else {
                StepView::Run(
                    DiskStage::Create,
                    zfs_cmd(
                        seq![
                            "create"@,
                            "-V"@,
                            dec(j.disk_gb) + "G"@,
                            "-o"@,
                            "volmode=dev"@,
                            j.disk_dataset,
                        ],
                    ),
                )
            },
            DiskStage::Create => if success {
                StepView::Done
            } else {
                StepView::Fail(ErrorView::ZfsError("Failed to create ZVOL: "@ + stderr))
            },
        },
    }
}

impl DiskJob {
    /// The first step of the disk's creation.
    pub fn start(&self) -> (s: Step<DiskStage>)
        ensures
            s@ == disk_start(self@),
    {
        Step::Run(DiskStage::Exists, zfs1("list", self.disk_dataset.as_str()))
    }

    /// What follows the outcome of the command of a stage.
    pub fn next(&self, stage: DiskStage, o: &Outcome) -> (s: Step<DiskStage>)
        ensures
            s@ == disk_next(self@, stage, o@),
    {
        match o {
            Outcome::SpawnFailed(e) => Step::Fail(io_error(e)),
            Outcome::Ran { success, stderr, .. } => match stage {
                DiskStage::Exists => {
                    if *success {
                        Step::Fail(
                            VelnError::ZfsError(
                                quoted("Disk ZVOL already exists for VM '", self.name.as_str(), "'"),
                            ),
                        )
                    } else {
                        let mut size = String::new();
                        push_dec(&mut size, self.disk_gb);
                        size.append("G");
                        let mut v: Vec<String> = Vec::new();
                        push_line(&mut v, "create".to_owned());
                        push_line(&mut v, "-V".to_owned());
                        push_line(&mut v, size);
                        push_line(&mut v, "-o".to_owned());
                        push_line(&mut v, "volmode=dev".to_owned());
                        push_line(&mut v, self.disk_dataset.clone());
                        assert(views(v@) =~= seq![
                            "create"@,
                            "-V"@,
                            dec(self.disk_gb as nat) + "G"@,
                            "-o"@,
                            "volmode=dev"@,
                            self.disk_dataset@,
                        ]);
                        Step::Run(DiskStage::Create, zfs(v))
                    }
                },
                DiskStage::Create => {
                    if *success {
                        Step::Done
                    } else {
                        Step::Fail(VelnError::ZfsError(message("Failed to create ZVOL: ", stderr)))
                    }
                },
            },
        }
    }
}

// ---------------------------------------------------------------------------
// Starting a VM
// ---------------------------------------------------------------------------
/// The start of a VM that does not run yet: `bhyveload` loads the guest
/// from the disk with the console on `/dev/nmdm0A`, then `bhyve` runs it
/// with the VM's bhyve arguments.
pub struct StartJob {
    pub name: String,
    pub memory_mb: u64,
    pub disk_path: String,
    pub bhyve_args: Vec<String>,
}

/// The model of a start.
pub struct StartJobView {
    pub name: Seq<char>,
    pub memory_mb: nat,
    pub disk_path: Seq<char>,
    pub bhyve_args: Seq<Seq<char>>,
}

impl View for StartJob {
    type V = StartJobView;

    open spec fn view(&self) -> StartJobView {
        StartJobView {
            name: self.name@,
            memory_mb: self.memory_mb as nat,
            disk_path: self.disk_path@,
            bhyve_args: views(self.bhyve_args@),
        }
    }
}

/// What a start waits for: whether the VM runs, the loading of the guest,
/// and bhyve.
#[derive(Debug, Clone, Copy, PartialEq, Eq, Structural)]
pub enum StartStage {
    Running,
    Load,
    Boot,
}

impl View for StartStage {
    type V = StartStage;

    open spec fn view(&self) -> StartStage {
        *self
    }
}

/// `bhyveload -c /dev/nmdm0A -m <memory> -d <disk> <name>`.
pub open spec fn bhyveload_cmd(j: StartJobView) -> CommandView {
    CommandView {
        program: "bhyveload"@,
        args: seq!["-c"@, "/dev/nmdm0A"@, "-m"@, dec(j.memory_mb), "-d"@, j.disk_path, j.name],
    }
}

/// The first step of a start: does the VM run already?
pub open spec fn start_start(j: StartJobView) -> StepView<StartStage> {
    StepView::Run(StartStage::Running, pgrep_cmd(j.name))
}

/// What follows an outcome in a start.
pub open spec fn start_next(j: StartJobView, s: StartStage, o: OutcomeView) -> StepView<StartStage> {
    match s {
        StartStage::Running => if running_from(o) {
            StepView::Fail(ErrorView::ZfsError("VM '"@ + j.name + "' is already running"@))
        } else {
            StepView::Run(StartStage::Load, bhyveload_cmd(j))
        },
        StartStage::Load => match o {
            OutcomeView::SpawnFailed(e) => StepView::Fail(ErrorView::Io(e)),
            OutcomeView::Ran { success, stderr, .. } => if success {
                StepView::Run(
                    StartStage::Boot,
                    CommandView { program: "bhyve"@, args: j.bhyve_args },
                )
            } else {
                StepView::Fail(ErrorView::ZfsError("Failed to load VM: "@ + stderr))
            },
        },
        StartStage::Boot => match o {
            OutcomeView::SpawnFailed(e) => StepView::Fail(ErrorView::Io(e)),
            OutcomeView::Ran { success, stderr, .. } => if success {
                StepView::Done
            } else {
                StepView::Fail(ErrorView::ZfsError("Failed to start VM: "@ + stderr))
            },
        },
    }
}

impl StartJob {
    /// The first step of the start.
    pub fn start(&self) -> (s: Step<StartStage>)
        ensures
            s@ == start_start(self@),
    {
        Step::Run(StartStage::Running, pgrep_command(self.name.as_str()))
    }

    /// What follows the outcome of the command of a stage.
    pub fn next(&self, stage: StartStage, o: &Outcome) -> (s: Step<StartStage>)
        ensures
            s@ == start_next(self@, stage, o@),
    {
        match stage {
            StartStage::Running => {
                if is_running(o) {
                    Step::Fail(
                        VelnError::ZfsError(
                            quoted("VM '", self.name.as_str(), "' is already running"),
                        ),
                    )
                } else {
                    let mut memory = String::new();
                    push_dec(&mut memory, self.memory_mb);
                    let mut v: Vec<String> = Vec::new();
                    push_line(&mut v, "-c".to_owned());
                    push_line(&mut v, "/dev/nmdm0A".to_owned());
                    push_line(&mut v, "-m".to_owned());
                    push_line(&mut v, memory);
                    push_line(&mut v, "-d".to_owned());
                    push_line(&mut v, self.disk_path.clone());
                    push_line(&mut v, self.name.clone());
                    assert(memory@ =~= dec(self.memory_mb as nat));
                    assert(views(v@) =~= bhyveload_cmd(self@).args);
                    Step::Run(StartStage::Load, Command::new("bhyveload", v))
                }
            },
            StartStage::Load => match o {
                Outcome::SpawnFailed(e) => Step::Fail(io_error(e)),
                Outcome::Ran { success, stderr, .. } => {
                    if *success {
                        Step::Run(StartStage::Boot, Command::new("bhyve", self.bhyve_args.clone()))
                    } else {
                        Step::Fail(VelnError::ZfsError(message("Failed to load VM: ", stderr)))
                    }
                },
            },
            StartStage::Boot => match o {
                Outcome::SpawnFailed(e) => Step::Fail(io_error(e)),
                Outcome::Ran { success, stderr, .. } => {
                    if *success {
                        Step::Done
                    } else {
                        Step::Fail(VelnError::ZfsError(message("Failed to start VM: ", stderr)))
                    }
                },
            },
        }
    }
}

// ---------------------------------------------------------------------------
// Stopping a VM
// ---------------------------------------------------------------------------
/// The stop of a running VM: an ACPI power-off (graceful), or a forced
/// power-off followed by the destruction of the VM instance.
pub struct StopJob {
    pub name: String,
    pub force: bool,
}

/// The model of a stop.
pub struct StopJobView {
    pub name: Seq<char>,
    pub force: bool,
}

impl View for StopJob {
    type V = StopJobView;

    open spec fn view(&self) -> StopJobView {
        StopJobView { name: self.name@, force: self.force }
    }
}

/// What a stop waits for: whether the VM runs, the power-off, and the
/// destruction of the instance.
#[derive(Debug, Clone, Copy, PartialEq, Eq, Structural)]
pub enum StopStage {
    Running,
    PowerOff,
    Release,
}

impl View for StopStage {
    type V = StopStage;

    open spec fn view(&self) -> StopStage {
        *self
    }
}

/// `bhyvectl <flag> --vm <name>`.
pub open spec fn bhyvectl_cmd(flag: Seq<char>, name: Seq<char>) -> CommandView {
    CommandView { program: "bhyvectl"@, args: seq![flag, "--vm"@, name] }
}

/// The first step of a stop: does the VM run?
pub open spec fn stop_start(j: StopJobView) -> StepView<StopStage> {
    StepView::Run(StopStage::Running, pgrep_cmd(j.name))
}

/// What follows an outcome in a stop.
pub open spec fn stop_next(j: StopJobView, s: StopStage, o: OutcomeView) -> StepView<StopStage> {
    match s {
        StopStage::Running => if !running_from(o) {
            StepView::Fail(ErrorView::VmNotFound("VM '"@ + j.name + "' is not running"@))
        } else {
            StepView::Run(
                StopStage::PowerOff,
                bhyvectl_cmd(
                    if j.force {
                        "--force-poweroff"@
                    } else {
                        "--acpi-poweroff"@
                    },
                    j.name,
                ),
            )
        },
        StopStage::PowerOff => match o {
            OutcomeView::SpawnFailed(e) => StepView::Fail(ErrorView::Io(e)),
            OutcomeView::Ran { success, stderr, .. } => if !success {
                StepView::Fail(
                    ErrorView::ZfsError(
                        (if j.force {
                            "Failed to destroy VM: "@
                        } else {
                            "Failed to stop VM: "@
                        }) + stderr,
                    ),
                )
            } else if j.force {
                StepView::Run(StopStage::Release, bhyvectl_cmd("--destroy"@, j.name))
            } else {
                StepView::Done
            },
        },
        StopStage::Release => match o {
            OutcomeView::SpawnFailed(e) => StepView::Fail(ErrorView::Io(e)),
            OutcomeView::Ran { success, stderr, .. } => if success {
                StepView::Done
            } else {
                StepView::Fail(ErrorView::ZfsError("Failed to destroy VM instance: "@ + stderr))
            },
        },
    }
}

fn bhyvectl(flag: &str, name: &str) -> (c: Command)
    ensures
        c@ == bhyvectl_cmd(flag@, name@),
{
    let mut v: Vec<String> = Vec::new();
    push_line(&mut v, flag.to_owned());
    push_line(&mut v, "--vm".to_owned());
    push_line(&mut v, name.to_owned());
    assert(views(v@) =~= seq![flag@, "--vm"@, name@]);
    Command::new("bhyvectl", v)
}

impl StopJob {
    /// The first step of the stop.
    pub fn start(&self) -> (s: Step<StopStage>)
        ensures
            s@ == stop_start(self@),
    {
        Step::Run(StopStage::Running, pgrep_command(self.name.as_str()))
    }

    /// What follows the outcome of the command of a stage.
    pub fn next(&self, stage: StopStage, o: &Outcome) -> (s: Step<StopStage>)
        ensures
            s@ == stop_next(self@, stage, o@),
    {
        match stage {
            StopStage::Running => {
                if !is_running(o) {
                    Step::Fail(
                        VelnError::VmNotFound(quoted("VM '", self.name.as_str(), "' is not running")),
                    )
                } else if self.force {
                    Step::Run(StopStage::PowerOff, bhyvectl("--force-poweroff", self.name.as_str()))
                } else {
                    Step::Run(StopStage::PowerOff, bhyvectl("--acpi-poweroff", self.name.as_str()))
                }
            },
            StopStage::PowerOff => match o {
                Outcome::SpawnFailed(e) => Step::Fail(io_error(e)),
                Outcome::Ran { success, stderr, .. } => {
                    if !*success {
                        if self.force {
                            Step::Fail(
                                VelnError::ZfsError(message("Failed to destroy VM: ", stderr)),
                            )
                        } else {
                            Step::Fail(VelnError::ZfsError(message("Failed to stop VM: ", stderr)))
                        }
                    } else if self.force {
                        Step::Run(StopStage::Release, bhyvectl("--destroy", self.name.as_str()))
                    } else {
                        Step::Done
                    }
                },
            },
            StopStage::Release => match o {
                Outcome::SpawnFailed(e) => Step::Fail(io_error(e)),
                Outcome::Ran { success, stderr, .. } => {
                    if *success {
                        Step::Done
                    } else {
                        Step::Fail(
                            VelnError::ZfsError(message("Failed to destroy VM instance: ", stderr)),
                        )
                    }
                },
            },
        }
    }
}

impl BhyveRuntime {
    /// The creation of the disk of the VM `name` with `disk_gb` gigabytes.
    pub fn disk_job(&self, name: &str, disk_gb: u64) -> (j: DiskJob)
        ensures
            j@ == (DiskJobView {
                name: name@,
                disk_dataset: disk_dataset_of(self.pool(), self.vm_root(), name@),
                disk_gb: disk_gb as nat,
            }),
    {
        DiskJob { name: name.to_owned(), disk_dataset: self.disk_dataset(name), disk_gb }
    }

    /// The start of a VM; a VM without a configured MAC address gets the one
    /// made of `fallback_octets`.
    pub fn start_job(&self, vm: &VirtualMachine, fallback_octets: (u8, u8, u8)) -> (j: StartJob)
        ensures
            j@ == (StartJobView {
                name: vm.name@,
                memory_mb: vm.config.memory_mb as nat,
                disk_path: disk_path_of(self.pool(), self.vm_root(), vm.name@),
                bhyve_args: bhyve_args(
                    self.pool(),
                    self.vm_root(),
                    vm@,
                    mac_text(fallback_octets.0, fallback_octets.1, fallback_octets.2),
                ),
            }),
    {
        let args = self.build_bhyve_args(vm, fallback_octets);
        proof {
            assert(views(args@) =~= args@.map_values(|a: String| a@));
        }
        StartJob {
            name: vm.name.clone(),
            memory_mb: vm.config.memory_mb,
            disk_path: self.disk_path(vm.name.as_str()),
            bhyve_args: args,
        }
    }

    /// The stop of the VM `name`: graceful, or forced.
    pub fn stop_job(&self, name: &str, force: bool) -> (j: StopJob)
        ensures
            j@ == (StopJobView { name: name@, force }),
    {
        StopJob { name: name.to_owned(), force }
    }
}

// ---------------------------------------------------------------------------
// Laws
// ---------------------------------------------------------------------------
/// A running VM is not started again and a VM that does not run is not
/// stopped; bhyve runs a guest only after `bhyveload` loaded it; a disk is
/// created only where there was none.
pub proof fn lemma_lifecycle_guards(
    start: StartJobView,
    stop: StopJobView,
    disk: DiskJobView,
    s: StartStage,
    o: OutcomeView,
)
    ensures
        running_from(o) ==> start_next(start, StartStage::Running, o) is Fail,
        !running_from(o) ==> stop_next(stop, StopStage::Running, o) is Fail,
        start_next(start, s, o) matches StepView::Run(_, c) && c.program == "bhyve"@ ==> (s
            == StartStage::Load && succeeded(o)),
        disk_next(disk, DiskStage::Exists, o) is Run ==> (o is Ran && !succeeded(o)),
{
    reveal_strlit("bhyve");
    reveal_strlit("bhyveload");
    assert("bhyve"@.len() != "bhyveload"@.len());
}

} // verus!
