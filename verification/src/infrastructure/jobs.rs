//! The multi-step ZFS operations — cloning a VM, making a template of a VM
//! and deploying a VM from a template — as the commands they run and the
//! decision after each outcome. Running the commands, and writing the VM
//! configuration or the template metadata once the datasets are in place, is
//! left to the caller, which hands each outcome back with the stage it was
//! given.
use crate::command::{Command, CommandView, Outcome};
use crate::domain::requirements::OutcomeView;
use crate::error::{ErrorView, VelnError};
use crate::infrastructure::zfs::{
    child_dataset,
    child, exists_from, snapshot_name, snapshot_of, zfs_list_snapshot, ZfsRepository,
};
use crate::text::{dec, push_dec, push_line, views};
use vstd::prelude::*;

verus! {

/// What a job asks for next.
pub enum Step<S> {
    /// Run the command, then hand its outcome back with the stage.
    Run(S, Command),
    /// The datasets are in place.
    Done,
    /// The job stopped with an error.
    Fail(VelnError),
}

/// The model of a step.
pub enum StepView<S> {
    Run(S, CommandView),
    Done,
    Fail(ErrorView),
}

impl<S: View> View for Step<S> {
    type V = StepView<S::V>;

    open spec fn view(&self) -> StepView<S::V> {
        match self {
            Step::Run(s, c) => StepView::Run(s@, c@),
            Step::Done => StepView::Done,
            Step::Fail(e) => StepView::Fail(e@),
        }
    }
}

/// A `zfs` command.
pub open spec fn zfs_cmd(args: Seq<Seq<char>>) -> CommandView {
    CommandView { program: "zfs"@, args }
}

/// A full copy of a snapshot, with the snapshots of the same name of every
/// dataset below it (a VM's disk), into a new dataset:
/// `sh -c "zfs send -R '<snapshot>' | zfs receive '<target>'"`.
pub open spec fn send_receive_cmd(snapshot: Seq<char>, target: Seq<char>) -> CommandView {
    CommandView {
        program: "sh"@,
        args: seq!["-c"@, "zfs send -R '"@ + snapshot + "' | zfs receive '"@ + target + "'"@],
    }
}

/// Whether a command destroys something, and what: the last argument of a
/// `zfs destroy`.
pub open spec fn destroys(c: CommandView, what: Seq<char>) -> bool {
    c.program == "zfs"@ && c.args.len() > 0 && c.args[0] == "destroy"@ && c.args.last() == what
}

pub(crate) fn zfs(args: Vec<String>) -> (c: Command)
    ensures
        c@ == zfs_cmd(views(args@)),
{
    Command::new("zfs", args)
}

pub(crate) fn zfs1(a: &str, b: &str) -> (c: Command)
    ensures
        c@ == zfs_cmd(seq![a@, b@]),
{
    let mut v: Vec<String> = Vec::new();
    push_line(&mut v, a.to_owned());
    push_line(&mut v, b.to_owned());
    assert(views(v@) =~= seq![a@, b@]);
    zfs(v)
}

pub(crate) fn zfs2(a: &str, b: &str, c: &str) -> (r: Command)
    ensures
        r@ == zfs_cmd(seq![a@, b@, c@]),
{
    let mut v: Vec<String> = Vec::new();
    push_line(&mut v, a.to_owned());
    push_line(&mut v, b.to_owned());
    push_line(&mut v, c.to_owned());
    assert(views(v@) =~= seq![a@, b@, c@]);
    zfs(v)
}

fn send_receive(snapshot: &str, target: &str) -> (c: Command)
    ensures
        c@ == send_receive_cmd(snapshot@, target@),
{
    let mut line = "zfs send -R '".to_owned();
    line.append(snapshot);
    line.append("' | zfs receive '");
    line.append(target);
    line.append("'");
    let mut v: Vec<String> = Vec::new();
    push_line(&mut v, "-c".to_owned());
    push_line(&mut v, line);
    assert(views(v@) =~= seq![
        "-c"@,
        "zfs send -R '"@ + snapshot@ + "' | zfs receive '"@ + target@ + "'"@,
    ]);
    Command::new("sh", v)
}

/// `<dataset>@<prefix><stamp>`: a snapshot named by a time stamp.
fn stamped_snapshot(dataset: &str, prefix: &str, stamp: u64) -> (r: String)
    ensures
        r@ == snapshot_of(dataset@, prefix@ + dec(stamp as nat)),
{
    let mut name = prefix.to_owned();
    push_dec(&mut name, stamp);
    snapshot_name(dataset, name.as_str())
}

pub(crate) fn io_error(e: &String) -> (r: VelnError)
    ensures
        r@ == ErrorView::Io(e@),
{
    VelnError::Io(e.clone())
}

pub(crate) fn message(prefix: &str, detail: &String) -> (r: String)
    ensures
        r@ == prefix@ + detail@,
{
    let mut s = prefix.to_owned();
    s.append(detail.as_str());
    s
}

pub(crate) fn quoted(prefix: &str, name: &str, suffix: &str) -> (r: String)
    ensures
        r@ == prefix@ + name@ + suffix@,
{
    let mut s = prefix.to_owned();
    s.append(name);
    s.append(suffix);
    s
}

// ---------------------------------------------------------------------------
// Cloning a VM
// ---------------------------------------------------------------------------
/// A clone of a VM with its disk: a linked clone (`zfs clone` of recursive
/// snapshots, the VM's dataset and then its disk) or a full copy
/// (`zfs send -R | zfs receive` of temporary recursive snapshots, removed
/// afterwards).
/// The snapshot is named by the time stamp, in seconds.
pub struct CloneJob {
    pub source: String,
    pub target: String,
    pub source_dataset: String,
    pub target_dataset: String,
    pub linked: bool,
    pub stamp: u64,
}

/// The model of a clone.
pub struct CloneJobView {
    pub source: Seq<char>,
    pub target: Seq<char>,
    pub source_dataset: Seq<char>,
    pub target_dataset: Seq<char>,
    pub linked: bool,
    pub stamp: nat,
}

impl View for CloneJob {
    type V = CloneJobView;

    open spec fn view(&self) -> CloneJobView {
        CloneJobView {
            source: self.source@,
            target: self.target@,
            source_dataset: self.source_dataset@,
            target_dataset: self.target_dataset@,
            linked: self.linked,
            stamp: self.stamp as nat,
        }
    }
}

/// What a clone waits for: whether the source exists, whether the target
/// exists, the recursive snapshot, the linked clone of the VM's dataset and
/// then of its disk, the copy, the removal of the temporary snapshots (with
/// the copy's error output when it failed), and the removal of a partial
/// copy (with that output).
pub enum CloneStage {
    SourceExists,
    TargetExists,
    Snapshot,
    Clone,
    CloneDisk,
    SendReceive,
    DropTemp(Option<String>),
    DropPartial(String),
}

/// The model of a clone's stage.
pub enum CloneStageView {
    SourceExists,
    TargetExists,
    Snapshot,
    Clone,
    CloneDisk,
    SendReceive,
    DropTemp(Option<Seq<char>>),
    DropPartial(Seq<char>),
}

impl View for CloneStage {
    type V = CloneStageView;

    open spec fn view(&self) -> CloneStageView {
        match self {
            CloneStage::SourceExists => CloneStageView::SourceExists,
            CloneStage::TargetExists => CloneStageView::TargetExists,
            CloneStage::Snapshot => CloneStageView::Snapshot,
            CloneStage::Clone => CloneStageView::Clone,
            CloneStage::CloneDisk => CloneStageView::CloneDisk,
            CloneStage::SendReceive => CloneStageView::SendReceive,
            CloneStage::DropTemp(f) => CloneStageView::DropTemp(
                match f {
                    Some(e) => Some(e@),
                    None => None,
                },
            ),
            CloneStage::DropPartial(e) => CloneStageView::DropPartial(e@),
        }
    }
}

/// The name of the snapshots a clone is made from: `clone-<stamp>` for a
/// linked clone, `temp-clone-<stamp>` for a full copy.
pub open spec fn clone_snapshot_name(j: CloneJobView) -> Seq<char> {
    (if j.linked {
        "clone-"@
    } else {
        "temp-clone-"@
    }) + dec(j.stamp)
}

/// The snapshot of the source VM's dataset a clone is made from (taken
/// recursively, so the VM's disk has its snapshot of the same name).
pub open spec fn clone_snapshot(j: CloneJobView) -> Seq<char> {
    snapshot_of(j.source_dataset, clone_snapshot_name(j))
}

/// The snapshot of the source VM's disk a linked clone is made from.
pub open spec fn clone_disk_snapshot(j: CloneJobView) -> Seq<char> {
    snapshot_of(child(j.source_dataset, "disk"@), clone_snapshot_name(j))
}

/// The first step of a clone: does the source exist?
pub open spec fn clone_start(j: CloneJobView) -> StepView<CloneStageView> {
    StepView::Run(CloneStageView::SourceExists, zfs_cmd(seq!["list"@, j.source_dataset]))
}

/// What follows an outcome in a clone. The VM is cloned with its disk: the
/// snapshot is recursive, a linked clone clones the dataset and then the
/// disk below it, and a full copy sends the snapshots recursively.
pub open spec fn clone_next(
    j: CloneJobView,
    s: CloneStageView,
    o: OutcomeView,
) -> StepView<CloneStageView> {
    match s {
        CloneStageView::SourceExists => if exists_from(o) {
            StepView::Run(CloneStageView::TargetExists, zfs_cmd(seq!["list"@, j.target_dataset]))
        } else {
            StepView::Fail(ErrorView::VmNotFound(j.source))
        },
        CloneStageView::TargetExists => if exists_from(o) {
            StepView::Fail(ErrorView::Config("Target VM '"@ + j.target + "' already exists"@))
        } else {
            StepView::Run(
                CloneStageView::Snapshot,
                zfs_cmd(seq!["snapshot"@, "-r"@, clone_snapshot(j)]),
            )
        },
        CloneStageView::Snapshot => match o {
            OutcomeView::SpawnFailed(e) => StepView::Fail(ErrorView::Io(e)),
            OutcomeView::Ran { success, .. } => if !success {
                StepView::Fail(
                    ErrorView::ZfsError(
                        if j.linked {
                            "Failed to create snapshot for clone"@
                        } else {
                            "Failed to create temporary snapshot"@
                        },
                    ),
                )
            } else if j.linked {
                StepView::Run(
                    CloneStageView::Clone,
                    zfs_cmd(seq!["clone"@, clone_snapshot(j), j.target_dataset]),
                )
            } else {
                StepView::Run(
                    CloneStageView::SendReceive,
                    send_receive_cmd(clone_snapshot(j), j.target_dataset),
                )
            },
        },
        CloneStageView::Clone => match o {
            OutcomeView::SpawnFailed(e) => StepView::Fail(ErrorView::Io(e)),
            OutcomeView::Ran { success, stderr, .. } => if success {
                StepView::Run(
                    CloneStageView::CloneDisk,
                    zfs_cmd(
                        seq!["clone"@, clone_disk_snapshot(j), child(j.target_dataset, "disk"@)],
                    ),
                )
            } else {
                StepView::Fail(ErrorView::ZfsError("Failed to create linked clone: "@ + stderr))
            },
        },
        CloneStageView::CloneDisk => match o {
            OutcomeView::SpawnFailed(e) => StepView::Fail(ErrorView::Io(e)),
            OutcomeView::Ran { success, stderr, .. } => if success {
                StepView::Done
            } else {
                StepView::Fail(ErrorView::ZfsError("Failed to create linked clone: "@ + stderr))
            },
        },
        CloneStageView::SendReceive => match o {
            OutcomeView::SpawnFailed(e) => StepView::Fail(ErrorView::Io(e)),
            OutcomeView::Ran { success, stderr, .. } => StepView::Run(
                CloneStageView::DropTemp(
                    if success {
                        None
                    } else {
                        Some(stderr)
                    },
                ),
                zfs_cmd(seq!["destroy"@, "-r"@, clone_snapshot(j)]),
            ),
        },
        CloneStageView::DropTemp(failed) => match failed {
            None => StepView::Done,
            Some(err) => StepView::Run(
                CloneStageView::DropPartial(err),
                zfs_cmd(seq!["destroy"@, "-r"@, j.target_dataset]),
            ),
        },
        CloneStageView::DropPartial(err) => StepView::Fail(
            ErrorView::ZfsError("Failed to create full clone: "@ + err),
        ),
    }
}

/// How many steps a clone has left at most, from a stage.
pub open spec fn clone_rank(s: CloneStageView) -> nat {
    match s {
        CloneStageView::SourceExists => 6,
        CloneStageView::TargetExists => 5,
        CloneStageView::Snapshot => 4,
        CloneStageView::SendReceive => 3,
        CloneStageView::DropTemp(_) => 2,
        CloneStageView::Clone => 2,
        CloneStageView::CloneDisk => 1,
        CloneStageView::DropPartial(_) => 1,
    }
}

impl CloneJob {
    /// The first step of the clone.
    pub fn start(&self) -> (s: Step<CloneStage>)
        ensures
            s@ == clone_start(self@),
    {
        Step::Run(CloneStage::SourceExists, zfs1("list", self.source_dataset.as_str()))
    }

    fn snapshot_in(&self, dataset: &str) -> (r: String)
        ensures
            r@ == snapshot_of(dataset@, clone_snapshot_name(self@)),
    {
        if self.linked {
            stamped_snapshot(dataset, "clone-", self.stamp)
        } else {
            stamped_snapshot(dataset, "temp-clone-", self.stamp)
        }
    }

    /// What follows the outcome of the command of a stage.
    pub fn next(&self, stage: CloneStage, o: &Outcome) -> (s: Step<CloneStage>)
        ensures
            s@ == clone_next(self@, stage@, o@),
    {
        match stage {
            CloneStage::SourceExists => {
                if crate::infrastructure::zfs::dataset_exists_from(o) {
                    Step::Run(CloneStage::TargetExists, zfs1("list", self.target_dataset.as_str()))
                } else {
                    Step::Fail(VelnError::VmNotFound(self.source.clone()))
                }
            },
            CloneStage::TargetExists => {
                if crate::infrastructure::zfs::dataset_exists_from(o) {
                    Step::Fail(
                        VelnError::Config(
                            quoted("Target VM '", self.target.as_str(), "' already exists"),
                        ),
                    )
                } else {
                    let snap = self.snapshot_in(self.source_dataset.as_str());
                    Step::Run(CloneStage::Snapshot, zfs2("snapshot", "-r", snap.as_str()))
                }
            },
            CloneStage::Snapshot => match o {
                Outcome::SpawnFailed(e) => Step::Fail(io_error(e)),
                Outcome::Ran { success, .. } => {
                    if !*success {
                        if self.linked {
                            Step::Fail(
                                VelnError::ZfsError("Failed to create snapshot for clone".to_owned()),
                            )
                        } else {
                            Step::Fail(
                                VelnError::ZfsError("Failed to create temporary snapshot".to_owned()),
                            )
                        }
                    } else {
                        let snap = self.snapshot_in(self.source_dataset.as_str());
                        if self.linked {
                            Step::Run(
                                CloneStage::Clone,
                                zfs2("clone", snap.as_str(), self.target_dataset.as_str()),
                            )
                        } else {
                            Step::Run(
                                CloneStage::SendReceive,
                                send_receive(snap.as_str(), self.target_dataset.as_str()),
                            )
                        }
                    }
                },
            },
            CloneStage::Clone => match o {
                Outcome::SpawnFailed(e) => Step::Fail(io_error(e)),
                Outcome::Ran { success, stderr, .. } => {
                    if *success {
                        let disk = child_dataset(self.source_dataset.as_str(), "disk");
                        let snap = self.snapshot_in(disk.as_str());
                        let target = child_dataset(self.target_dataset.as_str(), "disk");
                        Step::Run(CloneStage::CloneDisk, zfs2("clone", snap.as_str(), target.as_str()))
                    } else {
                        Step::Fail(
                            VelnError::ZfsError(message("Failed to create linked clone: ", stderr)),
                        )
                    }
                },
            },
            CloneStage::CloneDisk => match o {
                Outcome::SpawnFailed(e) => Step::Fail(io_error(e)),
                Outcome::Ran { success, stderr, .. } => {
                    if *success {
                        Step::Done
                    } else {
                        Step::Fail(
                            VelnError::ZfsError(message("Failed to create linked clone: ", stderr)),
                        )
                    }
                },
            },
            CloneStage::SendReceive => match o {
                Outcome::SpawnFailed(e) => Step::Fail(io_error(e)),
                Outcome::Ran { success, stderr, .. } => {
                    let snap = self.snapshot_in(self.source_dataset.as_str());
                    let failed = if *success {
                        None
                    } else {
                        Some(stderr.clone())
                    };
                    Step::Run(CloneStage::DropTemp(failed), zfs2("destroy", "-r", snap.as_str()))
                },
            },
            CloneStage::DropTemp(failed) => match failed {
                None => Step::Done,
                Some(err) => Step::Run(
                    CloneStage::DropPartial(err),
                    zfs2("destroy", "-r", self.target_dataset.as_str()),
                ),
            },
            CloneStage::DropPartial(err) => Step::Fail(
                VelnError::ZfsError(message("Failed to create full clone: ", &err)),
            ),
        }
    }
}

// ---------------------------------------------------------------------------
// Deploying a VM from a template
// ---------------------------------------------------------------------------
/// A VM made from a template, with the template's disk: a linked clone of
/// the template's `@template` snapshots when it has them, else of new
/// snapshots `@deploy-<stamp>`; or a full copy (`zfs send -R | zfs receive`)
/// of such new snapshots, which are removed afterwards.
pub struct DeployJob {
    pub template: String,
    pub vm: String,
    pub template_dataset: String,
    pub target_dataset: String,
    pub linked: bool,
    pub stamp: u64,
}

/// The model of a deployment.
pub struct DeployJobView {
    pub template: Seq<char>,
    pub vm: Seq<char>,
    pub template_dataset: Seq<char>,
    pub target_dataset: Seq<char>,
    pub linked: bool,
    pub stamp: nat,
}

impl View for DeployJob {
    type V = DeployJobView;

    open spec fn view(&self) -> DeployJobView {
        DeployJobView {
            template: self.template@,
            vm: self.vm@,
            template_dataset: self.template_dataset@,
            target_dataset: self.target_dataset@,
            linked: self.linked,
            stamp: self.stamp as nat,
        }
    }
}

/// What a deployment waits for: whether the template exists, whether the
/// VM exists, whether the template has its `@template` snapshot, the clone
/// of that snapshot and then of the disk's, a new recursive snapshot for a
/// linked clone, the clone of it and then of the disk's, the removal of the
/// new snapshots after a failed clone (with the clone's error output), a new
/// recursive snapshot for a full copy, the copy, the removal of its
/// snapshots (with the copy's error output when it failed), and the removal
/// of a partial copy (with that output).
pub enum DeployStage {
    TemplateExists,
    TargetExists,
    TemplateSnapshot,
    CloneKept,
    CloneKeptDisk,
    LinkedSnapshot,
    CloneNew,
    CloneNewDisk,
    DropAfterClone(String),
    CopySnapshot,
    SendReceive,
    DropTemp(Option<String>),
    DropPartial(String),
}

/// The model of a deployment's stage.
pub enum DeployStageView {
    TemplateExists,
    TargetExists,
    TemplateSnapshot,
    CloneKept,
    CloneKeptDisk,
    LinkedSnapshot,
    CloneNew,
    CloneNewDisk,
    DropAfterClone(Seq<char>),
    CopySnapshot,
    SendReceive,
    DropTemp(Option<Seq<char>>),
    DropPartial(Seq<char>),
}

impl View for DeployStage {
    type V = DeployStageView;

    open spec fn view(&self) -> DeployStageView {
        match self {
            DeployStage::TemplateExists => DeployStageView::TemplateExists,
            DeployStage::TargetExists => DeployStageView::TargetExists,
            DeployStage::TemplateSnapshot => DeployStageView::TemplateSnapshot,
            DeployStage::CloneKept => DeployStageView::CloneKept,
            DeployStage::CloneKeptDisk => DeployStageView::CloneKeptDisk,
            DeployStage::LinkedSnapshot => DeployStageView::LinkedSnapshot,
            DeployStage::CloneNew => DeployStageView::CloneNew,
            DeployStage::CloneNewDisk => DeployStageView::CloneNewDisk,
            DeployStage::DropAfterClone(e) => DeployStageView::DropAfterClone(e@),
            DeployStage::CopySnapshot => DeployStageView::CopySnapshot,
            DeployStage::SendReceive => DeployStageView::SendReceive,
            DeployStage::DropTemp(f) => DeployStageView::DropTemp(
                match f {
                    Some(e) => Some(e@),
                    None => None,
                },
            ),
            DeployStage::DropPartial(e) => DeployStageView::DropPartial(e@),
        }
    }
}

/// The snapshot that templates keep for linked clones: `<template>@template`.
pub open spec fn kept_snapshot(j: DeployJobView) -> Seq<char> {
    snapshot_of(j.template_dataset, "template"@)
}

/// A new snapshot of the template for one deployment: `<template>@deploy-<stamp>`.
pub open spec fn deploy_snapshot(j: DeployJobView) -> Seq<char> {
    snapshot_of(j.template_dataset, "deploy-"@ + dec(j.stamp))
}

/// The kept snapshot of the template's disk: `<template>/disk@template`.
pub open spec fn kept_disk_snapshot(j: DeployJobView) -> Seq<char> {
    snapshot_of(child(j.template_dataset, "disk"@), "template"@)
}

/// The new snapshot of the template's disk: `<template>/disk@deploy-<stamp>`.
pub open spec fn deploy_disk_snapshot(j: DeployJobView) -> Seq<char> {
    snapshot_of(child(j.template_dataset, "disk"@), "deploy-"@ + dec(j.stamp))
}

/// The first step of a deployment: does the template exist?
pub open spec fn deploy_start(j: DeployJobView) -> StepView<DeployStageView> {
    StepView::Run(DeployStageView::TemplateExists, zfs_cmd(seq!["list"@, j.template_dataset]))
}

/// What follows an outcome in a deployment. The VM is made with the
/// template's disk: new snapshots are recursive, a linked clone clones the
/// dataset and then the disk below it, and a full copy sends the snapshots
/// recursively. The new snapshots are taken without looking at whether
/// `zfs snapshot` succeeded: a missing snapshot shows in the clone or copy
/// that follows.
pub open spec fn deploy_next(
    j: DeployJobView,
    s: DeployStageView,
    o: OutcomeView,
) -> StepView<DeployStageView> {
    match s {
        DeployStageView::TemplateExists => if exists_from(o) {
            StepView::Run(DeployStageView::TargetExists, zfs_cmd(seq!["list"@, j.target_dataset]))
        } else {
            StepView::Fail(ErrorView::VmNotFound("Template '"@ + j.template + "' not found"@))
        },
        DeployStageView::TargetExists => if exists_from(o) {
            StepView::Fail(ErrorView::Config("VM '"@ + j.vm + "' already exists"@))
        } else if j.linked {
            StepView::Run(
                DeployStageView::TemplateSnapshot,
                zfs_cmd(seq!["list"@, "-t"@, "snapshot"@, kept_snapshot(j)]),
            )
        } else {
            StepView::Run(
                DeployStageView::CopySnapshot,
                zfs_cmd(seq!["snapshot"@, "-r"@, deploy_snapshot(j)]),
            )
        },
        DeployStageView::TemplateSnapshot => match o {
            OutcomeView::SpawnFailed(e) => StepView::Fail(ErrorView::Io(e)),
            OutcomeView::Ran { success, .. } => if success {
                StepView::Run(
                    DeployStageView::CloneKept,
                    zfs_cmd(seq!["clone"@, kept_snapshot(j), j.target_dataset]),
                )
            } else {
                StepView::Run(
                    DeployStageView::LinkedSnapshot,
                    zfs_cmd(seq!["snapshot"@, "-r"@, deploy_snapshot(j)]),
                )
            },
        },
        DeployStageView::CloneKept => match o {
            OutcomeView::SpawnFailed(e) => StepView::Fail(ErrorView::Io(e)),
            OutcomeView::Ran { success, stderr, .. } => if success {
                StepView::Run(
                    DeployStageView::CloneKeptDisk,
                    zfs_cmd(
                        seq!["clone"@, kept_disk_snapshot(j), child(j.target_dataset, "disk"@)],
                    ),
                )
            } else {
                StepView::Fail(ErrorView::ZfsError("Failed to deploy linked clone: "@ + stderr))
            },
        },
        DeployStageView::CloneKeptDisk => match o {
            OutcomeView::SpawnFailed(e) => StepView::Fail(ErrorView::Io(e)),
            OutcomeView::Ran { success, stderr, .. } => if success {
                StepView::Done
            } else {
                StepView::Fail(ErrorView::ZfsError("Failed to deploy linked clone: "@ + stderr))
            },
        },
        DeployStageView::LinkedSnapshot => match o {
            OutcomeView::SpawnFailed(e) => StepView::Fail(ErrorView::Io(e)),
            OutcomeView::Ran { .. } => StepView::Run(
                DeployStageView::CloneNew,
                zfs_cmd(seq!["clone"@, deploy_snapshot(j), j.target_dataset]),
            ),
        },
        DeployStageView::CloneNew => match o {
            OutcomeView::SpawnFailed(e) => StepView::Fail(ErrorView::Io(e)),
            OutcomeView::Ran { success, stderr, .. } => if success {
                StepView::Run(
                    DeployStageView::CloneNewDisk,
                    zfs_cmd(
                        seq!["clone"@, deploy_disk_snapshot(j), child(j.target_dataset, "disk"@)],
                    ),
                )
            } else {
                StepView::Run(
                    DeployStageView::DropAfterClone(stderr),
                    zfs_cmd(seq!["destroy"@, "-r"@, deploy_snapshot(j)]),
                )
            },
        },
        DeployStageView::CloneNewDisk => match o {
            OutcomeView::SpawnFailed(e) => StepView::Fail(ErrorView::Io(e)),
            OutcomeView::Ran { success, stderr, .. } => if success {
                StepView::Done
            } else {
                StepView::Run(
                    DeployStageView::DropAfterClone(stderr),
                    zfs_cmd(seq!["destroy"@, "-r"@, deploy_snapshot(j)]),
                )
            },
        },
        DeployStageView::DropAfterClone(err) => StepView::Fail(
            ErrorView::ZfsError("Failed to deploy linked clone: "@ + err),
        ),
        DeployStageView::CopySnapshot => match o {
            OutcomeView::SpawnFailed(e) => StepView::Fail(ErrorView::Io(e)),
            OutcomeView::Ran { .. } => StepView::Run(
                DeployStageView::SendReceive,
                send_receive_cmd(deploy_snapshot(j), j.target_dataset),
            ),
        },
        DeployStageView::SendReceive => match o {
            OutcomeView::SpawnFailed(e) => StepView::Fail(ErrorView::Io(e)),
            OutcomeView::Ran { success, stderr, .. } => StepView::Run(
                DeployStageView::DropTemp(
                    if success {
                        None
                    } else {
                        Some(stderr)
                    },
                ),
                zfs_cmd(seq!["destroy"@, "-r"@, deploy_snapshot(j)]),
            ),
        },
        DeployStageView::DropTemp(failed) => match failed {
            None => StepView::Done,
            Some(err) => StepView::Run(
                DeployStageView::DropPartial(err),
                zfs_cmd(seq!["destroy"@, "-r"@, j.target_dataset]),
            ),
        },
        DeployStageView::DropPartial(err) => StepView::Fail(
            ErrorView::ZfsError("Failed to deploy full clone: "@ + err),
        ),
    }
}

/// How many steps a deployment has left at most, from a stage.
pub open spec fn deploy_rank(s: DeployStageView) -> nat {
    match s {
        DeployStageView::TemplateExists => 7,
        DeployStageView::TargetExists => 6,
        DeployStageView::TemplateSnapshot => 5,
        DeployStageView::LinkedSnapshot => 4,
        DeployStageView::CloneNew => 3,
        DeployStageView::CloneNewDisk => 2,
        DeployStageView::CloneKept => 2,
        DeployStageView::CloneKeptDisk => 1,
        DeployStageView::DropAfterClone(_) => 1,
        DeployStageView::CopySnapshot => 4,
        DeployStageView::SendReceive => 3,
        DeployStageView::DropTemp(_) => 2,
        DeployStageView::DropPartial(_) => 1,
    }
}

impl DeployJob {
    /// The first step of the deployment.
    pub fn start(&self) -> (s: Step<DeployStage>)
        ensures
            s@ == deploy_start(self@),
    {
        Step::Run(DeployStage::TemplateExists, zfs1("list", self.template_dataset.as_str()))
    }

    fn kept(&self) -> (r: String)
        ensures
            r@ == kept_snapshot(self@),
    {
        snapshot_name(self.template_dataset.as_str(), "template")
    }

    fn fresh(&self) -> (r: String)
        ensures
            r@ == deploy_snapshot(self@),
    {
        stamped_snapshot(self.template_dataset.as_str(), "deploy-", self.stamp)
    }

    /// The disks of the template and of the new VM.
    fn disks(&self) -> (r: (String, String))
        ensures
            r.0@ == child(self.template_dataset@, "disk"@),
            r.1@ == child(self.target_dataset@, "disk"@),
    {
        (
            child_dataset(self.template_dataset.as_str(), "disk"),
            child_dataset(self.target_dataset.as_str(), "disk"),
        )
    }

    /// What follows the outcome of the command of a stage.
    pub fn next(&self, stage: DeployStage, o: &Outcome) -> (s: Step<DeployStage>)
        ensures
            s@ == deploy_next(self@, stage@, o@),
    {
        match stage {
            DeployStage::TemplateExists => {
                if crate::infrastructure::zfs::dataset_exists_from(o) {
                    Step::Run(DeployStage::TargetExists, zfs1("list", self.target_dataset.as_str()))
                } else {
                    Step::Fail(
                        VelnError::VmNotFound(
                            quoted("Template '", self.template.as_str(), "' not found"),
                        ),
                    )
                }
            },
            DeployStage::TargetExists => {
                if crate::infrastructure::zfs::dataset_exists_from(o) {
                    Step::Fail(
                        VelnError::Config(quoted("VM '", self.vm.as_str(), "' already exists")),
                    )
                } else if self.linked {
                    let kept = self.kept();
                    Step::Run(DeployStage::TemplateSnapshot, zfs_list_snapshot(kept.as_str()))
                } else {
                    let snap = self.fresh();
                    Step::Run(DeployStage::CopySnapshot, zfs2("snapshot", "-r", snap.as_str()))
                }
            },
            DeployStage::TemplateSnapshot => match o {
                Outcome::SpawnFailed(e) => Step::Fail(io_error(e)),
                Outcome::Ran { success, .. } => {
                    if *success {
                        let kept = self.kept();
                        Step::Run(
                            DeployStage::CloneKept,
                            zfs2("clone", kept.as_str(), self.target_dataset.as_str()),
                        )
                    } else {
                        let snap = self.fresh();
                        Step::Run(DeployStage::LinkedSnapshot, zfs2("snapshot", "-r", snap.as_str()))
                    }
                },
            },
            DeployStage::CloneKept => match o {
                Outcome::SpawnFailed(e) => Step::Fail(io_error(e)),
                Outcome::Ran { success, stderr, .. } => {
                    if *success {
                        let (disk, target) = self.disks();
                        let snap = snapshot_name(disk.as_str(), "template");
                        Step::Run(
                            DeployStage::CloneKeptDisk,
                            zfs2("clone", snap.as_str(), target.as_str()),
                        )
                    } else {
                        Step::Fail(
                            VelnError::ZfsError(message("Failed to deploy linked clone: ", stderr)),
                        )
                    }
                },
            },
            DeployStage::CloneKeptDisk => match o {
                Outcome::SpawnFailed(e) => Step::Fail(io_error(e)),
                Outcome::Ran { success, stderr, .. } => {
                    if *success {
                        Step::Done
                    } else {
                        Step::Fail(
                            VelnError::ZfsError(message("Failed to deploy linked clone: ", stderr)),
                        )
                    }
                },
            },
            DeployStage::LinkedSnapshot => match o {
                Outcome::SpawnFailed(e) => Step::Fail(io_error(e)),
                Outcome::Ran { .. } => {
                    let snap = self.fresh();
                    Step::Run(
                        DeployStage::CloneNew,
                        zfs2("clone", snap.as_str(), self.target_dataset.as_str()),
                    )
                },
            },
            DeployStage::CloneNew => match o {
                Outcome::SpawnFailed(e) => Step::Fail(io_error(e)),
                Outcome::Ran { success, stderr, .. } => {
                    if *success {
                        let (disk, target) = self.disks();
                        let snap = stamped_snapshot(disk.as_str(), "deploy-", self.stamp);
                        Step::Run(
                            DeployStage::CloneNewDisk,
                            zfs2("clone", snap.as_str(), target.as_str()),
                        )
                    } else {
                        let snap = self.fresh();
                        Step::Run(
                            DeployStage::DropAfterClone(stderr.clone()),
                            zfs2("destroy", "-r", snap.as_str()),
                        )
                    }
                },
            },
            DeployStage::CloneNewDisk => match o {
                Outcome::SpawnFailed(e) => Step::Fail(io_error(e)),
                Outcome::Ran { success, stderr, .. } => {
                    if *success {
                        Step::Done
                    } else {
                        let snap = self.fresh();
                        Step::Run(
                            DeployStage::DropAfterClone(stderr.clone()),
                            zfs2("destroy", "-r", snap.as_str()),
                        )
                    }
                },
            },
            DeployStage::DropAfterClone(err) => Step::Fail(
                VelnError::ZfsError(message("Failed to deploy linked clone: ", &err)),
            ),
            DeployStage::CopySnapshot => match o {
                Outcome::SpawnFailed(e) => Step::Fail(io_error(e)),
                Outcome::Ran { .. } => {
                    let snap = self.fresh();
                    Step::Run(
                        DeployStage::SendReceive,
                        send_receive(snap.as_str(), self.target_dataset.as_str()),
                    )
                },
            },
            DeployStage::SendReceive => match o {
                Outcome::SpawnFailed(e) => Step::Fail(io_error(e)),
                Outcome::Ran { success, stderr, .. } => {
                    let snap = self.fresh();
                    let failed = if *success {
                        None
                    } else {
                        Some(stderr.clone())
                    };
                    Step::Run(DeployStage::DropTemp(failed), zfs2("destroy", "-r", snap.as_str()))
                },
            },
            DeployStage::DropTemp(failed) => match failed {
                None => Step::Done,
                Some(err) => Step::Run(
                    DeployStage::DropPartial(err),
                    zfs2("destroy", "-r", self.target_dataset.as_str()),
                ),
            },
            DeployStage::DropPartial(err) => Step::Fail(
                VelnError::ZfsError(message("Failed to deploy full clone: ", &err)),
            ),
        }
    }
}

// ---------------------------------------------------------------------------
// Making a template of a VM
// ---------------------------------------------------------------------------
/// A template made from a VM with its disk: a recursive snapshot
/// `@template-<stamp>` of the VM's dataset, whose dataset and disk are
/// cloned into the templates dataset, which is created when missing.
pub struct TemplateJob {
    pub vm: String,
    pub name: String,
    pub vm_dataset: String,
    pub templates_dataset: String,
    pub target_dataset: String,
    pub stamp: u64,
}

/// The model of a template's making.
pub struct TemplateJobView {
    pub vm: Seq<char>,
    pub name: Seq<char>,
    pub vm_dataset: Seq<char>,
    pub templates_dataset: Seq<char>,
    pub target_dataset: Seq<char>,
    pub stamp: nat,
}

impl View for TemplateJob {
    type V = TemplateJobView;

    open spec fn view(&self) -> TemplateJobView {
        TemplateJobView {
            vm: self.vm@,
            name: self.name@,
            vm_dataset: self.vm_dataset@,
            templates_dataset: self.templates_dataset@,
            target_dataset: self.target_dataset@,
            stamp: self.stamp as nat,
        }
    }
}

/// What the making of a template waits for: whether the VM exists, whether
/// the templates dataset exists, its creation, whether the template exists,
/// the recursive snapshot, and the clones of the VM's dataset and of its
/// disk.
#[derive(Debug, Clone, Copy, PartialEq, Eq, Structural)]
pub enum TemplateStage {
    VmExists,
    TemplatesExist,
    CreateTemplates,
    TargetExists,
    Snapshot,
    Clone,
    CloneDisk,
}

impl View for TemplateStage {
    type V = TemplateStage;

    open spec fn view(&self) -> TemplateStage {
        *self
    }
}

/// The snapshot a template is cloned from: `<vm>@template-<stamp>`.
pub open spec fn template_snapshot(j: TemplateJobView) -> Seq<char> {
    snapshot_of(j.vm_dataset, "template-"@ + dec(j.stamp))
}

/// The snapshot of the VM's disk a template's disk is cloned from:
/// `<vm>/disk@template-<stamp>`.
pub open spec fn template_disk_snapshot(j: TemplateJobView) -> Seq<char> {
    snapshot_of(child(j.vm_dataset, "disk"@), "template-"@ + dec(j.stamp))
}

/// The first step of making a template: does the VM exist?
pub open spec fn template_start(j: TemplateJobView) -> StepView<TemplateStage> {
    StepView::Run(TemplateStage::VmExists, zfs_cmd(seq!["list"@, j.vm_dataset]))
}

/// What follows an outcome in the making of a template.
pub open spec fn template_next(
    j: TemplateJobView,
    s: TemplateStage,
    o: OutcomeView,
) -> StepView<TemplateStage> {
    match s {
        TemplateStage::VmExists => if exists_from(o) {
            StepView::Run(TemplateStage::TemplatesExist, zfs_cmd(seq!["list"@, j.templates_dataset]))
        } else {
            StepView::Fail(ErrorView::VmNotFound(j.vm))
        },
        TemplateStage::TemplatesExist => if exists_from(o) {
            StepView::Run(TemplateStage::TargetExists, zfs_cmd(seq!["list"@, j.target_dataset]))
        } else {
            StepView::Run(
                TemplateStage::CreateTemplates,
                zfs_cmd(seq!["create"@, "-p"@, j.templates_dataset]),
            )
        },
        TemplateStage::CreateTemplates => match o {
            OutcomeView::SpawnFailed(e) => StepView::Fail(ErrorView::Io(e)),
            OutcomeView::Ran { success, stderr, .. } => if success {
                StepView::Run(TemplateStage::TargetExists, zfs_cmd(seq!["list"@, j.target_dataset]))
            } else {
                StepView::Fail(
                    ErrorView::ZfsError("Failed to create templates dataset: "@ + stderr),
                )
            },
        },
        TemplateStage::TargetExists => if exists_from(o) {
            StepView::Fail(ErrorView::Config("Template '"@ + j.name + "' already exists"@))
        } else {
            StepView::Run(
                TemplateStage::Snapshot,
                zfs_cmd(seq!["snapshot"@, "-r"@, template_snapshot(j)]),
            )
        },
        TemplateStage::Snapshot => match o {
            OutcomeView::SpawnFailed(e) => StepView::Fail(ErrorView::Io(e)),
            OutcomeView::Ran { success, .. } => if success {
                StepView::Run(
                    TemplateStage::Clone,
                    zfs_cmd(seq!["clone"@, template_snapshot(j), j.target_dataset]),
                )
            } else {
                StepView::Fail(ErrorView::ZfsError("Failed to create template snapshot"@))
            },
        },
        TemplateStage::Clone => match o {
            OutcomeView::SpawnFailed(e) => StepView::Fail(ErrorView::Io(e)),
            OutcomeView::Ran { success, stderr, .. } => if success {
                StepView::Run(
                    TemplateStage::CloneDisk,
                    zfs_cmd(
                        seq!["clone"@, template_disk_snapshot(j), child(j.target_dataset, "disk"@)],
                    ),
                )
            } else {
                StepView::Fail(ErrorView::ZfsError("Failed to create template: "@ + stderr))
            },
        },
        TemplateStage::CloneDisk => match o {
            OutcomeView::SpawnFailed(e) => StepView::Fail(ErrorView::Io(e)),
            OutcomeView::Ran { success, stderr, .. } => if success {
                StepView::Done
            } else {
                StepView::Fail(ErrorView::ZfsError("Failed to create template: "@ + stderr))
            },
        },
    }
}

/// How many steps the making of a template has left at most, from a stage.
pub open spec fn template_rank(s: TemplateStage) -> nat {
    match s {
        TemplateStage::VmExists => 7,
        TemplateStage::TemplatesExist => 6,
        TemplateStage::CreateTemplates => 5,
        TemplateStage::TargetExists => 4,
        TemplateStage::Snapshot => 3,
        TemplateStage::Clone => 2,
        TemplateStage::CloneDisk => 1,
    }
}

impl TemplateJob {
    /// The first step of making the template.
    pub fn start(&self) -> (s: Step<TemplateStage>)
        ensures
            s@ == template_start(self@),
    {
        Step::Run(TemplateStage::VmExists, zfs1("list", self.vm_dataset.as_str()))
    }

    /// What follows the outcome of the command of a stage.
    pub fn next(&self, stage: TemplateStage, o: &Outcome) -> (s: Step<TemplateStage>)
        ensures
            s@ == template_next(self@, stage, o@),
    {
        match stage {
            TemplateStage::VmExists => {
                if crate::infrastructure::zfs::dataset_exists_from(o) {
                    Step::Run(
                        TemplateStage::TemplatesExist,
                        zfs1("list", self.templates_dataset.as_str()),
                    )
                } else {
                    Step::Fail(VelnError::VmNotFound(self.vm.clone()))
                }
            },
            TemplateStage::TemplatesExist => {
                if crate::infrastructure::zfs::dataset_exists_from(o) {
                    Step::Run(TemplateStage::TargetExists, zfs1("list", self.target_dataset.as_str()))
                } else {
                    Step::Run(
                        TemplateStage::CreateTemplates,
                        zfs2("create", "-p", self.templates_dataset.as_str()),
                    )
                }
            },
            TemplateStage::CreateTemplates => match o {
                Outcome::SpawnFailed(e) => Step::Fail(io_error(e)),
                Outcome::Ran { success, stderr, .. } => {
                    if *success {
                        Step::Run(
                            TemplateStage::TargetExists,
                            zfs1("list", self.target_dataset.as_str()),
                        )
                    } else {
                        Step::Fail(
                            VelnError::ZfsError(
                                message("Failed to create templates dataset: ", stderr),
                            ),
                        )
                    }
                },
            },
            TemplateStage::TargetExists => {
                if crate::infrastructure::zfs::dataset_exists_from(o) {
                    Step::Fail(
                        VelnError::Config(
                            quoted("Template '", self.name.as_str(), "' already exists"),
                        ),
                    )
                } else {
                    let snap = stamped_snapshot(self.vm_dataset.as_str(), "template-", self.stamp);
                    Step::Run(TemplateStage::Snapshot, zfs2("snapshot", "-r", snap.as_str()))
                }
            },
            TemplateStage::Snapshot => match o {
                Outcome::SpawnFailed(e) => Step::Fail(io_error(e)),
                Outcome::Ran { success, .. } => {
                    if *success {
                        let snap = stamped_snapshot(
                            self.vm_dataset.as_str(),
                            "template-",
                            self.stamp,
                        );
                        Step::Run(
                            TemplateStage::Clone,
                            zfs2("clone", snap.as_str(), self.target_dataset.as_str()),
                        )
                    } else {
                        Step::Fail(
                            VelnError::ZfsError("Failed to create template snapshot".to_owned()),
                        )
                    }
                },
            },
            TemplateStage::Clone => match o {
                Outcome::SpawnFailed(e) => Step::Fail(io_error(e)),
                Outcome::Ran { success, stderr, .. } => {
                    if *success {
                        let disk = child_dataset(self.vm_dataset.as_str(), "disk");
                        let snap = stamped_snapshot(disk.as_str(), "template-", self.stamp);
                        let target = child_dataset(self.target_dataset.as_str(), "disk");
                        Step::Run(
                            TemplateStage::CloneDisk,
                            zfs2("clone", snap.as_str(), target.as_str()),
                        )
                    } else {
                        Step::Fail(
                            VelnError::ZfsError(message("Failed to create template: ", stderr)),
                        )
                    }
                },
            },
            TemplateStage::CloneDisk => match o {
                Outcome::SpawnFailed(e) => Step::Fail(io_error(e)),
                Outcome::Ran { success, stderr, .. } => {
                    if *success {
                        Step::Done
                    } else {
                        Step::Fail(
                            VelnError::ZfsError(message("Failed to create template: ", stderr)),
                        )
                    }
                },
            },
        }
    }
}

// ---------------------------------------------------------------------------
// Snapshots of a VM's disk
// ---------------------------------------------------------------------------
/// What is done with a snapshot of a VM's disk: create it (with a comment
/// kept in the user property `veln:comment:<snapshot>` of the disk), roll
/// the disk back to it (forced: destroying newer snapshots), or delete it.
pub enum SnapshotAction {
    Create(Option<String>),
    Rollback(bool),
    Delete,
}

/// The model of a snapshot action.
pub enum SnapshotActionView {
    Create(Option<Seq<char>>),
    Rollback(bool),
    Delete,
}

impl View for SnapshotAction {
    type V = SnapshotActionView;

    open spec fn view(&self) -> SnapshotActionView {
        match self {
            SnapshotAction::Create(c) => SnapshotActionView::Create(
                match c {
                    Some(t) => Some(t@),
                    None => None,
                },
            ),
            SnapshotAction::Rollback(f) => SnapshotActionView::Rollback(*f),
            SnapshotAction::Delete => SnapshotActionView::Delete,
        }
    }
}

/// An action on the snapshot `snapshot` of the disk of the VM `vm`.
pub struct SnapshotJob {
    pub vm: String,
    pub snapshot: String,
    pub disk_dataset: String,
    pub action: SnapshotAction,
}

/// The model of a snapshot job.
pub struct SnapshotJobView {
    pub vm: Seq<char>,
    pub snapshot: Seq<char>,
    pub disk_dataset: Seq<char>,
    pub action: SnapshotActionView,
}

impl View for SnapshotJob {
    type V = SnapshotJobView;

    open spec fn view(&self) -> SnapshotJobView {
        SnapshotJobView {
            vm: self.vm@,
            snapshot: self.snapshot@,
            disk_dataset: self.disk_dataset@,
            action: self.action@,
        }
    }
}

/// What a snapshot job waits for: whether the snapshot exists, the action,
/// and the setting of the comment.
#[derive(Debug, Clone, Copy, PartialEq, Eq, Structural)]
pub enum SnapshotStage {
    Exists,
    Act,
    SetComment,
}

impl View for SnapshotStage {
    type V = SnapshotStage;

    open spec fn view(&self) -> SnapshotStage {
        *self
    }
}

/// The full name of the job's snapshot: `<disk>@<snapshot>`.
pub open spec fn job_snapshot(j: SnapshotJobView) -> Seq<char> {
    snapshot_of(j.disk_dataset, j.snapshot)
}

/// The command of the action.
pub open spec fn snapshot_action_cmd(j: SnapshotJobView) -> CommandView {
    match j.action {
        SnapshotActionView::Create(_) => zfs_cmd(seq!["snapshot"@, job_snapshot(j)]),
        SnapshotActionView::Rollback(force) => if force {
            zfs_cmd(seq!["rollback"@, "-r"@, job_snapshot(j)])
        } else {
            zfs_cmd(seq!["rollback"@, job_snapshot(j)])
        },
        SnapshotActionView::Delete => zfs_cmd(seq!["destroy"@, job_snapshot(j)]),
    }
}

/// The message of a failed action, before the error output.
pub open spec fn snapshot_failure(a: SnapshotActionView) -> Seq<char> {
    match a {
        SnapshotActionView::Create(_) => "Failed to create snapshot: "@,
        SnapshotActionView::Rollback(_) => "Failed to rollback snapshot: "@,
        SnapshotActionView::Delete => "Failed to delete snapshot: "@,
    }
}

/// The first step of a snapshot job: does the snapshot exist?
pub open spec fn snapshot_start(j: SnapshotJobView) -> StepView<SnapshotStage> {
    StepView::Run(
        SnapshotStage::Exists,
        zfs_cmd(seq!["list"@, "-t"@, "snapshot"@, job_snapshot(j)]),
    )
}

/// What follows an outcome in a snapshot job. A snapshot is created only
/// where there is none, and rolled back to or deleted only where there is
/// one; the comment is set without looking at the answer.
pub open spec fn snapshot_next(
    j: SnapshotJobView,
    s: SnapshotStage,
    o: OutcomeView,
) -> StepView<SnapshotStage> {
    match o {
        OutcomeView::SpawnFailed(e) => if s == SnapshotStage::SetComment {
            StepView::Done
        } else {
            StepView::Fail(ErrorView::Io(e))
        },
        OutcomeView::Ran { success, stderr, .. } => match s {
            SnapshotStage::Exists => match j.action {
                SnapshotActionView::Create(_) => if success {
                    StepView::Fail(
                        ErrorView::ZfsError(
                            "Snapshot '"@ + j.snapshot + "' already exists for VM '"@ + j.vm
                                + "'"@,
                        ),
                    )
                } else {
                    StepView::Run(SnapshotStage::Act, snapshot_action_cmd(j))
                },
                _ => if success {
                    StepView::Run(SnapshotStage::Act, snapshot_action_cmd(j))
                } else {
                    StepView::Fail(
                        ErrorView::VmNotFound(
                            "Snapshot '"@ + j.snapshot + "' not found for VM '"@ + j.vm + "'"@,
                        ),
                    )
                },
            },
            SnapshotStage::Act => if !success {
                StepView::Fail(ErrorView::ZfsError(snapshot_failure(j.action) + stderr))
            } else {
                match j.action {
                    SnapshotActionView::Create(Some(c)) => StepView::Run(
                        SnapshotStage::SetComment,
                        zfs_cmd(
                            seq![
                                "set"@,
                                "veln:comment:"@ + j.snapshot + "="@ + c,
                                j.disk_dataset,
                            ],
                        ),
                    ),
                    _ => StepView::Done,
                }
            },
            SnapshotStage::SetComment => StepView::Done,
        },
    }
}

impl SnapshotJob {
    fn full_name(&self) -> (r: String)
        ensures
            r@ == job_snapshot(self@),
    {
        snapshot_name(self.disk_dataset.as_str(), self.snapshot.as_str())
    }

    fn action_command(&self) -> (c: Command)
        ensures
            c@ == snapshot_action_cmd(self@),
    {
        let full = self.full_name();
        match &self.action {
            SnapshotAction::Create(_) => zfs1("snapshot", full.as_str()),
            SnapshotAction::Rollback(force) => {
                if *force {
                    zfs2("rollback", "-r", full.as_str())
                } else {
                    zfs1("rollback", full.as_str())
                }
            },
            SnapshotAction::Delete => zfs1("destroy", full.as_str()),
        }
    }

    /// The first step of the job.
    pub fn start(&self) -> (s: Step<SnapshotStage>)
        ensures
            s@ == snapshot_start(self@),
    {
        let full = self.full_name();
        Step::Run(SnapshotStage::Exists, zfs_list_snapshot(full.as_str()))
    }

    /// What follows the outcome of the command of a stage.
    pub fn next(&self, stage: SnapshotStage, o: &Outcome) -> (s: Step<SnapshotStage>)
        ensures
            s@ == snapshot_next(self@, stage, o@),
    {
        match o {
            Outcome::SpawnFailed(e) => {
                if stage == SnapshotStage::SetComment {
                    Step::Done
                } else {
                    Step::Fail(io_error(e))
                }
            },
            Outcome::Ran { success, stderr, .. } => match stage {
                SnapshotStage::Exists => {
                    let creating = match &self.action {
                        SnapshotAction::Create(_) => true,
                        _ => false,
                    };
                    if creating && *success {
                        let mut m = "Snapshot '".to_owned();
                        m.append(self.snapshot.as_str());
                        m.append("' already exists for VM '");
                        m.append(self.vm.as_str());
                        m.append("'");
                        Step::Fail(VelnError::ZfsError(m))
                    } else if !creating && !*success {
                        let mut m = "Snapshot '".to_owned();
                        m.append(self.snapshot.as_str());
                        m.append("' not found for VM '");
                        m.append(self.vm.as_str());
                        m.append("'");
                        Step::Fail(VelnError::VmNotFound(m))
                    } else {
                        Step::Run(SnapshotStage::Act, self.action_command())
                    }
                },
                SnapshotStage::Act => {
                    if !*success {
                        let m = match &self.action {
                            SnapshotAction::Create(_) => message(
                                "Failed to create snapshot: ",
                                stderr,
                            ),
                            SnapshotAction::Rollback(_) => message(
                                "Failed to rollback snapshot: ",
                                stderr,
                            ),
                            SnapshotAction::Delete => message("Failed to delete snapshot: ", stderr),
                        };
                        Step::Fail(VelnError::ZfsError(m))
                    } else {
                        match &self.action {
                            SnapshotAction::Create(Some(c)) => {
                                let mut prop = "veln:comment:".to_owned();
                                prop.append(self.snapshot.as_str());
                                prop.append("=");
                                prop.append(c.as_str());
                                Step::Run(
                                    SnapshotStage::SetComment,
                                    zfs2("set", prop.as_str(), self.disk_dataset.as_str()),
                                )
                            },
                            _ => Step::Done,
                        }
                    }
                },
                SnapshotStage::SetComment => Step::Done,
            },
        }
    }
}

/// Removing a dataset with what it holds (`zfs destroy -r`): a VM, or a
/// template. The missing dataset and the failures are told apart by the
/// messages of the kind of dataset.
pub struct RemovalJob {
    pub name: String,
    pub dataset: String,
    pub template: bool,
}

/// The model of a removal.
pub struct RemovalJobView {
    pub name: Seq<char>,
    pub dataset: Seq<char>,
    pub template: bool,
}

impl View for RemovalJob {
    type V = RemovalJobView;

    open spec fn view(&self) -> RemovalJobView {
        RemovalJobView { name: self.name@, dataset: self.dataset@, template: self.template }
    }
}

/// What a removal waits for: whether the dataset exists, and its removal.
#[derive(Debug, Clone, Copy, PartialEq, Eq, Structural)]
pub enum RemovalStage {
    Exists,
    Destroy,
}

impl View for RemovalStage {
    type V = RemovalStage;

    open spec fn view(&self) -> RemovalStage {
        *self
    }
}

/// The first step of a removal: does the dataset exist?
pub open spec fn removal_start(j: RemovalJobView) -> StepView<RemovalStage> {
    StepView::Run(RemovalStage::Exists, zfs_cmd(seq!["list"@, j.dataset]))
}

/// What follows an outcome in a removal.
pub open spec fn removal_next(j: RemovalJobView, s: RemovalStage, o: OutcomeView) -> StepView<
    RemovalStage,
> {
    match s {
        RemovalStage::Exists => if exists_from(o) {
            StepView::Run(RemovalStage::Destroy, zfs_cmd(seq!["destroy"@, "-r"@, j.dataset]))
        } else if j.template {
            StepView::Fail(ErrorView::VmNotFound("Template '"@ + j.name + "' not found"@))
        } else {
            StepView::Fail(ErrorView::VmNotFound(j.name))
        },
        RemovalStage::Destroy => match o {
            OutcomeView::SpawnFailed(e) => if j.template {
                StepView::Fail(ErrorView::Io(e))
            } else {
                StepView::Fail(ErrorView::ZfsError("Failed to destroy dataset: "@ + e))
            },
            OutcomeView::Ran { success, stderr, .. } => if success {
                StepView::Done
            } else if j.template {
                StepView::Fail(ErrorView::ZfsError("Failed to delete template: "@ + stderr))
            } else {
                StepView::Fail(ErrorView::ZfsError("Failed to destroy dataset: "@ + stderr))
            },
        },
    }
}

impl RemovalJob {
    /// The first step of the removal.
    pub fn start(&self) -> (s: Step<RemovalStage>)
        ensures
            s@ == removal_start(self@),
    {
        Step::Run(RemovalStage::Exists, zfs1("list", self.dataset.as_str()))
    }

    /// What follows the outcome of the command of a stage.
    pub fn next(&self, stage: RemovalStage, o: &Outcome) -> (s: Step<RemovalStage>)
        ensures
            s@ == removal_next(self@, stage, o@),
    {
        match stage {
            RemovalStage::Exists => {
                if crate::infrastructure::zfs::dataset_exists_from(o) {
                    Step::Run(RemovalStage::Destroy, zfs2("destroy", "-r", self.dataset.as_str()))
                } else if self.template {
                    Step::Fail(
                        VelnError::VmNotFound(quoted("Template '", self.name.as_str(), "' not found")),
                    )
                } else {
                    Step::Fail(VelnError::VmNotFound(self.name.clone()))
                }
            },
            RemovalStage::Destroy => match o {
                Outcome::SpawnFailed(e) => {
                    if self.template {
                        Step::Fail(io_error(e))
                    } else {
                        Step::Fail(VelnError::ZfsError(message("Failed to destroy dataset: ", e)))
                    }
                },
                Outcome::Ran { success, stderr, .. } => {
                    if *success {
                        Step::Done
                    } else if self.template {
                        Step::Fail(VelnError::ZfsError(message("Failed to delete template: ", stderr)))
                    } else {
                        Step::Fail(VelnError::ZfsError(message("Failed to destroy dataset: ", stderr)))
                    }
                },
            },
        }
    }
}

// ---------------------------------------------------------------------------
// The jobs of a repository
// ---------------------------------------------------------------------------
impl ZfsRepository {
    /// A clone of the VM `source` as the new VM `target`, with snapshots
    /// named by the time stamp.
    pub fn clone_job(&self, source: &str, target: &str, linked: bool, stamp: u64) -> (j: CloneJob)
        ensures
            j@ == (CloneJobView {
                source: source@,
                target: target@,
                source_dataset: child(self.root_dataset(), source@),
                target_dataset: child(self.root_dataset(), target@),
                linked,
                stamp: stamp as nat,
            }),
    {
        CloneJob {
            source: source.to_owned(),
            target: target.to_owned(),
            source_dataset: self.dataset_path(source),
            target_dataset: self.dataset_path(target),
            linked,
            stamp,
        }
    }

    /// The new VM `vm` made from the template `template`, with snapshots
    /// named by the time stamp.
    pub fn deploy_job(&self, template: &str, vm: &str, linked: bool, stamp: u64) -> (j: DeployJob)
        ensures
            j@ == (DeployJobView {
                template: template@,
                vm: vm@,
                template_dataset: child(
                    self.pool() + "/"@ + self.root_dataset() + "/templates"@,
                    template@,
                ),
                target_dataset: child(self.root_dataset(), vm@),
                linked,
                stamp: stamp as nat,
            }),
    {
        DeployJob {
            template: template.to_owned(),
            vm: vm.to_owned(),
            template_dataset: self.template_dataset(template),
            target_dataset: self.dataset_path(vm),
            linked,
            stamp,
        }
    }

    /// An action on the snapshot `snapshot` of the disk of the VM `vm`.
    pub fn snapshot_job(&self, vm: &str, snapshot: &str, action: SnapshotAction) -> (j: SnapshotJob)
        ensures
            j@ == (SnapshotJobView {
                vm: vm@,
                snapshot: snapshot@,
                disk_dataset: child(child(self.root_dataset(), vm@), "disk"@),
                action: action@,
            }),
    {
        SnapshotJob {
            vm: vm.to_owned(),
            snapshot: snapshot.to_owned(),
            disk_dataset: self.disk_dataset(vm),
            action,
        }
    }

    /// The removal of the VM `name` with its disk and snapshots.
    pub fn vm_removal(&self, name: &str) -> (j: RemovalJob)
        ensures
            j@ == (RemovalJobView {
                name: name@,
                dataset: child(self.root_dataset(), name@),
                template: false,
            }),
    {
        RemovalJob { name: name.to_owned(), dataset: self.dataset_path(name), template: false }
    }

    /// The removal of the template `name`.
    pub fn template_removal(&self, name: &str) -> (j: RemovalJob)
        ensures
            j@ == (RemovalJobView {
                name: name@,
                dataset: child(self.pool() + "/"@ + self.root_dataset() + "/templates"@, name@),
                template: true,
            }),
    {
        RemovalJob { name: name.to_owned(), dataset: self.template_dataset(name), template: true }
    }

    /// The template `name` made from the VM `vm`, with its snapshot named by
    /// the time stamp.
    pub fn template_job(&self, vm: &str, name: &str, stamp: u64) -> (j: TemplateJob)
        ensures
            j@ == (TemplateJobView {
                vm: vm@,
                name: name@,
                vm_dataset: child(self.root_dataset(), vm@),
                templates_dataset: self.pool() + "/"@ + self.root_dataset() + "/templates"@,
                target_dataset: child(
                    self.pool() + "/"@ + self.root_dataset() + "/templates"@,
                    name@,
                ),
                stamp: stamp as nat,
            }),
    {
        TemplateJob {
            vm: vm.to_owned(),
            name: name.to_owned(),
            vm_dataset: self.dataset_path(vm),
            templates_dataset: self.templates_dataset(),
            target_dataset: self.template_dataset(name),
            stamp,
        }
    }
}

// ---------------------------------------------------------------------------
// Laws
// ---------------------------------------------------------------------------
proof fn lemma_command_words()
    ensures
        "destroy"@.len() == 7,
        "list"@.len() == 4,
        "snapshot"@.len() == 8,
        "clone"@.len() == 5,
        "create"@.len() == 6,
        "zfs"@.len() == 3,
        "sh"@.len() == 2,
        "set"@.len() == 3,
        "rollback"@.len() == 8,
{
    reveal_strlit("destroy");
    reveal_strlit("list");
    reveal_strlit("snapshot");
    reveal_strlit("clone");
    reveal_strlit("create");
    reveal_strlit("zfs");
    reveal_strlit("sh");
    reveal_strlit("set");
    reveal_strlit("rollback");
}

/// Every clone ends: each step moves to a stage with fewer steps left, so a
/// caller that runs the commands reaches `Done` or a failure.
pub proof fn lemma_clone_ends(j: CloneJobView, s: CloneStageView, o: OutcomeView)
    ensures
        clone_start(j) matches StepView::Run(f, _) && clone_rank(f) == 6,
        clone_next(j, s, o) matches StepView::Run(n, _) ==> clone_rank(n) < clone_rank(s),
{
}

/// A clone removes nothing but its own temporary snapshot and its own
/// partial copy; never the source VM.
pub proof fn lemma_clone_removes_only_its_own(
    j: CloneJobView,
    s: CloneStageView,
    o: OutcomeView,
    w: Seq<char>,
)
    requires
        j.source_dataset != j.target_dataset,
    ensures
        clone_next(j, s, o) matches StepView::Run(_, c) && destroys(c, w) ==> (w == clone_snapshot(j)
            || w == j.target_dataset) && w != j.source_dataset,
{
    lemma_command_words();
    assert(clone_snapshot(j).len() > j.source_dataset.len());
}

/// After a clone's temporary snapshot is removed: done when the copy
/// worked; else the partial copy is removed and the clone fails.
pub open spec fn clone_cleanup_follows(
    j: CloneJobView,
    s: CloneStageView,
    copied: bool,
    drop_snapshot: OutcomeView,
    drop_copy: OutcomeView,
) -> bool {
    if copied {
        clone_next(j, s, drop_snapshot) == StepView::<CloneStageView>::Done
    } else {
        clone_next(j, s, drop_snapshot) matches StepView::Run(s2, c2) && destroys(
            c2,
            j.target_dataset,
        ) && clone_next(j, s2, drop_copy) is Fail
    }
}

/// A full copy that ran removes its temporary snapshot next, whether it
/// worked or not; when it failed, the partial copy goes after it and the
/// clone fails, whatever the removals answer.
pub proof fn lemma_clone_cleans_up(
    j: CloneJobView,
    copy: OutcomeView,
    drop_snapshot: OutcomeView,
    drop_copy: OutcomeView,
)
    requires
        copy is Ran,
    ensures
        clone_next(j, CloneStageView::SendReceive, copy) matches StepView::Run(s, c) && destroys(
            c,
            clone_snapshot(j),
        ) && clone_cleanup_follows(j, s, copy->Ran_success, drop_snapshot, drop_copy),
{
}

/// Every deployment ends: each step moves to a stage with fewer steps left.
pub proof fn lemma_deploy_ends(j: DeployJobView, s: DeployStageView, o: OutcomeView)
    ensures
        deploy_start(j) matches StepView::Run(f, _) && deploy_rank(f) == 7,
        deploy_next(j, s, o) matches StepView::Run(n, _) ==> deploy_rank(n) < deploy_rank(s),
{
}

/// A deployment removes nothing but the snapshot it took and its own
/// partial copy, never the template; and the snapshot it takes is never the
/// one that the template keeps.
pub proof fn lemma_deploy_removes_only_its_own(
    j: DeployJobView,
    s: DeployStageView,
    o: OutcomeView,
    w: Seq<char>,
)
    requires
        j.template_dataset != j.target_dataset,
    ensures
        deploy_next(j, s, o) matches StepView::Run(_, c) && destroys(c, w) ==> (w
            == deploy_snapshot(j) || w == j.target_dataset) && w != j.template_dataset,
        deploy_snapshot(j) != kept_snapshot(j),
{
    lemma_command_words();
    reveal_strlit("@");
    reveal_strlit("template");
    reveal_strlit("deploy-");
    let n: int = j.template_dataset.len() as int;
    assert(deploy_snapshot(j).len() > n);
    assert(deploy_snapshot(j)[n + 1] == 'd');
    assert(kept_snapshot(j)[n + 1] == 't');
}

/// Making a template removes nothing, and creates the template only where
/// there was none.
pub proof fn lemma_template_removes_nothing(
    j: TemplateJobView,
    s: TemplateStage,
    o: OutcomeView,
    w: Seq<char>,
)
    ensures
        template_next(j, s, o) matches StepView::Run(_, c) ==> !destroys(c, w),
        s == TemplateStage::TargetExists && exists_from(o) ==> template_next(j, s, o) is Fail,
        template_next(j, s, o) matches StepView::Run(n, _) ==> template_rank(n) < template_rank(s),
{
    lemma_command_words();
}

/// A snapshot is created only where there was none, and rolled back to or
/// deleted only where there was one; the only thing a snapshot job removes
/// is its own snapshot, and only when asked to delete it.
pub proof fn lemma_snapshot_guards(j: SnapshotJobView, s: SnapshotStage, o: OutcomeView, w: Seq<char>)
    ensures
        s == SnapshotStage::Exists && snapshot_next(j, s, o) is Run ==> (if j.action is Create {
            o matches OutcomeView::Ran { success, .. } && !success
        } else {
            exists_from(o)
        }),
        snapshot_next(j, s, o) matches StepView::Run(_, c) && destroys(c, w) ==> w == job_snapshot(
            j,
        ) && j.action is Delete,
{
    lemma_command_words();
}

/// Making a template ends in the templates dataset: when the VM exists, the
/// templates dataset exists, no template of that name exists, and the
/// snapshot and the clones succeed, the job snapshots the VM with its disk
/// and clones the snapshots into `<templates>/<name>` and its `disk` (the
/// dataset that the repository's
/// `template_dataset(name)` names, which the listing and
/// `template_exists` look at), and is done. A missing VM fails with
/// `VmNotFound(vm)`, and an existing template with `Config("Template
/// '<name>' already exists")`, both before any snapshot is taken. Only the
/// disk clone ends the job with success.
pub proof fn lemma_template_made_where_listed(
    j: TemplateJobView,
    ok: OutcomeView,
    missing: OutcomeView,
)
    requires
        ok matches OutcomeView::Ran { success, .. } && success,
        missing matches OutcomeView::Ran { success, .. } && !success,
    ensures
        template_start(j) == StepView::Run(TemplateStage::VmExists, zfs_cmd(seq!["list"@, j.vm_dataset])),
        template_next(j, TemplateStage::VmExists, ok) == StepView::Run(
            TemplateStage::TemplatesExist,
            zfs_cmd(seq!["list"@, j.templates_dataset]),
        ),
        template_next(j, TemplateStage::TemplatesExist, ok) == StepView::Run(
            TemplateStage::TargetExists,
            zfs_cmd(seq!["list"@, j.target_dataset]),
        ),
        template_next(j, TemplateStage::TargetExists, missing) == StepView::Run(
            TemplateStage::Snapshot,
            zfs_cmd(seq!["snapshot"@, "-r"@, template_snapshot(j)]),
        ),
        template_next(j, TemplateStage::Snapshot, ok) == StepView::Run(
            TemplateStage::Clone,
            zfs_cmd(seq!["clone"@, template_snapshot(j), j.target_dataset]),
        ),
        template_next(j, TemplateStage::Clone, ok) == StepView::Run(
            TemplateStage::CloneDisk,
            zfs_cmd(seq!["clone"@, template_disk_snapshot(j), child(j.target_dataset, "disk"@)]),
        ),
        template_next(j, TemplateStage::CloneDisk, ok) == StepView::<TemplateStage>::Done,
        template_next(j, TemplateStage::VmExists, missing) == StepView::<TemplateStage>::Fail(
            ErrorView::VmNotFound(j.vm),
        ),
        template_next(j, TemplateStage::TargetExists, ok) == StepView::<TemplateStage>::Fail(
            ErrorView::Config("Template '"@ + j.name + "' already exists"@),
        ),
        forall|s: TemplateStage, o: OutcomeView|
            #[trigger] template_next(j, s, o) is Done ==> s is CloneDisk,
{
}

/// A clone carries the VM's disk: the snapshot is taken recursively; a
/// linked clone, once the VM's dataset is cloned, clones the disk's snapshot
/// into the target's `disk`, and is done only after that; a full copy sends
/// the snapshots recursively (`zfs send -R`). No other step ends the job
/// with success.
pub proof fn lemma_clone_carries_disk(j: CloneJobView, ok: OutcomeView, missing: OutcomeView)
    requires
        ok matches OutcomeView::Ran { success, .. } && success,
        missing matches OutcomeView::Ran { success, .. } && !success,
    ensures
        clone_next(j, CloneStageView::TargetExists, missing) == StepView::Run(
            CloneStageView::Snapshot,
            zfs_cmd(seq!["snapshot"@, "-r"@, clone_snapshot(j)]),
        ),
        j.linked ==> clone_next(j, CloneStageView::Snapshot, ok) == StepView::Run(
            CloneStageView::Clone,
            zfs_cmd(seq!["clone"@, clone_snapshot(j), j.target_dataset]),
        ),
        j.linked ==> clone_next(j, CloneStageView::Clone, ok) == StepView::Run(
            CloneStageView::CloneDisk,
            zfs_cmd(seq!["clone"@, clone_disk_snapshot(j), child(j.target_dataset, "disk"@)]),
        ),
        clone_next(j, CloneStageView::CloneDisk, ok) == StepView::<CloneStageView>::Done,
        !j.linked ==> clone_next(j, CloneStageView::Snapshot, ok) == StepView::Run(
            CloneStageView::SendReceive,
            send_receive_cmd(clone_snapshot(j), j.target_dataset),
        ),
        forall|s: CloneStageView, o: OutcomeView|
            #[trigger] clone_next(j, s, o) is Done ==> s is CloneDisk || s is DropTemp,
{
}

/// A deployment carries the template's disk: a linked clone of the kept
/// snapshot, or of a new recursive snapshot, clones the disk's snapshot into
/// the new VM's `disk` once the dataset is cloned, and only that disk clone
/// ends a linked deployment with success; a full copy takes a recursive
/// snapshot and sends it recursively (`zfs send -R`).
pub proof fn lemma_deploy_carries_disk(j: DeployJobView, ok: OutcomeView, missing: OutcomeView)
    requires
        ok matches OutcomeView::Ran { success, .. } && success,
        missing matches OutcomeView::Ran { success, .. } && !success,
    ensures
        deploy_next(j, DeployStageView::CloneKept, ok) == StepView::Run(
            DeployStageView::CloneKeptDisk,
            zfs_cmd(seq!["clone"@, kept_disk_snapshot(j), child(j.target_dataset, "disk"@)]),
        ),
        deploy_next(j, DeployStageView::TemplateSnapshot, missing) == StepView::Run(
            DeployStageView::LinkedSnapshot,
            zfs_cmd(seq!["snapshot"@, "-r"@, deploy_snapshot(j)]),
        ),
        deploy_next(j, DeployStageView::CloneNew, ok) == StepView::Run(
            DeployStageView::CloneNewDisk,
            zfs_cmd(seq!["clone"@, deploy_disk_snapshot(j), child(j.target_dataset, "disk"@)]),
        ),
        deploy_next(j, DeployStageView::CloneKeptDisk, ok) == StepView::<DeployStageView>::Done,
        deploy_next(j, DeployStageView::CloneNewDisk, ok) == StepView::<DeployStageView>::Done,
        !j.linked ==> deploy_next(j, DeployStageView::TargetExists, missing) == StepView::Run(
            DeployStageView::CopySnapshot,
            zfs_cmd(seq!["snapshot"@, "-r"@, deploy_snapshot(j)]),
        ),
        deploy_next(j, DeployStageView::CopySnapshot, ok) == StepView::Run(
            DeployStageView::SendReceive,
            send_receive_cmd(deploy_snapshot(j), j.target_dataset),
        ),
        forall|s: DeployStageView, o: OutcomeView|
            #[trigger] deploy_next(j, s, o) is Done ==> s is CloneKeptDisk || s is CloneNewDisk
                || s is DropTemp,
{
}

} // verus!
