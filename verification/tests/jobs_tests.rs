use veln::command::{Command, Outcome};
use veln::config::{ApiConfig, Config};
use veln::error::VelnError;
use veln::infrastructure::jobs::{
    CloneStage, DeployStage, RemovalStage, SnapshotAction, SnapshotStage, Step, TemplateStage,
};
use veln::infrastructure::zfs::ZfsRepository;

fn repo() -> ZfsRepository {
    ZfsRepository::new(&Config {
        zfs_pool: "zroot".to_string(),
        vm_root: "veln".to_string(),
        api: ApiConfig::new(true),
    })
}

fn ok() -> Outcome {
    Outcome::Ran { success: true, stdout: String::new(), stderr: String::new() }
}

fn failed(stderr: &str) -> Outcome {
    Outcome::Ran { success: false, stdout: String::new(), stderr: stderr.to_string() }
}

fn line(c: &Command) -> String {
    let mut s = c.program.clone();
    for a in &c.args {
        s.push(' ');
        s.push_str(a);
    }
    s
}

/// Runs a job on scripted outcomes; the commands it ran and how it ended.
fn drive<S>(
    first: Step<S>,
    next: impl Fn(S, &Outcome) -> Step<S>,
    answers: Vec<Outcome>,
) -> (Vec<String>, Option<Result<(), VelnError>>) {
    let mut lines = Vec::new();
    let mut step = first;
    let mut answers = answers.into_iter();
    loop {
        match step {
            Step::Run(stage, c) => {
                lines.push(line(&c));
                match answers.next() {
                    Some(o) => step = next(stage, &o),
                    None => return (lines, None),
                }
            }
            Step::Done => return (lines, Some(Ok(()))),
            Step::Fail(e) => return (lines, Some(Err(e))),
        }
    }
}

#[test]
fn linked_clone_commands() {
    let r = repo();
    let job = r.clone_job("web", "web2", true, 1700000000);
    let (lines, end) = drive(job.start(), |s: CloneStage, o| job.next(s, o), vec![ok(), failed(""), ok(), ok(), ok()]);
    assert_eq!(
        lines,
        vec![
            "zfs list zroot/veln/web",
            "zfs list zroot/veln/web2",
            "zfs snapshot -r zroot/veln/web@clone-1700000000",
            "zfs clone zroot/veln/web@clone-1700000000 zroot/veln/web2",
            "zfs clone zroot/veln/web/disk@clone-1700000000 zroot/veln/web2/disk",
        ]
    );
    assert!(matches!(end, Some(Ok(()))));
}

#[test]
fn clone_of_missing_vm() {
    let r = repo();
    let job = r.clone_job("web", "web2", true, 1);
    let (lines, end) = drive(job.start(), |s: CloneStage, o| job.next(s, o), vec![failed("no such dataset")]);
    assert_eq!(lines.len(), 1);
    assert!(matches!(end, Some(Err(VelnError::VmNotFound(m))) if m == "web"));
}

#[test]
fn clone_onto_existing_vm() {
    let r = repo();
    let job = r.clone_job("web", "web2", false, 1);
    let (_, end) = drive(job.start(), |s: CloneStage, o| job.next(s, o), vec![ok(), ok()]);
    assert!(matches!(end, Some(Err(VelnError::Config(m))) if m == "Target VM 'web2' already exists"));
}

#[test]
fn failed_full_clone_cleans_up() {
    let r = repo();
    let job = r.clone_job("web", "web2", false, 5);
    let answers = vec![ok(), failed(""), ok(), failed("boom"), failed("x"), ok()];
    let (lines, end) = drive(job.start(), |s: CloneStage, o| job.next(s, o), answers);
    assert_eq!(
        lines,
        vec![
            "zfs list zroot/veln/web",
            "zfs list zroot/veln/web2",
            "zfs snapshot -r zroot/veln/web@temp-clone-5",
            "sh -c zfs send -R 'zroot/veln/web@temp-clone-5' | zfs receive 'zroot/veln/web2'",
            "zfs destroy -r zroot/veln/web@temp-clone-5",
            "zfs destroy -r zroot/veln/web2",
        ]
    );
    assert!(matches!(end, Some(Err(VelnError::ZfsError(m))) if m == "Failed to create full clone: boom"));
}

#[test]
fn full_clone_drops_its_snapshot() {
    let r = repo();
    let job = r.clone_job("web", "web2", false, 5);
    let (lines, end) = drive(job.start(), |s: CloneStage, o| job.next(s, o), vec![ok(), failed(""), ok(), ok(), failed("x")]);
    assert_eq!(lines.last().unwrap(), "zfs destroy -r zroot/veln/web@temp-clone-5");
    assert!(matches!(end, Some(Ok(()))));
}

#[test]
fn clone_snapshot_errors() {
    let r = repo();
    let linked = r.clone_job("web", "web2", true, 5);
    let (_, end) = drive(linked.start(), |s: CloneStage, o| linked.next(s, o), vec![ok(), failed(""), failed("")]);
    assert!(matches!(end, Some(Err(VelnError::ZfsError(m))) if m == "Failed to create snapshot for clone"));
    let full = r.clone_job("web", "web2", false, 5);
    let (_, end) = drive(full.start(), |s: CloneStage, o| full.next(s, o), vec![ok(), failed(""), failed("")]);
    assert!(matches!(end, Some(Err(VelnError::ZfsError(m))) if m == "Failed to create temporary snapshot"));
    let (_, end) = drive(
        linked.start(),
        |s: CloneStage, o| linked.next(s, o),
        vec![ok(), failed(""), ok(), failed("busy")],
    );
    assert!(matches!(end, Some(Err(VelnError::ZfsError(m))) if m == "Failed to create linked clone: busy"));
    let (_, end) = drive(
        linked.start(),
        |s: CloneStage, o| linked.next(s, o),
        vec![ok(), failed(""), Outcome::SpawnFailed("no zfs".to_string())],
    );
    assert!(matches!(end, Some(Err(VelnError::Io(m))) if m == "no zfs"));
}

#[test]
fn deploy_from_kept_snapshot() {
    let r = repo();
    let job = r.deploy_job("base", "web", true, 9);
    let (lines, end) = drive(job.start(), |s: DeployStage, o| job.next(s, o), vec![ok(), failed(""), ok(), ok(), ok()]);
    assert_eq!(
        lines,
        vec![
            "zfs list zroot/zroot/veln/templates/base",
            "zfs list zroot/veln/web",
            "zfs list -t snapshot zroot/zroot/veln/templates/base@template",
            "zfs clone zroot/zroot/veln/templates/base@template zroot/veln/web",
            "zfs clone zroot/zroot/veln/templates/base/disk@template zroot/veln/web/disk",
        ]
    );
    assert!(matches!(end, Some(Ok(()))));
}

#[test]
fn deploy_linked_from_new_snapshot_that_fails() {
    let r = repo();
    let job = r.deploy_job("base", "web", true, 9);
    let answers = vec![ok(), failed(""), failed(""), failed("ignored"), failed("nope"), ok()];
    let (lines, end) = drive(job.start(), |s: DeployStage, o| job.next(s, o), answers);
    assert_eq!(
        lines[3..],
        [
            "zfs snapshot -r zroot/zroot/veln/templates/base@deploy-9",
            "zfs clone zroot/zroot/veln/templates/base@deploy-9 zroot/veln/web",
            "zfs destroy -r zroot/zroot/veln/templates/base@deploy-9",
        ]
    );
    assert!(matches!(end, Some(Err(VelnError::ZfsError(m))) if m == "Failed to deploy linked clone: nope"));
}

#[test]
fn deploy_full_copy() {
    let r = repo();
    let job = r.deploy_job("base", "web", false, 9);
    let (lines, end) = drive(job.start(), |s: DeployStage, o| job.next(s, o), vec![ok(), failed(""), ok(), ok(), ok()]);
    assert_eq!(
        lines[2..],
        [
            "zfs snapshot -r zroot/zroot/veln/templates/base@deploy-9",
            "sh -c zfs send -R 'zroot/zroot/veln/templates/base@deploy-9' | zfs receive 'zroot/veln/web'",
            "zfs destroy -r zroot/zroot/veln/templates/base@deploy-9",
        ]
    );
    assert!(matches!(end, Some(Ok(()))));
    let (_, end) = drive(
        job.start(),
        |s: DeployStage, o| job.next(s, o),
        vec![ok(), failed(""), ok(), failed("full"), ok(), ok()],
    );
    assert!(matches!(end, Some(Err(VelnError::ZfsError(m))) if m == "Failed to deploy full clone: full"));
}

#[test]
fn deploy_refusals() {
    let r = repo();
    let job = r.deploy_job("base", "web", false, 9);
    let (_, end) = drive(job.start(), |s: DeployStage, o| job.next(s, o), vec![failed("")]);
    assert!(matches!(end, Some(Err(VelnError::VmNotFound(m))) if m == "Template 'base' not found"));
    let (_, end) = drive(job.start(), |s: DeployStage, o| job.next(s, o), vec![ok(), ok()]);
    assert!(matches!(end, Some(Err(VelnError::Config(m))) if m == "VM 'web' already exists"));
}

#[test]
fn template_creates_its_dataset() {
    let r = repo();
    let job = r.template_job("web", "base", 42);
    let (lines, end) = drive(
        job.start(),
        |s: TemplateStage, o| job.next(s, o),
        vec![ok(), failed(""), ok(), failed(""), ok(), ok(), ok()],
    );
    assert_eq!(
        lines,
        vec![
            "zfs list zroot/veln/web",
            "zfs list zroot/zroot/veln/templates",
            "zfs create -p zroot/zroot/veln/templates",
            "zfs list zroot/zroot/veln/templates/base",
            "zfs snapshot -r zroot/veln/web@template-42",
            "zfs clone zroot/veln/web@template-42 zroot/zroot/veln/templates/base",
            "zfs clone zroot/veln/web/disk@template-42 zroot/zroot/veln/templates/base/disk",
        ]
    );
    assert!(matches!(end, Some(Ok(()))));
}

#[test]
fn template_refusals() {
    let r = repo();
    let job = r.template_job("web", "base", 42);
    let (_, end) = drive(job.start(), |s: TemplateStage, o| job.next(s, o), vec![failed("")]);
    assert!(matches!(end, Some(Err(VelnError::VmNotFound(m))) if m == "web"));
    let (_, end) = drive(job.start(), |s: TemplateStage, o| job.next(s, o), vec![ok(), ok(), ok()]);
    assert!(matches!(end, Some(Err(VelnError::Config(m))) if m == "Template 'base' already exists"));
    let (_, end) = drive(job.start(), |s: TemplateStage, o| job.next(s, o), vec![ok(), failed(""), failed("denied")]);
    assert!(matches!(end, Some(Err(VelnError::ZfsError(m))) if m == "Failed to create templates dataset: denied"));
    let (_, end) = drive(job.start(), |s: TemplateStage, o| job.next(s, o), vec![ok(), ok(), failed(""), failed("")]);
    assert!(matches!(end, Some(Err(VelnError::ZfsError(m))) if m == "Failed to create template snapshot"));
    let (_, end) = drive(job.start(), |s: TemplateStage, o| job.next(s, o), vec![ok(), ok(), failed(""), ok(), failed("e")]);
    assert!(matches!(end, Some(Err(VelnError::ZfsError(m))) if m == "Failed to create template: e"));
    let (_, end) = drive(
        job.start(),
        |s: TemplateStage, o| job.next(s, o),
        vec![ok(), ok(), failed(""), ok(), ok(), failed("disk busy")],
    );
    assert!(matches!(end, Some(Err(VelnError::ZfsError(m))) if m == "Failed to create template: disk busy"));
}

#[test]
fn clone_disk_failures() {
    let r = repo();
    let linked = r.clone_job("web", "web2", true, 5);
    let (lines, end) = drive(
        linked.start(),
        |s: CloneStage, o| linked.next(s, o),
        vec![ok(), failed(""), ok(), ok(), failed("no disk")],
    );
    assert_eq!(lines.last().unwrap(), "zfs clone zroot/veln/web/disk@clone-5 zroot/veln/web2/disk");
    assert!(matches!(end, Some(Err(VelnError::ZfsError(m))) if m == "Failed to create linked clone: no disk"));
    let deploy = r.deploy_job("base", "web", true, 9);
    let (lines, end) = drive(
        deploy.start(),
        |s: DeployStage, o| deploy.next(s, o),
        vec![ok(), failed(""), failed(""), ok(), ok(), failed("gone"), ok()],
    );
    assert_eq!(
        lines[3..],
        [
            "zfs snapshot -r zroot/zroot/veln/templates/base@deploy-9",
            "zfs clone zroot/zroot/veln/templates/base@deploy-9 zroot/veln/web",
            "zfs clone zroot/zroot/veln/templates/base/disk@deploy-9 zroot/veln/web/disk",
            "zfs destroy -r zroot/zroot/veln/templates/base@deploy-9",
        ]
    );
    assert!(matches!(end, Some(Err(VelnError::ZfsError(m))) if m == "Failed to deploy linked clone: gone"));
}

#[test]
fn snapshot_with_comment() {
    let r = repo();
    let job = r.snapshot_job("web", "before-upgrade", SnapshotAction::Create(Some("pre 14.1".to_string())));
    let (lines, end) = drive(job.start(), |s: SnapshotStage, o| job.next(s, o), vec![failed(""), ok(), failed("x")]);
    assert_eq!(
        lines,
        vec![
            "zfs list -t snapshot zroot/veln/web/disk@before-upgrade",
            "zfs snapshot zroot/veln/web/disk@before-upgrade",
            "zfs set veln:comment:before-upgrade=pre 14.1 zroot/veln/web/disk",
        ]
    );
    assert!(matches!(end, Some(Ok(()))));
}

#[test]
fn snapshot_refusals() {
    let r = repo();
    let create = r.snapshot_job("web", "s1", SnapshotAction::Create(None));
    let (_, end) = drive(create.start(), |s: SnapshotStage, o| create.next(s, o), vec![ok()]);
    assert!(matches!(end, Some(Err(VelnError::ZfsError(m))) if m == "Snapshot 's1' already exists for VM 'web'"));
    let (lines, end) = drive(create.start(), |s: SnapshotStage, o| create.next(s, o), vec![failed(""), ok()]);
    assert_eq!(lines.len(), 2);
    assert!(matches!(end, Some(Ok(()))));
    let (_, end) = drive(create.start(), |s: SnapshotStage, o| create.next(s, o), vec![failed(""), failed("quota")]);
    assert!(matches!(end, Some(Err(VelnError::ZfsError(m))) if m == "Failed to create snapshot: quota"));
    let delete = r.snapshot_job("web", "s1", SnapshotAction::Delete);
    let (_, end) = drive(delete.start(), |s: SnapshotStage, o| delete.next(s, o), vec![failed("")]);
    assert!(matches!(end, Some(Err(VelnError::VmNotFound(m))) if m == "Snapshot 's1' not found for VM 'web'"));
    let (_, end) = drive(
        delete.start(),
        |s: SnapshotStage, o| delete.next(s, o),
        vec![Outcome::SpawnFailed("gone".to_string())],
    );
    assert!(matches!(end, Some(Err(VelnError::Io(m))) if m == "gone"));
}

#[test]
fn rollback_and_delete_commands() {
    let r = repo();
    let forced = r.snapshot_job("web", "s1", SnapshotAction::Rollback(true));
    let (lines, end) = drive(forced.start(), |s: SnapshotStage, o| forced.next(s, o), vec![ok(), ok()]);
    assert_eq!(lines[1], "zfs rollback -r zroot/veln/web/disk@s1");
    assert!(matches!(end, Some(Ok(()))));
    let plain = r.snapshot_job("web", "s1", SnapshotAction::Rollback(false));
    let (lines, end) = drive(plain.start(), |s: SnapshotStage, o| plain.next(s, o), vec![ok(), failed("newer")]);
    assert_eq!(lines[1], "zfs rollback zroot/veln/web/disk@s1");
    assert!(matches!(end, Some(Err(VelnError::ZfsError(m))) if m == "Failed to rollback snapshot: newer"));
    let delete = r.snapshot_job("web", "s1", SnapshotAction::Delete);
    let (lines, end) = drive(delete.start(), |s: SnapshotStage, o| delete.next(s, o), vec![ok(), failed("busy")]);
    assert_eq!(lines[1], "zfs destroy zroot/veln/web/disk@s1");
    assert!(matches!(end, Some(Err(VelnError::ZfsError(m))) if m == "Failed to delete snapshot: busy"));
}

#[test]
fn removals() {
    let r = repo();
    let vm = r.vm_removal("web");
    let (lines, end) = drive(vm.start(), |s: RemovalStage, o| vm.next(s, o), vec![ok(), ok()]);
    assert_eq!(lines, vec!["zfs list zroot/veln/web", "zfs destroy -r zroot/veln/web"]);
    assert!(matches!(end, Some(Ok(()))));
    let (_, end) = drive(vm.start(), |s: RemovalStage, o| vm.next(s, o), vec![failed("")]);
    assert!(matches!(end, Some(Err(VelnError::VmNotFound(m))) if m == "web"));
    let (_, end) = drive(vm.start(), |s: RemovalStage, o| vm.next(s, o), vec![ok(), failed("busy")]);
    assert!(matches!(end, Some(Err(VelnError::ZfsError(m))) if m == "Failed to destroy dataset: busy"));
    let tpl = r.template_removal("base");
    let (lines, end) = drive(tpl.start(), |s: RemovalStage, o| tpl.next(s, o), vec![ok(), failed("held")]);
    assert_eq!(lines[1], "zfs destroy -r zroot/zroot/veln/templates/base");
    assert!(matches!(end, Some(Err(VelnError::ZfsError(m))) if m == "Failed to delete template: held"));
    let (_, end) = drive(tpl.start(), |s: RemovalStage, o| tpl.next(s, o), vec![failed("")]);
    assert!(matches!(end, Some(Err(VelnError::VmNotFound(m))) if m == "Template 'base' not found"));
}


#[test]
fn template_lands_where_it_is_listed() {
    let r = repo();
    let job = r.template_job("web", "base", 42);
    assert_eq!(job.target_dataset, r.template_dataset("base"));
    let (lines, end) = drive(
        job.start(),
        |s: TemplateStage, o| job.next(s, o),
        vec![ok(), ok(), failed(""), ok(), ok(), ok()],
    );
    assert_eq!(lines[4], format!("zfs clone zroot/veln/web@template-42 {}", r.template_dataset("base")));
    assert_eq!(
        lines.last().unwrap(),
        &format!("zfs clone zroot/veln/web/disk@template-42 {}/disk", r.template_dataset("base"))
    );
    assert!(matches!(end, Some(Ok(()))));
}
