use veln::command::{Command, Outcome};
use veln::domain::vm::{VirtualMachine, VmConfig};
use veln::error::VelnError;
use veln::infrastructure::bhyve::BhyveRuntime;
use veln::infrastructure::jobs::Step;
use veln::infrastructure::lifecycle::{is_running, pgrep_command, DiskStage, StartStage, StopStage};

fn ok() -> Outcome {
    Outcome::Ran { success: true, stdout: String::new(), stderr: String::new() }
}

fn failed(stderr: &str) -> Outcome {
    Outcome::Ran { success: false, stdout: String::new(), stderr: stderr.to_string() }
}

fn line(c: &Command) -> String {
    let mut s = c.program.clone();
    for a in &c.args {
        s.push(' ');
        s.push_str(a);
    }
    s
}

fn drive<S>(
    first: Step<S>,
    next: impl Fn(S, &Outcome) -> Step<S>,
    answers: Vec<Outcome>,
) -> (Vec<String>, Option<Result<(), VelnError>>) {
    let mut lines = Vec::new();
    let mut step = first;
    let mut answers = answers.into_iter();
    loop {
        match step {
            Step::Run(stage, c) => {
                lines.push(line(&c));
                match answers.next() {
                    Some(o) => step = next(stage, &o),
                    None => return (lines, None),
                }
            }
            Step::Done => return (lines, Some(Ok(()))),
            Step::Fail(e) => return (lines, Some(Err(e))),
        }
    }
}

fn runtime() -> BhyveRuntime {
    BhyveRuntime::new("zroot".to_string(), "veln".to_string())
}

#[test]
fn disk_creation() {
    let rt = runtime();
    let job = rt.disk_job("web", 20);
    let (lines, end) = drive(job.start(), |s: DiskStage, o| job.next(s, o), vec![failed(""), ok()]);
    assert_eq!(
        lines,
        vec!["zfs list zroot/veln/web/disk", "zfs create -V 20G -o volmode=dev zroot/veln/web/disk"]
    );
    assert!(matches!(end, Some(Ok(()))));
    let (_, end) = drive(job.start(), |s: DiskStage, o| job.next(s, o), vec![ok()]);
    assert!(matches!(end, Some(Err(VelnError::ZfsError(m))) if m == "Disk ZVOL already exists for VM 'web'"));
    let (_, end) = drive(job.start(), |s: DiskStage, o| job.next(s, o), vec![failed(""), failed("no space")]);
    assert!(matches!(end, Some(Err(VelnError::ZfsError(m))) if m == "Failed to create ZVOL: no space"));
}

#[test]
fn vm_start() {
    let rt = runtime();
    let mut config = VmConfig::default();
    config.memory_mb = 2048;
    config.network.mac = Some("58:9c:fc:00:00:01".to_string());
    let vm = VirtualMachine::with_config("web".to_string(), config);
    let job = rt.start_job(&vm, (1, 2, 3));
    let (lines, end) = drive(job.start(), |s: StartStage, o| job.next(s, o), vec![failed(""), ok(), ok()]);
    assert_eq!(lines[0], "pgrep -f bhyve.*web");
    assert_eq!(lines[1], "bhyveload -c /dev/nmdm0A -m 2048 -d /dev/zvol/zroot/veln/web/disk web");
    assert!(lines[2].starts_with("bhyve -c 2 -m 2048 -H -P -A -u -s 2:0,virtio-net,bridge0,58:9c:fc:00:00:01"));
    assert!(lines[2].ends_with(" web"));
    assert!(matches!(end, Some(Ok(()))));
    let (_, end) = drive(job.start(), |s: StartStage, o| job.next(s, o), vec![ok()]);
    assert!(matches!(end, Some(Err(VelnError::ZfsError(m))) if m == "VM 'web' is already running"));
    let (_, end) = drive(job.start(), |s: StartStage, o| job.next(s, o), vec![failed(""), failed("bad disk")]);
    assert!(matches!(end, Some(Err(VelnError::ZfsError(m))) if m == "Failed to load VM: bad disk"));
    let (_, end) = drive(job.start(), |s: StartStage, o| job.next(s, o), vec![failed(""), ok(), failed("no mem")]);
    assert!(matches!(end, Some(Err(VelnError::ZfsError(m))) if m == "Failed to start VM: no mem"));
}

#[test]
fn vm_stop_and_destroy() {
    let rt = runtime();
    let stop = rt.stop_job("web", false);
    let (lines, end) = drive(stop.start(), |s: StopStage, o| stop.next(s, o), vec![ok(), ok()]);
    assert_eq!(lines, vec!["pgrep -f bhyve.*web", "bhyvectl --acpi-poweroff --vm web"]);
    assert!(matches!(end, Some(Ok(()))));
    let (_, end) = drive(stop.start(), |s: StopStage, o| stop.next(s, o), vec![failed("")]);
    assert!(matches!(end, Some(Err(VelnError::VmNotFound(m))) if m == "VM 'web' is not running"));
    let (_, end) = drive(stop.start(), |s: StopStage, o| stop.next(s, o), vec![ok(), failed("x")]);
    assert!(matches!(end, Some(Err(VelnError::ZfsError(m))) if m == "Failed to stop VM: x"));
    let destroy = rt.stop_job("web", true);
    let (lines, end) = drive(destroy.start(), |s: StopStage, o| destroy.next(s, o), vec![ok(), ok(), ok()]);
    assert_eq!(
        lines,
        vec!["pgrep -f bhyve.*web", "bhyvectl --force-poweroff --vm web", "bhyvectl --destroy --vm web"]
    );
    assert!(matches!(end, Some(Ok(()))));
    let (_, end) = drive(destroy.start(), |s: StopStage, o| destroy.next(s, o), vec![ok(), failed("y")]);
    assert!(matches!(end, Some(Err(VelnError::ZfsError(m))) if m == "Failed to destroy VM: y"));
    let (_, end) = drive(destroy.start(), |s: StopStage, o| destroy.next(s, o), vec![ok(), ok(), failed("z")]);
    assert!(matches!(end, Some(Err(VelnError::ZfsError(m))) if m == "Failed to destroy VM instance: z"));
}

#[test]
fn running_checks() {
    assert_eq!(line(&pgrep_command("db")), "pgrep -f bhyve.*db");
    assert!(is_running(&ok()));
    assert!(!is_running(&failed("")));
    assert!(!is_running(&Outcome::SpawnFailed("no pgrep".to_string())));
}
