use veln::domain::vm::{ConsoleType, NetworkBackend, VirtualMachine, VmConfig};
use veln::infrastructure::bhyve::{random, BhyveRuntime};

fn vm(console: ConsoleType, mac: Option<&str>, vale: bool) -> VirtualMachine {
    let mut config = VmConfig::default();
    config.cpus = 4;
    config.memory_mb = 2048;
    config.console = console;
    config.network.mac = mac.map(String::from);
    if vale {
        config.network.backend = NetworkBackend::Vale { switch: "vale0".to_string() };
    }
    VirtualMachine::with_config("web".to_string(), config)
}

#[test]
fn dataset_and_disk_paths() {
    let rt = BhyveRuntime::new("zroot".to_string(), "veln".to_string());
    assert_eq!(rt.dataset_path("web"), "zroot/veln/web");
    assert_eq!(rt.disk_dataset("web"), "zroot/veln/web/disk");
    assert_eq!(rt.disk_path("web"), "/dev/zvol/zroot/veln/web/disk");
}

#[test]
fn mac_in_bhyve_range() {
    assert_eq!(BhyveRuntime::generate_mac(1, 0xab, 255), "58:9c:fc:01:ab:ff");
}

#[test]
fn tty_args() {
    let rt = BhyveRuntime::new("zroot".to_string(), "veln".to_string());
    let args = rt.build_bhyve_args(&vm(ConsoleType::Tty, Some("58:9c:fc:01:02:03"), false), (9, 9, 9));
    let expected = vec![
        "-c", "4", "-m", "2048", "-H", "-P", "-A", "-u", "-s",
        "2:0,virtio-net,bridge0,58:9c:fc:01:02:03", "-s",
        "3:0,virtio-blk,/dev/zvol/zroot/veln/web/disk", "-s", "1:0,lpc", "-l",
        "com1,/dev/nmdm0A", "web",
    ];
    assert_eq!(args, expected);
}

#[test]
fn framebuffer_args_with_generated_mac_on_vale() {
    let rt = BhyveRuntime::new("tank".to_string(), "vms".to_string());
    let args = rt.build_bhyve_args(&vm(ConsoleType::Framebuffer { vnc_port: 5900 }, None, true), (1, 2, 3));
    let expected = vec![
        "-c", "4", "-m", "2048", "-H", "-P", "-A", "-u", "-s",
        "2:0,virtio-net,vale0,58:9c:fc:01:02:03", "-s",
        "3:0,virtio-blk,/dev/zvol/tank/vms/web/disk", "-s", "1:0,fbuf,tcp=0.0.0.0:5900",
        "-s", "31,lpc", "web",
    ];
    assert_eq!(args, expected);
}

#[test]
fn null_console_has_no_console_args() {
    let rt = BhyveRuntime::new("zroot".to_string(), "veln".to_string());
    let args = rt.build_bhyve_args(&vm(ConsoleType::Null, None, false), (0, 0, 0));
    assert_eq!(args.len(), 13);
    assert_eq!(args.last().unwrap(), "web");
    assert_eq!(args[9], "2:0,virtio-net,bridge0,58:9c:fc:00:00:00");
}

#[test]
fn random_octets_cycle() {
    assert_eq!(random(1), 1);
    assert_eq!(random(255), 255);
    assert_eq!(random(256), 0);
    assert_eq!(random(0x1_2345), 0x45);
}
