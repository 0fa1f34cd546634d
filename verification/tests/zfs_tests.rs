use veln::command::Outcome;
use veln::config::{ApiConfig, Config};
use veln::domain::vm::{ConsoleType, NetworkBackend, VirtualMachine, VmConfig};
use veln::infrastructure::zfs::{
    comment_property, default_bridge, default_network_type, parse_snapshot_listing, size_parts,
    snapshot_comment, IsoRepository, SizeText, VmConfigData, ZfsRepository,
};

fn config(vm_root: &str) -> Config {
    Config { zfs_pool: "zroot".to_string(), vm_root: vm_root.to_string(), api: ApiConfig::new(true) }
}

fn ran(success: bool, stdout: &str) -> Outcome {
    Outcome::Ran { success, stdout: stdout.to_string(), stderr: String::new() }
}

#[test]
fn root_dataset_names() {
    assert_eq!(ZfsRepository::new(&config("/usr/local/vms")).root_dataset_text(), "zroot/usr/local/vms");
    assert_eq!(ZfsRepository::new(&config("veln/vms")).root_dataset_text(), "zroot/veln/vms");
    assert_eq!(ZfsRepository::new(&config("///")).root_dataset_text(), "zroot");
    assert_eq!(ZfsRepository::new(&config("")).root_dataset_text(), "zroot");
}

#[test]
fn vm_dataset_names() {
    let repo = ZfsRepository::new(&config("veln"));
    assert_eq!(repo.dataset_path("web"), "zroot/veln/web");
    assert_eq!(repo.disk_dataset("web"), "zroot/veln/web/disk");
    assert_eq!(repo.templates_dataset(), "zroot/zroot/veln/templates");
    assert_eq!(repo.template_dataset("base"), "zroot/zroot/veln/templates/base");
    assert_eq!(repo.template_meta_path("base"), "/zroot/zroot/veln/templates/base.json");
    assert_eq!(ZfsRepository::config_path("/zroot/veln/web"), "/zroot/veln/web/veln.toml");
}

#[test]
fn mount_points() {
    let repo = ZfsRepository::new(&config("veln"));
    assert_eq!(repo.mount_point_from("web", &ran(true, "/mnt/web\n")).unwrap(), "/mnt/web");
    assert_eq!(repo.mount_point_from("web", &ran(false, "")).unwrap(), "/zroot/zroot/veln/web");
    assert!(repo.mount_point_from("web", &Outcome::SpawnFailed("x".to_string())).is_err());
}

#[test]
fn vm_names_from_listing() {
    let repo = ZfsRepository::new(&config("veln"));
    let out = "zroot/veln\nzroot/veln/web\nzroot/veln/web/disk\nzroot/veln/db\nzroot/other/x\n";
    assert_eq!(repo.vm_names_from_listing(out), vec!["web".to_string(), "db".to_string()]);
}

#[test]
fn snapshot_listing() {
    let out = "zroot/veln/web/disk@snap1\tMon Jan  1 10:00 2024\t1.5M\nbad line\nzroot/veln/web/disk\tx\t0\nzroot/veln/web/disk@s2\tTue\t - \n";
    let e = parse_snapshot_listing(out);
    assert_eq!(e.len(), 2);
    assert_eq!(e[0].name, "snap1");
    assert_eq!(e[0].created, "Mon Jan  1 10:00 2024");
    assert_eq!(e[0].size_field, "1.5M");
    assert_eq!(e[1].name, "s2");
    assert_eq!(e[1].size_field, "-");
}

#[test]
fn snapshot_comments() {
    assert_eq!(snapshot_comment(&ran(true, "before upgrade\n")), Some("before upgrade".to_string()));
    assert_eq!(snapshot_comment(&ran(true, "-\n")), None);
    assert_eq!(snapshot_comment(&ran(false, "x")), None);
    assert_eq!(comment_property("s1"), "veln:comment:s1");
}

#[test]
fn size_fields() {
    assert!(matches!(size_parts("-"), SizeText::Zero));
    assert!(matches!(size_parts("  "), SizeText::Zero));
    match size_parts("1.5M") {
        SizeText::Scaled { number, factor } => {
            assert_eq!(number, "1.5");
            assert_eq!(factor, 1048576);
        }
        SizeText::Zero => panic!("expected a size"),
    }
    match size_parts("3TiB") {
        SizeText::Scaled { number, factor } => {
            assert_eq!(number, "3");
            assert_eq!(factor, 1099511627776);
        }
        SizeText::Zero => panic!("expected a size"),
    }
    match size_parts("512") {
        SizeText::Scaled { number, factor } => {
            assert_eq!(number, "512");
            assert_eq!(factor, 1);
        }
        SizeText::Zero => panic!("expected a size"),
    }
}

#[test]
fn stored_config_round_trip() {
    let mut config = VmConfig::default();
    config.network.backend = NetworkBackend::Vale { switch: "vale1".to_string() };
    config.network.mac = Some("58:9c:fc:00:00:01".to_string());
    config.console = ConsoleType::Null;
    let vm = VirtualMachine::with_config("web".to_string(), config);
    let data = VmConfigData::from_vm(&vm);
    assert_eq!(data.network_type, "vale");
    assert_eq!(data.network_device, "vale1");
    assert_eq!(data.uuid, vm.uuid.0);
    let (uuid, back) = data.into_vm_config();
    assert_eq!(uuid, vm.uuid);
    assert_eq!(back.console, ConsoleType::Tty);
    assert_eq!(back.network.mac.as_deref(), Some("58:9c:fc:00:00:01"));
    match back.network.backend {
        NetworkBackend::Vale { switch } => assert_eq!(switch, "vale1"),
        NetworkBackend::TapBridge { .. } => panic!("expected vale"),
    }
}

#[test]
fn unknown_network_type_is_tap() {
    let data = VmConfigData {
        uuid: "u".to_string(),
        name: "n".to_string(),
        cpus: 1,
        memory_mb: 512,
        disk_gb: 5,
        network_type: "other".to_string(),
        network_device: default_bridge(),
        mac: None,
    };
    let (_, c) = data.into_vm_config();
    assert!(matches!(c.network.backend, NetworkBackend::TapBridge { ref bridge } if bridge == "bridge0"));
    assert_eq!(default_network_type(), "tap");
}

#[test]
fn iso_paths() {
    let iso = IsoRepository::new(&config("veln"));
    assert_eq!(iso.images_dataset_text(), "zroot/images");
    assert_eq!(iso.mount_point_from(&ran(false, "")).unwrap(), "/zroot/images");
    assert_eq!(iso.mount_point_from(&ran(true, "/zroot/images\n")).unwrap(), "/zroot/images");
    assert_eq!(IsoRepository::iso_file("/zroot/images", "freebsd"), "/zroot/images/freebsd.iso");
    assert_eq!(IsoRepository::meta_file("/zroot/images", "freebsd"), "/zroot/images/freebsd.json");
    assert_eq!(
        IsoRepository::curl_args("/zroot/images/f.iso", "https://x/f.iso"),
        vec!["-L", "-o", "/zroot/images/f.iso", "https://x/f.iso", "--progress-bar"]
    );
}
