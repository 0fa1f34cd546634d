use veln::config::{ApiConfig, Config};
use veln::infrastructure::cloudinit::{join_path, CloudInitConfig, CloudInitSeed, CloudInitUser, WriteFile};

fn config() -> Config {
    Config { zfs_pool: "zroot".to_string(), vm_root: "veln".to_string(), api: ApiConfig::new(true) }
}

#[test]
fn default_config_has_hostname_only() {
    let c = CloudInitConfig::default();
    assert_eq!(c.hostname, "veln-vm");
    assert!(c.users.is_empty() && c.packages.is_empty() && c.network_config.is_none());
    assert_eq!(
        CloudInitSeed::generate_user_data(&c),
        "#cloud-config\nhostname: veln-vm\nmanage_etc_hosts: true"
    );
}

#[test]
fn admin_user_defaults() {
    let u = CloudInitUser::admin_user("ops");
    assert_eq!(u.name, "ops");
    assert_eq!(u.sudo.as_deref(), Some("ALL=(ALL) NOPASSWD:ALL"));
    assert_eq!(u.shell, "/bin/sh");
    assert_eq!(u.groups, vec!["wheel".to_string()]);
    assert!(u.ssh_authorized_keys.is_empty());
}

#[test]
fn full_user_data() {
    let mut user = CloudInitUser::admin_user("ops");
    user.ssh_authorized_keys.push("ssh-ed25519 AAA".to_string());
    user.groups.push("operator".to_string());
    let c = CloudInitConfig {
        hostname: "web".to_string(),
        ssh_authorized_keys: vec!["ssh-rsa BBB".to_string()],
        users: vec![user],
        network_config: None,
        runcmd: vec!["echo hi".to_string()],
        packages: vec!["nginx".to_string(), "curl".to_string()],
        write_files: vec![WriteFile {
            path: "/etc/motd".to_string(),
            content: "hello\r\nworld\n".to_string(),
            permissions: Some("0644".to_string()),
            owner: None,
        }],
    };
    let expected = "#cloud-config\nhostname: web\nmanage_etc_hosts: true\nusers:\n  - name: ops\n    shell: /bin/sh\n    groups: wheel, operator\n    sudo: ALL=(ALL) NOPASSWD:ALL\n    ssh_authorized_keys:\n      - ssh-ed25519 AAA\nssh_authorized_keys:\n  - ssh-rsa BBB\npackages:\n  - nginx\n  - curl\npackage_update: true\nwrite_files:\n  - path: /etc/motd\n    permissions: '0644'\n    content: |\n      hello\n      world\nruncmd:\n  - echo hi";
    assert_eq!(CloudInitSeed::generate_user_data(&c), expected);
}

#[test]
fn meta_data_and_network_configs() {
    let mut c = CloudInitConfig::default();
    c.hostname = "h1".to_string();
    assert_eq!(CloudInitSeed::generate_meta_data("vm1", &c), "instance-id: vm1\nlocal-hostname: h1");
    assert_eq!(
        CloudInitSeed::generate_dhcp_network_config(),
        "version: 2\nethernets:\n  nics:\n    match:\n      driver: virtio_net\n    dhcp4: true\n"
    );
    assert_eq!(
        CloudInitSeed::generate_static_network_config(
            "vtnet0",
            "192.168.1.100/24",
            "192.168.1.1",
            &vec!["8.8.8.8".to_string(), "1.1.1.1".to_string()],
        ),
        "version: 2\nethernets:\n  vtnet0:\n    addresses:\n      - 192.168.1.100/24\n    gateway4: 192.168.1.1\n    nameservers:\n      addresses:\n        - 8.8.8.8, 1.1.1.1\n"
    );
}

#[test]
fn seed_paths_and_files() {
    let seed = CloudInitSeed::for_config(&config());
    assert_eq!(seed.seed_dir_text(), "/zroot/veln/cloud-init");
    assert_eq!(seed.vm_seed_dir("vm1"), "/zroot/veln/cloud-init/vm1");
    assert_eq!(seed.seed_iso_path("vm1"), "/zroot/veln/cloud-init/vm1-seed.iso");
    let mut c = CloudInitConfig::default();
    c.network_config = Some("net".to_string());
    let files = CloudInitSeed::seed_files("vm1", &c);
    assert_eq!(files.len(), 3);
    assert_eq!(files[1].0, "meta-data");
    assert_eq!(files[2], ("network-config".to_string(), "net".to_string()));
    let args = CloudInitSeed::mkisofs_args("/x/vm1-seed.iso", "/x/vm1");
    assert_eq!(args, vec!["-o", "/x/vm1-seed.iso", "-V", "cidata", "-J", "-r", "-input-charset", "utf-8", "/x/vm1"]);
}

#[test]
fn path_join_matches_std() {
    for (b, n) in [("/a/b", "c"), ("/a/b/", "c"), ("", "c"), ("/a", "/abs")] {
        let std = std::path::Path::new(b).join(n);
        assert_eq!(join_path(b, n), std.to_str().unwrap());
    }
}

fn s(x: &str) -> Option<String> {
    Some(x.to_string())
}

#[test]
fn options_with_admin_user_and_packages() {
    let c = CloudInitConfig::from_options("web", None, s("ssh-ed25519 AAA"), s("ops"), s(" nginx, curl ,vim"), true, None, None);
    assert_eq!(c.hostname, "web");
    assert!(c.ssh_authorized_keys.is_empty());
    assert_eq!(c.users.len(), 1);
    assert_eq!(c.users[0].name, "ops");
    assert_eq!(c.users[0].sudo.as_deref(), Some("ALL=(ALL) NOPASSWD:ALL"));
    assert_eq!(c.users[0].groups, vec!["wheel".to_string()]);
    assert_eq!(c.users[0].ssh_authorized_keys, vec!["ssh-ed25519 AAA".to_string()]);
    assert_eq!(c.packages, vec!["nginx".to_string(), "curl".to_string(), "vim".to_string()]);
    assert_eq!(c.network_config, Some(CloudInitSeed::generate_dhcp_network_config()));
    assert!(c.runcmd.is_empty() && c.write_files.is_empty());
}

#[test]
fn options_with_key_only_and_static_address() {
    let c = CloudInitConfig::from_options("web", s("www"), s("ssh-rsa K"), None, None, false, s("192.168.1.100/24"), s("192.168.1.1"));
    assert_eq!(c.hostname, "www");
    assert_eq!(c.ssh_authorized_keys, vec!["ssh-rsa K".to_string()]);
    assert!(c.users.is_empty() && c.packages.is_empty());
    assert_eq!(
        c.network_config.unwrap(),
        "version: 2\nethernets:\n  vtnet0:\n    addresses:\n      - 192.168.1.100/24\n    gateway4: 192.168.1.1\n    nameservers:\n      addresses:\n        - 8.8.8.8\n"
    );
}

#[test]
fn options_with_address_but_no_gateway() {
    let c = CloudInitConfig::from_options("web", None, None, None, s(""), false, s("10.0.0.2/24"), None);
    assert!(c.network_config.is_none());
    assert_eq!(c.packages, vec!["".to_string()]);
}
