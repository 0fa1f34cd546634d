//! Cloud-init integration for VM initialization: the user-data, meta-data
//! and network-config documents of a VM's seed, and where the seed goes.
//!
//! References:
//! - Cloud-init docs: <https://cloudinit.readthedocs.io/>
//! - FreeBSD cloud-init: <https://github.com/canonical/cloud-init>
use crate::config::Config;
use crate::domain::vm::opt_view;
use crate::text::{
    append_lines, join, lines, prefixed, push_line, push_prefixed, split, starts_with, text_join, text_lines,
    text_split, text_trim, trim, views,
};
use vstd::prelude::*;

verus! {

/// Cloud-init configuration for a VM.
#[derive(Debug, Clone)]
pub struct CloudInitConfig {
    /// Hostname for the VM
    pub hostname: String,
    /// SSH public keys to add
    pub ssh_authorized_keys: Vec<String>,
    /// User creation configuration
    pub users: Vec<CloudInitUser>,
    /// Network configuration
    pub network_config: Option<String>,
    /// Custom user-data scripts
    pub runcmd: Vec<String>,
    /// Package installation
    pub packages: Vec<String>,
    /// Write files to the VM
    pub write_files: Vec<WriteFile>,
}

/// Cloud-init user configuration.
#[derive(Debug, Clone)]
pub struct CloudInitUser {
    pub name: String,
    pub sudo: Option<String>,
    pub ssh_authorized_keys: Vec<String>,
    pub shell: String,
    pub groups: Vec<String>,
}

/// File to write via cloud-init.
#[derive(Debug, Clone)]
pub struct WriteFile {
    pub path: String,
    pub content: String,
    pub permissions: Option<String>,
    pub owner: Option<String>,
}

/// The model of a cloud-init user.
pub struct CloudInitUserView {
    pub name: Seq<char>,
    pub sudo: Option<Seq<char>>,
    pub ssh_authorized_keys: Seq<Seq<char>>,
    pub shell: Seq<char>,
    pub groups: Seq<Seq<char>>,
}

/// The model of a file to write.
pub struct WriteFileView {
    pub path: Seq<char>,
    pub content: Seq<char>,
    pub permissions: Option<Seq<char>>,
    pub owner: Option<Seq<char>>,
}

/// The model of a cloud-init configuration.
pub struct CloudInitConfigView {
    pub hostname: Seq<char>,
    pub ssh_authorized_keys: Seq<Seq<char>>,
    pub users: Seq<CloudInitUserView>,
    pub network_config: Option<Seq<char>>,
    pub runcmd: Seq<Seq<char>>,
    pub packages: Seq<Seq<char>>,
    pub write_files: Seq<WriteFileView>,
}

impl View for CloudInitUser {
    type V = CloudInitUserView;

    open spec fn view(&self) -> CloudInitUserView {
        CloudInitUserView {
            name: self.name@,
            sudo: opt_view(self.sudo),
            ssh_authorized_keys: views(self.ssh_authorized_keys@),
            shell: self.shell@,
            groups: views(self.groups@),
        }
    }
}

impl View for WriteFile {
    type V = WriteFileView;

    open spec fn view(&self) -> WriteFileView {
        WriteFileView {
            path: self.path@,
            content: self.content@,
            permissions: opt_view(self.permissions),
            owner: opt_view(self.owner),
        }
    }
}

impl View for CloudInitConfig {
    type V = CloudInitConfigView;

    open spec fn view(&self) -> CloudInitConfigView {
        CloudInitConfigView {
            hostname: self.hostname@,
            ssh_authorized_keys: views(self.ssh_authorized_keys@),
            users: self.users@.map_values(|u: CloudInitUser| u@),
            network_config: opt_view(self.network_config),
            runcmd: views(self.runcmd@),
            packages: views(self.packages@),
            write_files: self.write_files@.map_values(|f: WriteFile| f@),
        }
    }
}

/// The default configuration: hostname `veln-vm` and nothing else.
pub open spec fn default_cloud_init_view() -> CloudInitConfigView {
    CloudInitConfigView {
        hostname: "veln-vm"@,
        ssh_authorized_keys: Seq::empty(),
        users: Seq::empty(),
        network_config: None,
        runcmd: Seq::empty(),
        packages: Seq::empty(),
        write_files: Seq::empty(),
    }
}

impl Default for CloudInitConfig {
    fn default() -> (c: Self)
        ensures
            c@ == default_cloud_init_view(),
    {
        let c = CloudInitConfig {
            hostname: "veln-vm".to_owned(),
            ssh_authorized_keys: Vec::new(),
            users: Vec::new(),
            network_config: None,
            runcmd: Vec::new(),
            packages: Vec::new(),
            write_files: Vec::new(),
        };
        assert(c@.users =~= Seq::<CloudInitUserView>::empty());
        assert(c@.write_files =~= Seq::<WriteFileView>::empty());
        assert(c@.ssh_authorized_keys =~= Seq::<Seq<char>>::empty());
        assert(c@.runcmd =~= Seq::<Seq<char>>::empty());
        assert(c@.packages =~= Seq::<Seq<char>>::empty());
        c
    }
}

// ---------------------------------------------------------------------------
// The user-data document
// ---------------------------------------------------------------------------
/// The user-data lines of one user: name and shell, then the groups (joined
/// by ", "), the sudo rule and the SSH keys where there are any.
pub open spec fn user_lines(u: CloudInitUserView) -> Seq<Seq<char>> {
    seq!["  - name: "@ + u.name, "    shell: "@ + u.shell] + (if u.groups.len() > 0 {
        seq!["    groups: "@ + join(u.groups, ", "@)]
    } else {
        Seq::empty()
    }) + (match u.sudo {
        Some(s) => seq!["    sudo: "@ + s],
        None => Seq::empty(),
    }) + (if u.ssh_authorized_keys.len() > 0 {
        seq!["    ssh_authorized_keys:"@] + prefixed(u.ssh_authorized_keys, "      - "@)
    } else {
        Seq::empty()
    })
}

/// The user-data lines of all users, in order.
pub open spec fn all_user_lines(us: Seq<CloudInitUserView>) -> Seq<Seq<char>>
    decreases us.len(),
{
    if us.len() == 0 {
        Seq::empty()
    } else {
        all_user_lines(us.drop_last()) + user_lines(us.last())
    }
}

/// The user-data lines of one file: its path, permissions and owner where
/// given, then its content as a literal block, each line indented.
pub open spec fn file_lines(f: WriteFileView) -> Seq<Seq<char>> {
    seq!["  - path: "@ + f.path] + (match f.permissions {
        Some(p) => seq!["    permissions: '"@ + p + "'"@],
        None => Seq::empty(),
    }) + (match f.owner {
        Some(o) => seq!["    owner: "@ + o],
        None => Seq::empty(),
    }) + seq!["    content: |"@] + prefixed(lines(f.content), "      "@)
}

/// The user-data lines of all files, in order.
pub open spec fn all_file_lines(fs: Seq<WriteFileView>) -> Seq<Seq<char>>
    decreases fs.len(),
{
    if fs.len() == 0 {
        Seq::empty()
    } else {
        all_file_lines(fs.drop_last()) + file_lines(fs.last())
    }
}

/// A section: its header and body, or nothing when there are no items.
pub open spec fn section(present: bool, body: Seq<Seq<char>>) -> Seq<Seq<char>> {
    if present {
        body
    } else {
        Seq::empty()
    }
}

/// The lines of the `#cloud-config` user-data document: the header, the
/// hostname, then the users, default SSH keys, packages (with a package
/// update), files and commands, each section only when it has items.
pub open spec fn user_data_lines(c: CloudInitConfigView) -> Seq<Seq<char>> {
    seq!["#cloud-config"@, "hostname: "@ + c.hostname, "manage_etc_hosts: true"@] + section(
        c.users.len() > 0,
        seq!["users:"@] + all_user_lines(c.users),
    ) + section(
        c.ssh_authorized_keys.len() > 0,
        seq!["ssh_authorized_keys:"@] + prefixed(c.ssh_authorized_keys, "  - "@),
    ) + section(
        c.packages.len() > 0,
        seq!["packages:"@] + prefixed(c.packages, "  - "@) + seq!["package_update: true"@],
    ) + section(
        c.write_files.len() > 0,
        seq!["write_files:"@] + all_file_lines(c.write_files),
    ) + section(c.runcmd.len() > 0, seq!["runcmd:"@] + prefixed(c.runcmd, "  - "@))
}

/// The user-data document: its lines joined by newlines.
pub open spec fn user_data(c: CloudInitConfigView) -> Seq<char> {
    join(user_data_lines(c), "\n"@)
}

/// The meta-data document of a VM.
pub open spec fn meta_data(vm_name: Seq<char>, hostname: Seq<char>) -> Seq<char> {
    "instance-id: "@ + vm_name + "\nlocal-hostname: "@ + hostname
}

/// The network-config document for DHCP on virtio NICs.
pub open spec fn dhcp_network_config() -> Seq<char> {
    "version: 2\nethernets:\n  nics:\n    match:\n      driver: virtio_net\n    dhcp4: true\n"@
}

/// The network-config document for a static address.
pub open spec fn static_network_config(
    interface: Seq<char>,
    ip: Seq<char>,
    gateway: Seq<char>,
    dns: Seq<Seq<char>>,
) -> Seq<char> {
    "version: 2\nethernets:\n  "@ + interface + ":\n    addresses:\n      - "@ + ip
        + "\n    gateway4: "@ + gateway + "\n    nameservers:\n      addresses:\n        - "@
        + join(dns, ", "@) + "\n"@
}

fn user_lines_exec(u: &CloudInitUser) -> (ls: Vec<String>)
    ensures
        views(ls@) == user_lines(u@),
{
    let mut ls: Vec<String> = Vec::new();
    let mut l1 = "  - name: ".to_owned();
    l1.append(u.name.as_str());
    push_line(&mut ls, l1);
    let mut l2 = "    shell: ".to_owned();
    l2.append(u.shell.as_str());
    push_line(&mut ls, l2);
    let ghost a = views(ls@);
    if u.groups.len() > 0 {
        let mut g = "    groups: ".to_owned();
        let joined = text_join(&u.groups, ", ");
        g.append(joined.as_str());
        push_line(&mut ls, g);
    }
    let ghost b = views(ls@);
    match &u.sudo {
        Some(s) => {
            let mut l = "    sudo: ".to_owned();
            l.append(s.as_str());
            push_line(&mut ls, l);
        },
        None => {},
    }
    let ghost c = views(ls@);
    if u.ssh_authorized_keys.len() > 0 {
        push_line(&mut ls, "    ssh_authorized_keys:".to_owned());
        push_prefixed(&mut ls, "      - ", &u.ssh_authorized_keys);
    }
    assert(views(ls@) =~= user_lines(u@));
    ls
}

fn file_lines_exec(f: &WriteFile) -> (ls: Vec<String>)
    ensures
        views(ls@) == file_lines(f@),
{
    let mut ls: Vec<String> = Vec::new();
    let mut l1 = "  - path: ".to_owned();
    l1.append(f.path.as_str());
    push_line(&mut ls, l1);
    match &f.permissions {
        Some(p) => {
            let mut l = "    permissions: '".to_owned();
            l.append(p.as_str());
            l.append("'");
            push_line(&mut ls, l);
        },
        None => {},
    }
    match &f.owner {
        Some(o) => {
            let mut l = "    owner: ".to_owned();
            l.append(o.as_str());
            push_line(&mut ls, l);
        },
        None => {},
    }
    push_line(&mut ls, "    content: |".to_owned());
    let content_lines = text_lines(f.content.as_str());
    push_prefixed(&mut ls, "      ", &content_lines);
    assert(views(ls@) =~= file_lines(f@));
    ls
}

/// A section of items, each as `"  - " + item`, under a header, with the
/// line `package_update: true` after them when `update` holds; nothing when
/// there are no items.
pub open spec fn list_section(header: Seq<char>, items: Seq<Seq<char>>, update: bool) -> Seq<
    Seq<char>,
> {
    if items.len() > 0 {
        seq![header] + prefixed(items, "  - "@) + (if update {
            seq!["package_update: true"@]
        } else {
            Seq::empty()
        })
    } else {
        Seq::empty()
    }
}

fn push_list_section(ls: &mut Vec<String>, header: &str, items: &Vec<String>, update: bool)
    ensures
        views(final(ls)@) == views(old(ls)@) + list_section(header@, views(items@), update),
{
    if items.len() > 0 {
        push_line(ls, header.to_owned());
        push_prefixed(ls, "  - ", items);
        if update {
            push_line(ls, "package_update: true".to_owned());
        }
    }
    assert(views(ls@) =~= views(old(ls)@) + list_section(header@, views(items@), update));
}

fn push_users_section(ls: &mut Vec<String>, users: &Vec<CloudInitUser>)
    ensures
        views(final(ls)@) == views(old(ls)@) + section(
            users@.len() > 0,
            seq!["users:"@] + all_user_lines(users@.map_values(|u: CloudInitUser| u@)),
        ),
{
    let ghost us = users@.map_values(|u: CloudInitUser| u@);
    if users.len() > 0 {
        push_line(ls, "users:".to_owned());
        let n = users.len();
        let ghost start = views(ls@);
        for i in 0..n
            invariant
                n == users@.len(),
                us == users@.map_values(|u: CloudInitUser| u@),
                views(ls@) == start + all_user_lines(us.take(i as int)),
        {
            let more = user_lines_exec(&users[i]);
            append_lines(ls, more);
            assert(us.take(i + 1).drop_last() =~= us.take(i as int));
            assert(start + all_user_lines(us.take(i + 1)) =~= start + all_user_lines(
                us.take(i as int),
            ) + user_lines(users@[i as int]@));
        }
        assert(us.take(n as int) =~= us);
    }
    assert(views(ls@) =~= views(old(ls)@) + section(
        users@.len() > 0,
        seq!["users:"@] + all_user_lines(us),
    ));
}

fn push_files_section(ls: &mut Vec<String>, files: &Vec<WriteFile>)
    ensures
        views(final(ls)@) == views(old(ls)@) + section(
            files@.len() > 0,
            seq!["write_files:"@] + all_file_lines(files@.map_values(|f: WriteFile| f@)),
        ),
{
    let ghost fs = files@.map_values(|f: WriteFile| f@);
    if files.len() > 0 {
        push_line(ls, "write_files:".to_owned());
        let n = files.len();
        let ghost start = views(ls@);
        for i in 0..n
            invariant
                n == files@.len(),
                fs == files@.map_values(|f: WriteFile| f@),
                views(ls@) == start + all_file_lines(fs.take(i as int)),
        {
            let more = file_lines_exec(&files[i]);
            append_lines(ls, more);
            assert(fs.take(i + 1).drop_last() =~= fs.take(i as int));
            assert(start + all_file_lines(fs.take(i + 1)) =~= start + all_file_lines(
                fs.take(i as int),
            ) + file_lines(files@[i as int]@));
        }
        assert(fs.take(n as int) =~= fs);
    }
    assert(views(ls@) =~= views(old(ls)@) + section(
        files@.len() > 0,
        seq!["write_files:"@] + all_file_lines(fs),
    ));
}

/// Cloud-init seed generator: the documents and files of a VM's seed ISO.
pub struct CloudInitSeed {
    seed_dir: String,
}

/// The directory of the seeds of a configuration: `/<pool>/<vm_root>/cloud-init`.
pub open spec fn seed_dir_of(pool: Seq<char>, vm_root: Seq<char>) -> Seq<char> {
    "/"@ + pool + "/"@ + vm_root + "/cloud-init"@
}

/// A path joined with a relative or absolute name (as `Path::join`): an
/// absolute name replaces the path; otherwise a `/` separates them unless
/// the path already ends with one.
pub open spec fn path_join(base: Seq<char>, name: Seq<char>) -> Seq<char> {
    if name.len() > 0 && name[0] == '/' {
        name
    } else if base.len() == 0 || base.last() == '/' {
        base + name
    } else {
        base + "/"@ + name
    }
}

/// Joins a path and a name (as `Path::join` on UTF-8 paths).
pub fn join_path(base: &str, name: &str) -> (r: String)
    ensures
        r@ == path_join(base@, name@),
{
    let vb = crate::text::chars_of(base);
    let vn = crate::text::chars_of(name);
    if vn.len() > 0 && vn[0] == '/' {
        name.to_owned()
    } else if vb.len() == 0 || vb[vb.len() - 1] == '/' {
        let mut s = base.to_owned();
        s.append(name);
        s
    } else {
        let mut s = base.to_owned();
        s.append("/");
        s.append(name);
        s
    }
}

impl CloudInitSeed {
    /// The seed generator of a configuration, which keeps its seeds in
    /// `/<pool>/<vm_root>/cloud-init` (the directory is created by the caller).
    pub fn for_config(config: &Config) -> (r: Self)
        ensures
            r.seed_dir() == seed_dir_of(config.zfs_pool@, config.vm_root@),
    {
        let mut d = "/".to_owned();
        d.append(config.zfs_pool.as_str());
        d.append("/");
        d.append(config.vm_root.as_str());
        d.append("/cloud-init");
        CloudInitSeed { seed_dir: d }
    }

    /// The directory of the seeds.
    pub closed spec fn seed_dir(&self) -> Seq<char> {
        self.seed_dir@
    }

    /// The directory of the seeds, as text.
    pub fn seed_dir_text(&self) -> (r: String)
        ensures
            r@ == self.seed_dir(),
    {
        self.seed_dir.clone()
    }

    /// The working directory of a VM's seed documents.
    pub fn vm_seed_dir(&self, vm_name: &str) -> (r: String)
        ensures
            r@ == path_join(self.seed_dir(), vm_name@),
    {
        join_path(self.seed_dir.as_str(), vm_name)
    }

    /// The seed ISO of a VM: `<seed_dir>/<vm_name>-seed.iso`.
    pub fn seed_iso_path(&self, vm_name: &str) -> (r: String)
        ensures
            r@ == path_join(self.seed_dir(), vm_name@ + "-seed.iso"@),
    {
        let mut f = vm_name.to_owned();
        f.append("-seed.iso");
        join_path(self.seed_dir.as_str(), f.as_str())
    }

    /// The files of a VM's seed, as (file name, content): `user-data`,
    /// `meta-data`, and `network-config` when the configuration has one.
    pub fn seed_files(vm_name: &str, config: &CloudInitConfig) -> (files: Vec<(String, String)>)
        ensures
            files@.len() == (if config.network_config is Some {
                3int
            } else {
                2int
            }),
            files@[0].0@ == "user-data"@,
            files@[0].1@ == user_data(config@),
            files@[1].0@ == "meta-data"@,
            files@[1].1@ == meta_data(vm_name@, config.hostname@),
            config.network_config matches Some(n) ==> files@[2].0@ == "network-config"@
                && files@[2].1@ == n@,
    {
        let mut files: Vec<(String, String)> = Vec::new();
        files.push(("user-data".to_owned(), CloudInitSeed::generate_user_data(config)));
        files.push(("meta-data".to_owned(), CloudInitSeed::generate_meta_data(vm_name, config)));
        match &config.network_config {
            Some(n) => {
                files.push(("network-config".to_owned(), n.clone()));
            },
            None => {},
        }
        files
    }

    /// The arguments of `mkisofs` that build the seed ISO from the seed
    /// directory, with volume label `cidata` (Joliet and Rock Ridge names).
    pub fn mkisofs_args(iso_path: &str, vm_seed_dir: &str) -> (args: Vec<String>)
        ensures
            views(args@) == seq![
                "-o"@,
                iso_path@,
                "-V"@,
                "cidata"@,
                "-J"@,
                "-r"@,
                "-input-charset"@,
                "utf-8"@,
                vm_seed_dir@,
            ],
    {
        let mut args: Vec<String> = Vec::new();
        args.push("-o".to_owned());
        args.push(iso_path.to_owned());
        args.push("-V".to_owned());
        args.push("cidata".to_owned());
        args.push("-J".to_owned());
        args.push("-r".to_owned());
        args.push("-input-charset".to_owned());
        args.push("utf-8".to_owned());
        args.push(vm_seed_dir.to_owned());
        assert(views(args@) =~= seq![
            "-o"@,
            iso_path@,
            "-V"@,
            "cidata"@,
            "-J"@,
            "-r"@,
            "-input-charset"@,
            "utf-8"@,
            vm_seed_dir@,
        ]);
        args
    }

    /// The `#cloud-config` user-data document of a configuration.
    pub fn generate_user_data(config: &CloudInitConfig) -> (r: String)
        ensures
            r@ == user_data(config@),
    {
        let mut ls: Vec<String> = Vec::new();
        push_line(&mut ls, "#cloud-config".to_owned());
        let mut h = "hostname: ".to_owned();
        h.append(config.hostname.as_str());
        push_line(&mut ls, h);
        push_line(&mut ls, "manage_etc_hosts: true".to_owned());
        let ghost s0 = views(ls@);
        push_users_section(&mut ls, &config.users);
        let ghost s1 = views(ls@);
        push_list_section(&mut ls, "ssh_authorized_keys:", &config.ssh_authorized_keys, false);
        let ghost s2 = views(ls@);
        push_list_section(&mut ls, "packages:", &config.packages, true);
        let ghost s3 = views(ls@);
        push_files_section(&mut ls, &config.write_files);
        let ghost s4 = views(ls@);
        push_list_section(&mut ls, "runcmd:", &config.runcmd, false);
        proof {
            let cv = config@;
            assert(views(ls@) == s4 + list_section("runcmd:"@, cv.runcmd, false));
            assert(list_section("runcmd:"@, cv.runcmd, false) =~= section(
                cv.runcmd.len() > 0,
                seq!["runcmd:"@] + prefixed(cv.runcmd, "  - "@),
            ));
            assert(list_section("ssh_authorized_keys:"@, cv.ssh_authorized_keys, false) =~= section(
                cv.ssh_authorized_keys.len() > 0,
                seq!["ssh_authorized_keys:"@] + prefixed(cv.ssh_authorized_keys, "  - "@),
            ));
            assert(list_section("packages:"@, cv.packages, true) =~= section(
                cv.packages.len() > 0,
                seq!["packages:"@] + prefixed(cv.packages, "  - "@) + seq!["package_update: true"@],
            ));
            assert(views(ls@) =~= user_data_lines(cv));
        }
        text_join(&ls, "\n")
    }

    /// The meta-data document of a VM: its instance id and hostname.
    pub fn generate_meta_data(vm_name: &str, config: &CloudInitConfig) -> (r: String)
        ensures
            r@ == meta_data(vm_name@, config.hostname@),
    {
        let mut s = "instance-id: ".to_owned();
        s.append(vm_name);
        s.append("\nlocal-hostname: ");
        s.append(config.hostname.as_str());
        s
    }

    /// Generate a basic network config for DHCP.
    pub fn generate_dhcp_network_config() -> (r: String)
        ensures
            r@ == dhcp_network_config(),
    {
        "version: 2\nethernets:\n  nics:\n    match:\n      driver: virtio_net\n    dhcp4: true\n".to_owned()
    }

    /// Generate a static IP network config.
    pub fn generate_static_network_config(
        interface: &str,
        ip: &str,
        gateway: &str,
        dns: &Vec<String>,
    ) -> (r: String)
        ensures
            r@ == static_network_config(interface@, ip@, gateway@, views(dns@)),
    {
        let dns_str = text_join(dns, ", ");
        let mut s = "version: 2\nethernets:\n  ".to_owned();
        s.append(interface);
        s.append(":\n    addresses:\n      - ");
        s.append(ip);
        s.append("\n    gateway4: ");
        s.append(gateway);
        s.append("\n    nameservers:\n      addresses:\n        - ");
        s.append(dns_str.as_str());
        s.append("\n");
        s
    }
}

/// The model of the standard admin user: sudo without password, `/bin/sh`,
/// group `wheel`, no keys.
pub open spec fn admin_user_view(name: Seq<char>) -> CloudInitUserView {
    CloudInitUserView {
        name: name,
        sudo: Some("ALL=(ALL) NOPASSWD:ALL"@),
        ssh_authorized_keys: Seq::empty(),
        shell: "/bin/sh"@,
        groups: seq!["wheel"@],
    }
}

impl CloudInitUser {
    /// Create a standard admin user with sudo access.
    pub fn admin_user(name: &str) -> (u: Self)
        ensures
            u@ == admin_user_view(name@),
    {
        let mut groups: Vec<String> = Vec::new();
        groups.push("wheel".to_owned());
        let u = CloudInitUser {
            name: name.to_owned(),
            sudo: Some("ALL=(ALL) NOPASSWD:ALL".to_owned()),
            ssh_authorized_keys: Vec::new(),
            shell: "/bin/sh".to_owned(),
            groups,
        };
        assert(u@.groups =~= seq!["wheel"@]);
        assert(u@.ssh_authorized_keys =~= Seq::<Seq<char>>::empty());
        u
    }
}

/// The packages of a comma-separated list, each trimmed.
pub open spec fn package_list(list: Seq<char>) -> Seq<Seq<char>> {
    split(list, ',').map_values(|p: Seq<char>| trim(p))
}

/// The configuration that `cloud-init generate` makes for a VM from its
/// options: the hostname (the VM's name by default); an admin user, who gets
/// the SSH key, or else the key for the default user; the packages of a
/// comma-separated list; DHCP networking, or a static address with its
/// gateway on `vtnet0` with DNS server 8.8.8.8 when both are given.
pub open spec fn options_config(
    vm: Seq<char>,
    hostname: Option<Seq<char>>,
    ssh_key: Option<Seq<char>>,
    admin_user: Option<Seq<char>>,
    packages: Option<Seq<char>>,
    dhcp: bool,
    ip: Option<Seq<char>>,
    gateway: Option<Seq<char>>,
) -> CloudInitConfigView {
    let keys = match ssh_key {
        Some(k) => seq![k],
        None => Seq::empty(),
    };
    CloudInitConfigView {
        hostname: match hostname {
            Some(h) => h,
            None => vm,
        },
        ssh_authorized_keys: match admin_user {
            Some(_) => Seq::empty(),
            None => keys,
        },
        users: match admin_user {
            Some(u) => seq![CloudInitUserView { ssh_authorized_keys: keys, ..admin_user_view(u) }],
            None => Seq::empty(),
        },
        network_config: if dhcp {
            Some(dhcp_network_config())
        } else {
            match (ip, gateway) {
                (Some(i), Some(g)) => Some(static_network_config("vtnet0"@, i, g, seq!["8.8.8.8"@])),
                _ => None,
            }
        },
        runcmd: Seq::empty(),
        packages: match packages {
            Some(p) => package_list(p),
            None => Seq::empty(),
        },
        write_files: Seq::empty(),
    }
}

fn trimmed_packages(list: &str) -> (r: Vec<String>)
    ensures
        views(r@) == package_list(list@),
{
    let parts = text_split(list, ',');
    let mut r: Vec<String> = Vec::new();
    let mut i: usize = 0;
    while i < parts.len()
        invariant
            i <= parts@.len(),
            parts@.map_values(|p: String| p@) == split(list@, ','),
            views(r@) == package_list(list@).take(i as int),
        decreases parts@.len() - i,
    {
        let t = text_trim(parts[i].as_str());
        push_line(&mut r, t);
        assert(package_list(list@).take(i + 1) =~= package_list(list@).take(i as int).push(
            trim(parts@[i as int]@),
        ));
        assert(views(r@) =~= package_list(list@).take(i + 1));
        i = i + 1;
    }
    assert(package_list(list@).take(i as int) =~= package_list(list@));
    r
}

impl CloudInitConfig {
    /// The configuration of `cloud-init generate` for a VM from its options.
    pub fn from_options(
        vm: &str,
        hostname: Option<String>,
        ssh_key: Option<String>,
        admin_user: Option<String>,
        packages: Option<String>,
        dhcp: bool,
        ip: Option<String>,
        gateway: Option<String>,
    ) -> (c: Self)
        ensures
            c@ == options_config(
                vm@,
                opt_view(hostname),
                opt_view(ssh_key),
                opt_view(admin_user),
                opt_view(packages),
                dhcp,
                opt_view(ip),
                opt_view(gateway),
            ),
    {
        let host = match hostname {
            Some(h) => h,
            None => vm.to_owned(),
        };
        let mut users: Vec<CloudInitUser> = Vec::new();
        let mut keys: Vec<String> = Vec::new();
        match admin_user {
            Some(name) => {
                let mut user = CloudInitUser::admin_user(name.as_str());
                match ssh_key {
                    Some(k) => {
                        push_line(&mut user.ssh_authorized_keys, k);
                    },
                    None => {},
                }
                users.push(user);
            },
            None => {
                match ssh_key {
                    Some(k) => {
                        push_line(&mut keys, k);
                    },
                    None => {},
                }
            },
        }
        let pkgs = match packages {
            Some(p) => trimmed_packages(p.as_str()),
            None => Vec::new(),
        };
        let network_config = if dhcp {
            Some(CloudInitSeed::generate_dhcp_network_config())
        } else {
            match (ip, gateway) {
                (Some(i), Some(g)) => {
                    let mut dns: Vec<String> = Vec::new();
                    push_line(&mut dns, "8.8.8.8".to_owned());
                    assert(views(dns@) =~= seq!["8.8.8.8"@]);
                    Some(
                        CloudInitSeed::generate_static_network_config(
                            "vtnet0",
                            i.as_str(),
                            g.as_str(),
                            &dns,
                        ),
                    )
                },
                _ => None,
            }
        };
        let c = CloudInitConfig {
            hostname: host,
            ssh_authorized_keys: keys,
            users,
            network_config,
            runcmd: Vec::new(),
            packages: pkgs,
            write_files: Vec::new(),
        };
        proof {
            let want = options_config(
                vm@,
                opt_view(hostname),
                opt_view(ssh_key),
                opt_view(admin_user),
                opt_view(packages),
                dhcp,
                opt_view(ip),
                opt_view(gateway),
            );
            assert(c@.users =~= want.users);
            assert(c@.ssh_authorized_keys =~= want.ssh_authorized_keys);
            assert(c@.runcmd =~= want.runcmd);
            assert(c@.write_files =~= want.write_files);
            assert(c@.packages =~= want.packages);
        }
        c
    }
}


/// The user-data lines of a file: first `  - path: <path>`; then
/// `    permissions: '<mode>'` when a mode is given, and `    owner: <owner>`
/// when an owner is given, in that order; then `    content: |` and each
/// line of the content indented by six spaces. A file without an owner has
/// no owner line, and one without a mode no permissions line.
pub proof fn lemma_file_lines_shape(f: WriteFileView)
    ensures
        ({
            let ls = file_lines(f);
            let p: int = if f.permissions is Some { 1 } else { 0 };
            let o: int = if f.owner is Some { 1 } else { 0 };
            let body = lines(f.content);
            &&& ls.len() == 2 + p + o + body.len()
            &&& ls[0] == "  - path: "@ + f.path
            &&& (f.permissions matches Some(m) ==> ls[1] == "    permissions: '"@ + m + "'"@)
            &&& (f.owner matches Some(w) ==> ls[1 + p] == "    owner: "@ + w && ls.contains(
                "    owner: "@ + w,
            ))
            &&& ls[1 + p + o] == "    content: |"@
            &&& forall|i: int| 0 <= i < body.len() ==> ls[2 + p + o + i] == "      "@ + body[i]
            &&& (f.owner is None ==> forall|i: int|
                0 <= i < ls.len() ==> !starts_with(#[trigger] ls[i], "    owner: "@))
            &&& (f.permissions is None ==> forall|i: int|
                0 <= i < ls.len() ==> !starts_with(#[trigger] ls[i], "    permissions: "@))
        }),
{
    reveal_strlit("  - path: ");
    reveal_strlit("    permissions: '");
    reveal_strlit("    permissions: ");
    reveal_strlit("    owner: ");
    reveal_strlit("    content: |");
    reveal_strlit("      ");
    let ls = file_lines(f);
    let p: int = if f.permissions is Some { 1 } else { 0 };
    let o: int = if f.owner is Some { 1 } else { 0 };
    let body = lines(f.content);
    let head = seq!["  - path: "@ + f.path] + (match f.permissions {
        Some(m) => seq!["    permissions: '"@ + m + "'"@],
        None => Seq::empty(),
    }) + (match f.owner {
        Some(w) => seq!["    owner: "@ + w],
        None => Seq::empty(),
    }) + seq!["    content: |"@];
    assert(ls == head + prefixed(body, "      "@));
    assert(head.len() == 2 + p + o);
    assert forall|i: int| 0 <= i < body.len() implies ls[2 + p + o + i] == "      "@ + body[i] by {
        assert(ls[2 + p + o + i] == prefixed(body, "      "@)[i]);
    }
    match f.owner {
        Some(w) => {
            assert(ls[1 + p] == "    owner: "@ + w);
            assert(ls.contains("    owner: "@ + w));
        },
        None => {},
    }
    assert forall|i: int| 0 <= i < ls.len() && starts_with(#[trigger] ls[i], "    owner: "@)
        implies f.owner is Some by {
        assert(ls[i].take(11)[4] == ls[i][4]);
        assert(ls[i][4] == 'o');
        if i >= 2 + p + o {
            assert(ls[i] == "      "@ + body[i - (2 + p + o)]);
        }
    }
    assert forall|i: int| 0 <= i < ls.len() && starts_with(#[trigger] ls[i], "    permissions: "@)
        implies f.permissions is Some by {
        assert(ls[i].take(17)[4] == ls[i][4]);
        assert(ls[i].take(17)[5] == ls[i][5]);
        assert(ls[i][4] == 'p' && ls[i][5] == 'e');
        if i >= 2 + p + o {
            assert(ls[i] == "      "@ + body[i - (2 + p + o)]);
        }
    }
}

} // verus!
