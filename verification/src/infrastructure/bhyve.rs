//! bhyve runtime: ZVOL names and the bhyve command line of a VM.
//!
//! Reference: <https://docs.freebsd.org/en/books/handbook/virtualization/#virtualization-host-bhyve>
use crate::domain::vm::{ConsoleType, NetworkBackend, VirtualMachine, VmView, NetworkBackendView};
use crate::text::{dec, hex2, push_dec, push_hex2};
use vstd::prelude::*;

verus! {

/// bhyve runtime: manages bhyve processes and VM lifecycle, with ZVOLs
/// (ZFS volumes) for VM disks.
pub struct BhyveRuntime {
    pool: String,
    vm_root: String,
}

/// The ZFS dataset of a VM: `<pool>/<vm_root>/<name>`.
pub open spec fn runtime_dataset(pool: Seq<char>, vm_root: Seq<char>, name: Seq<char>) -> Seq<
    char,
> {
    pool + "/"@ + vm_root + "/"@ + name
}

/// The ZVOL dataset of a VM's disk: `<pool>/<vm_root>/<name>/disk`.
pub open spec fn disk_dataset_of(pool: Seq<char>, vm_root: Seq<char>, name: Seq<char>) -> Seq<
    char,
> {
    runtime_dataset(pool, vm_root, name) + "/disk"@
}

/// The device of a VM's disk: `/dev/zvol/<pool>/<vm_root>/<name>/disk`.
pub open spec fn disk_path_of(pool: Seq<char>, vm_root: Seq<char>, name: Seq<char>) -> Seq<char> {
    "/dev/zvol/"@ + disk_dataset_of(pool, vm_root, name)
}

/// A MAC address in bhyve's range `58:9c:fc` with the given last three octets.
pub open spec fn mac_text(a: u8, b: u8, c: u8) -> Seq<char> {
    "58:9c:fc:"@ + hex2(a) + ":"@ + hex2(b) + ":"@ + hex2(c)
}

/// The octet drawn for a MAC address from the count of draws so far (the
/// program keeps that count): its lowest byte, so successive draws cycle
/// through all 256 values.
pub fn random(count: u64) -> (octet: u8)
    ensures
        octet == count % 256,
{
    let low = count & 0xff;
    assert(low == count % 256 && low < 256) by (bit_vector)
        requires
            low == count & 0xff,
    ;
    low as u8
}

/// The network device of a backend: the bridge or the VALE switch.
pub open spec fn backend_device(b: NetworkBackendView) -> Seq<char> {
    match b {
        NetworkBackendView::TapBridge { bridge } => bridge,
        NetworkBackendView::Vale { switch } => switch,
    }
}

/// The arguments that attach the console.
pub open spec fn console_args(c: ConsoleType) -> Seq<Seq<char>> {
    match c {
        ConsoleType::Tty => seq!["-s"@, "1:0,lpc"@, "-l"@, "com1,/dev/nmdm0A"@],
        ConsoleType::Null => Seq::empty(),
        ConsoleType::Framebuffer { vnc_port } => seq![
            "-s"@,
            "1:0,fbuf,tcp=0.0.0.0:"@ + dec(vnc_port as nat),
            "-s"@,
            "31,lpc"@,
        ],
    }
}

/// The bhyve command line of a VM: CPUs and memory, the fixed flags
/// `-H -P -A -u`, the virtio network device on slot 2 with its MAC (the
/// configured one, else `fallback_mac`), the ZVOL disk on slot 3, the
/// console, and the VM name last.
pub open spec fn bhyve_args(
    pool: Seq<char>,
    vm_root: Seq<char>,
    vm: VmView,
    fallback_mac: Seq<char>,
) -> Seq<Seq<char>> {
    let mac = match vm.config.network.mac {
        Some(m) => m,
        None => fallback_mac,
    };
    seq![
        "-c"@,
        dec(vm.config.cpus as nat),
        "-m"@,
        dec(vm.config.memory_mb as nat),
        "-H"@,
        "-P"@,
        "-A"@,
        "-u"@,
        "-s"@,
        "2:0,virtio-net,"@ + backend_device(vm.config.network.backend) + ","@ + mac,
        "-s"@,
        "3:0,virtio-blk,"@ + disk_path_of(pool, vm_root, vm.name),
    ] + console_args(vm.config.console) + seq![vm.name]
}

fn text(s: &str) -> (r: String)
    ensures
        r@ == s@,
{
    s.to_owned()
}

impl BhyveRuntime {
    /// Create a new bhyve runtime.
    /// * `pool` - ZFS pool name (e.g., "zroot")
    /// * `vm_root` - Dataset path under pool (e.g., "veln")
    pub fn new(pool: String, vm_root: String) -> (r: Self)
        ensures
            r.pool() == pool@,
            r.vm_root() == vm_root@,
    {
        BhyveRuntime { pool, vm_root }
    }

    /// The pool name.
    pub closed spec fn pool(&self) -> Seq<char> {
        self.pool@
    }

    /// The dataset path under the pool.
    pub closed spec fn vm_root(&self) -> Seq<char> {
        self.vm_root@
    }

    /// The ZFS dataset of a VM.
    pub fn dataset_path(&self, name: &str) -> (r: String)
        ensures
            r@ == runtime_dataset(self.pool(), self.vm_root(), name@),
    {
        let mut s = self.pool.clone();
        s.append("/");
        s.append(self.vm_root.as_str());
        s.append("/");
        s.append(name);
        s
    }

    /// The ZVOL dataset of a VM's disk.
    pub fn disk_dataset(&self, name: &str) -> (r: String)
        ensures
            r@ == disk_dataset_of(self.pool(), self.vm_root(), name@),
    {
        let mut s = self.dataset_path(name);
        s.append("/disk");
        s
    }

    /// The device path of a VM's disk; ZVOLs appear under `/dev/zvol/`.
    pub fn disk_path(&self, name: &str) -> (r: String)
        ensures
            r@ == disk_path_of(self.pool(), self.vm_root(), name@),
    {
        let d = self.disk_dataset(name);
        let mut s = text("/dev/zvol/");
        s.append(d.as_str());
        s
    }

    /// A MAC address in the bhyve range (locally administered) with the given
    /// last three octets.
    pub fn generate_mac(a: u8, b: u8, c: u8) -> (r: String)
        ensures
            r@ == mac_text(a, b, c),
    {
        let mut s = text("58:9c:fc:");
        push_hex2(&mut s, a);
        s.push(':');
        push_hex2(&mut s, b);
        s.push(':');
        push_hex2(&mut s, c);
        proof {
            assert(mac_text(a, b, c) =~= "58:9c:fc:"@ + hex2(a) + seq![':'] + hex2(b) + seq![':']
                + hex2(c)) by {
                reveal_strlit(":");
            }
        }
        s
    }

    /// The bhyve arguments of a VM; a VM without a configured MAC address
    /// gets the one made of `fallback_octets`.
    pub fn build_bhyve_args(&self, vm: &VirtualMachine, fallback_octets: (u8, u8, u8)) -> (args:
        Vec<String>)
        ensures
            args@.map_values(|a: String| a@) == bhyve_args(
                self.pool(),
                self.vm_root(),
                vm@,
                mac_text(fallback_octets.0, fallback_octets.1, fallback_octets.2),
            ),
            args@.last()@ == vm.name@,
    {
        let mut args: Vec<String> = Vec::new();
        args.push(text("-c"));
        let mut cpus = String::new();
        push_dec(&mut cpus, vm.config.cpus as u64);
        args.push(cpus);
        args.push(text("-m"));
        let mut mem = String::new();
        push_dec(&mut mem, vm.config.memory_mb);
        args.push(mem);
        args.push(text("-H"));
        args.push(text("-P"));
        args.push(text("-A"));
        args.push(text("-u"));

        // Network
        let mac = match &vm.config.network.mac {
            Some(m) => m.clone(),
            None => BhyveRuntime::generate_mac(fallback_octets.0, fallback_octets.1, fallback_octets.2),
        };
        args.push(text("-s"));
        let device = match &vm.config.network.backend {
            NetworkBackend::TapBridge { bridge } => bridge.clone(),
            NetworkBackend::Vale { switch } => switch.clone(),
        };
        let mut net = text("2:0,virtio-net,");
        net.append(device.as_str());
        net.append(",");
        net.append(mac.as_str());
        args.push(net);

        // Disk
        let disk = self.disk_path(vm.name.as_str());
        args.push(text("-s"));
        let mut blk = text("3:0,virtio-blk,");
        blk.append(disk.as_str());
        args.push(blk);
        let ghost head = args@.map_values(|a: String| a@);

        // Console
        match &vm.config.console {
            ConsoleType::Tty => {
                args.push(text("-s"));
                args.push(text("1:0,lpc"));
                args.push(text("-l"));
                args.push(text("com1,/dev/nmdm0A"));
            },
            ConsoleType::Null => {},
            ConsoleType::Framebuffer { vnc_port } => {
                args.push(text("-s"));
                let mut fb = text("1:0,fbuf,tcp=0.0.0.0:");
                push_dec(&mut fb, *vnc_port as u64);
                args.push(fb);
                args.push(text("-s"));
                args.push(text("31,lpc"));
            },
        }

        // VM name (must be last)
        args.push(vm.name.clone());
        assert(args@.map_values(|a: String| a@) =~= bhyve_args(
            self.pool(),
            self.vm_root(),
            vm@,
            mac_text(fallback_octets.0, fallback_octets.1, fallback_octets.2),
        ));
        args
    }
}

} // verus!
