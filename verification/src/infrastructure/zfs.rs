//! ZFS-backed storage: dataset names, the commands that manage them, what
//! their output means, and the stored form of a VM's configuration.
//!
//! Each VM is a dataset `<root>/<name>` with its configuration in
//! `veln.toml` and its disk in the ZVOL `<root>/<name>/disk`.
use crate::command::{args2, args3, Command, CommandView, Outcome};
use crate::config::Config;
use crate::domain::vm::{
    opt_view, ConsoleType, NetworkBackend, NetworkBackendView, NetworkConfig, NetworkConfigView,
    Uuid, VirtualMachine, VmConfig, VmConfigView, VmState,
};
use crate::infrastructure::cloudinit::{join_path, path_join};
use crate::text::{
    chars_of, contains_text, lines, push_line, split, starts_with, string_of, text_eq, text_has_char,
    text_lines, text_split, text_strip_prefix, text_trim, trim, views,
};
use vstd::prelude::*;

verus! {

/// ZFS-based VM repository: stores VMs as ZFS datasets with configuration
/// files.
pub struct ZfsRepository {
    pool: String,
    root_dataset: String,
}

/// `s` without its leading slashes (as `trim_start_matches('/')`).
pub open spec fn strip_slashes(s: Seq<char>) -> Seq<char>
    decreases s.len(),
{
    if s.len() > 0 && s[0] == '/' {
        strip_slashes(s.drop_first())
    } else {
        s
    }
}

/// The root dataset of the VMs: the pool, then the VM root as a relative
/// dataset path (e.g. `/usr/local/vms` becomes `<pool>/usr/local/vms`).
pub open spec fn root_dataset_of(pool: Seq<char>, vm_root: Seq<char>) -> Seq<char> {
    let clean = strip_slashes(vm_root);
    if clean.len() == 0 {
        pool
    } else {
        pool + "/"@ + clean
    }
}

/// The dataset under a parent dataset.
pub open spec fn child(parent: Seq<char>, name: Seq<char>) -> Seq<char> {
    parent + "/"@ + name
}

/// The snapshot of a dataset.
pub open spec fn snapshot_of(dataset: Seq<char>, snapshot: Seq<char>) -> Seq<char> {
    dataset + "@"@ + snapshot
}

fn strip_slashes_exec(s: &str) -> (r: String)
    ensures
        r@ == strip_slashes(s@),
{
    let v = chars_of(s);
    let n = v.len();
    let mut i: usize = 0;
    assert(s@.skip(0) =~= s@);
    while i < n && v[i] == '/'
        invariant
            n == v@.len(),
            v@ == s@,
            i <= n,
            strip_slashes(s@) == strip_slashes(s@.skip(i as int)),
        decreases n - i,
    {
        assert(s@.skip(i as int)[0] == '/');
        assert(s@.skip(i as int).drop_first() =~= s@.skip(i + 1));
        i = i + 1;
    }
    assert(s@.skip(0) =~= s@);
    proof {
        if i < n {
            assert(s@.skip(i as int)[0] == v@[i as int]);
        }
    }
    string_of(v.as_slice().split_at(i).1)
}

/// The full name of a child dataset.
pub fn child_dataset(parent: &str, name: &str) -> (r: String)
    ensures
        r@ == child(parent@, name@),
{
    let mut s = parent.to_owned();
    s.append("/");
    s.append(name);
    s
}

/// The full name of a snapshot.
pub fn snapshot_name(dataset: &str, snapshot: &str) -> (r: String)
    ensures
        r@ == snapshot_of(dataset@, snapshot@),
{
    let mut s = dataset.to_owned();
    s.append("@");
    s.append(snapshot);
    s
}

/// `zfs list <dataset>`: succeeds exactly when the dataset exists.
pub fn zfs_list(dataset: &str) -> (c: Command)
    ensures
        c@ == (CommandView { program: "zfs"@, args: seq!["list"@, dataset@] }),
{
    Command::new("zfs", args2("list", dataset))
}

/// `zfs list -t snapshot <snapshot>`: succeeds exactly when the snapshot exists.
pub fn zfs_list_snapshot(snapshot: &str) -> (c: Command)
    ensures
        c@ == (CommandView {
            program: "zfs"@,
            args: seq!["list"@, "-t"@, "snapshot"@, snapshot@],
        }),
{
    let mut a = args3("list", "-t", "snapshot");
    push_line(&mut a, snapshot.to_owned());
    assert(views(a@) =~= seq!["list"@, "-t"@, "snapshot"@, snapshot@]);
    Command::new("zfs", a)
}

/// `zfs create -p <dataset>`: creates the dataset and its missing parents.
pub fn zfs_create_parents(dataset: &str) -> (c: Command)
    ensures
        c@ == (CommandView { program: "zfs"@, args: seq!["create"@, "-p"@, dataset@] }),
{
    Command::new("zfs", args3("create", "-p", dataset))
}

/// `zfs get -H -o value mountpoint <dataset>`: prints the mount point.
pub fn zfs_get_mountpoint(dataset: &str) -> (c: Command)
    ensures
        c@ == (CommandView {
            program: "zfs"@,
            args: seq!["get"@, "-H"@, "-o"@, "value"@, "mountpoint"@, dataset@],
        }),
{
    let mut a = args3("get", "-H", "-o");
    push_line(&mut a, "value".to_owned());
    push_line(&mut a, "mountpoint".to_owned());
    push_line(&mut a, dataset.to_owned());
    assert(views(a@) =~= seq!["get"@, "-H"@, "-o"@, "value"@, "mountpoint"@, dataset@]);
    Command::new("zfs", a)
}

/// Whether a dataset exists, from the outcome of `zfs list <dataset>`: a
/// command that could not be started counts as "no".
pub open spec fn exists_from(o: crate::domain::requirements::OutcomeView) -> bool {
    o matches crate::domain::requirements::OutcomeView::Ran { success, .. } && success
}

/// Whether a dataset exists, from the outcome of `zfs list <dataset>`.
pub fn dataset_exists_from(o: &Outcome) -> (r: bool)
    ensures
        r == exists_from(o@),
{
    match o {
        Outcome::Ran { success, .. } => *success,
        Outcome::SpawnFailed(_) => false,
    }
}

impl ZfsRepository {
    /// The repository of a configuration: the VMs live under the root
    /// dataset `<pool>/<vm_root without leading slashes>` (the pool alone
    /// when the VM root is empty or only slashes).
    pub fn new(config: &Config) -> (r: Self)
        ensures
            r.pool() == config.zfs_pool@,
            r.root_dataset() == root_dataset_of(config.zfs_pool@, config.vm_root@),
    {
        let clean = strip_slashes_exec(config.vm_root.as_str());
        let root_dataset = if chars_of(clean.as_str()).len() == 0 {
            config.zfs_pool.clone()
        } else {
            child_dataset(config.zfs_pool.as_str(), clean.as_str())
        };
        ZfsRepository { pool: config.zfs_pool.clone(), root_dataset }
    }

    /// The pool.
    pub closed spec fn pool(&self) -> Seq<char> {
        self.pool@
    }

    /// The root dataset of the VMs.
    pub closed spec fn root_dataset(&self) -> Seq<char> {
        self.root_dataset@
    }

    /// The root dataset of the VMs, as text.
    pub fn root_dataset_text(&self) -> (r: String)
        ensures
            r@ == self.root_dataset(),
    {
        self.root_dataset.clone()
    }

    /// The dataset of a VM: `<root>/<name>`.
    pub fn dataset_path(&self, name: &str) -> (r: String)
        ensures
            r@ == child(self.root_dataset(), name@),
    {
        child_dataset(self.root_dataset.as_str(), name)
    }

    /// The disk ZVOL of a VM: `<root>/<name>/disk`.
    pub fn disk_dataset(&self, name: &str) -> (r: String)
        ensures
            r@ == child(child(self.root_dataset(), name@), "disk"@),
    {
        let d = self.dataset_path(name);
        child_dataset(d.as_str(), "disk")
    }

    /// The mount point assumed for a VM when ZFS cannot tell:
    /// `/<pool>/<root>/<name>`.
    pub fn fallback_mount_point(&self, name: &str) -> (r: String)
        ensures
            r@ == "/"@ + self.pool() + "/"@ + self.root_dataset() + "/"@ + name@,
    {
        let mut s = "/".to_owned();
        s.append(self.pool.as_str());
        s.append("/");
        s.append(self.root_dataset.as_str());
        s.append("/");
        s.append(name);
        s
    }

    /// The mount point of a VM's dataset from the outcome of
    /// `zfs get -H -o value mountpoint`: the trimmed output, the fallback when
    /// the command failed, or an error when it could not be started.
    pub fn mount_point_from(&self, name: &str, o: &Outcome) -> (r: Result<String, crate::error::VelnError>)
        ensures
            match o@ {
                crate::domain::requirements::OutcomeView::SpawnFailed(e) => r matches Err(
                    crate::error::VelnError::ZfsError(m),
                ) && m@ == "Failed to get mountpoint: "@ + e,
                crate::domain::requirements::OutcomeView::Ran { success, stdout, .. } => if success {
                    r matches Ok(p) && p@ == trim(stdout)
                } else {
                    r matches Ok(p) && p@ == "/"@ + self.pool() + "/"@ + self.root_dataset() + "/"@
                        + name@
                },
            },
    {
        match o {
            Outcome::SpawnFailed(e) => {
                let mut m = "Failed to get mountpoint: ".to_owned();
                m.append(e.as_str());
                Err(crate::error::VelnError::ZfsError(m))
            },
            Outcome::Ran { success, stdout, .. } => {
                if *success {
                    Ok(text_trim(stdout.as_str()))
                } else {
                    Ok(self.fallback_mount_point(name))
                }
            },
        }
    }

    /// The path of a VM's configuration file under its mount point.
    pub fn config_path(mount_point: &str) -> (r: String)
        ensures
            r@ == path_join(mount_point@, "veln.toml"@),
    {
        join_path(mount_point, "veln.toml")
    }

    /// The datasets of the templates: `<pool>/<root>/templates`.
    pub fn templates_dataset(&self) -> (r: String)
        ensures
            r@ == self.pool() + "/"@ + self.root_dataset() + "/templates"@,
    {
        let mut s = self.pool.clone();
        s.append("/");
        s.append(self.root_dataset.as_str());
        s.append("/templates");
        s
    }

    /// The dataset of a template: `<pool>/<root>/templates/<name>`.
    pub fn template_dataset(&self, name: &str) -> (r: String)
        ensures
            r@ == self.pool() + "/"@ + self.root_dataset() + "/templates"@ + "/"@ + name@,
    {
        let t = self.templates_dataset();
        child_dataset(t.as_str(), name)
    }

    /// The metadata file of a template: `/<pool>/<root>/templates/<name>.json`.
    pub fn template_meta_path(&self, name: &str) -> (r: String)
        ensures
            r@ == "/"@ + self.pool() + "/"@ + self.root_dataset() + "/templates/"@ + name@
                + ".json"@,
    {
        let mut s = "/".to_owned();
        s.append(self.pool.as_str());
        s.append("/");
        s.append(self.root_dataset.as_str());
        s.append("/templates/");
        s.append(name);
        s.append(".json");
        s
    }

    /// The names of the VMs in the output of `zfs list -H -r -o name <root>`:
    /// the lines that name a direct child of the root dataset, in order.
    pub fn vm_names_from_listing(&self, stdout: &str) -> (names: Vec<String>)
        ensures
            views(names@) == vm_names(self.root_dataset(), lines(stdout@)),
    {
        let ls = text_lines(stdout);
        let mut prefix = self.root_dataset.clone();
        prefix.append("/");
        let mut names: Vec<String> = Vec::new();
        let n = ls.len();
        let ghost lv = views(ls@);
        for i in 0..n
            invariant
                n == ls@.len(),
                lv == views(ls@),
                prefix@ == self.root_dataset() + "/"@,
                views(names@) == vm_names(self.root_dataset(), lv.take(i as int)),
        {
            assert(lv.take(i + 1).drop_last() =~= lv.take(i as int));
            assert(lv.take(i + 1).last() == ls@[i as int]@);
            let line = ls[i].as_str();
            // Skip the root dataset itself
            if !text_eq(line, self.root_dataset.as_str()) {
                // Extract VM name from dataset path
                match text_strip_prefix(line, prefix.as_str()) {
                    Some(name) => {
                        // Only direct children (not nested datasets)
                        if !text_has_char(name.as_str(), '/') {
                            let ghost before = views(names@);
                            names.push(name);
                            assert(views(names@) =~= before.push(
                                ls@[i as int]@.skip(prefix@.len() as int),
                            ));
                        }
                    },
                    None => {},
                }
            }
        }
        assert(lv.take(n as int) =~= lv);
        names
    }
}

/// The VM names in the lines of a recursive dataset listing of `root`.
pub open spec fn vm_names(root: Seq<char>, ls: Seq<Seq<char>>) -> Seq<Seq<char>>
    decreases ls.len(),
{
    if ls.len() == 0 {
        Seq::empty()
    } else {
        let before = vm_names(root, ls.drop_last());
        let line = ls.last();
        let prefix = root + "/"@;
        if line != root && starts_with(line, prefix) && !line.skip(prefix.len() as int).contains(
            '/',
        ) {
            before.push(line.skip(prefix.len() as int))
        } else {
            before
        }
    }
}

// ---------------------------------------------------------------------------
// Snapshots
// ---------------------------------------------------------------------------
/// A snapshot in the output of `zfs list -t snapshot -H -o name,creation,used`:
/// its name (after the `@`), creation time and size field.
pub struct SnapshotLine {
    pub name: String,
    pub created: String,
    pub size_field: String,
}

/// The model of a snapshot line.
pub struct SnapshotLineView {
    pub name: Seq<char>,
    pub created: Seq<char>,
    pub size_field: Seq<char>,
}

impl View for SnapshotLine {
    type V = SnapshotLineView;

    open spec fn view(&self) -> SnapshotLineView {
        SnapshotLineView { name: self.name@, created: self.created@, size_field: self.size_field@ }
    }
}

/// The snapshot a listing line describes: a line with at least three
/// tab-separated fields whose first field names a snapshot (`dataset@snap`).
pub open spec fn snapshot_line(line: Seq<char>) -> Option<SnapshotLineView> {
    let parts = split(line, '\t');
    if parts.len() >= 3 && split(parts[0], '@').len() >= 2 {
        Some(
            SnapshotLineView {
                name: split(parts[0], '@')[1],
                created: parts[1],
                size_field: trim(parts[2]),
            },
        )
    } else {
        None
    }
}

/// The snapshots a listing describes, in order.
pub open spec fn snapshot_lines(ls: Seq<Seq<char>>) -> Seq<SnapshotLineView>
    decreases ls.len(),
{
    if ls.len() == 0 {
        Seq::empty()
    } else {
        match snapshot_line(ls.last()) {
            Some(e) => snapshot_lines(ls.drop_last()).push(e),
            None => snapshot_lines(ls.drop_last()),
        }
    }
}

fn snapshot_line_exec(line: &str) -> (r: Option<SnapshotLine>)
    ensures
        match snapshot_line(line@) {
            None => r is None,
            Some(e) => r matches Some(x) && x@ == e,
        },
{
    let parts = text_split(line, '\t');
    if parts.len() < 3 {
        return None;
    }
    assert(views(parts@)[0] == parts@[0]@);
    assert(views(parts@)[1] == parts@[1]@);
    assert(views(parts@)[2] == parts@[2]@);
    let at = text_split(parts[0].as_str(), '@');
    if at.len() < 2 {
        return None;
    }
    assert(views(at@)[1] == at@[1]@);
    Some(
        SnapshotLine {
            name: at[1].clone(),
            created: parts[1].clone(),
            size_field: text_trim(parts[2].as_str()),
        },
    )
}

/// The snapshots described by a listing's output, in order.
pub fn parse_snapshot_listing(stdout: &str) -> (entries: Vec<SnapshotLine>)
    ensures
        entries@.map_values(|e: SnapshotLine| e@) == snapshot_lines(lines(stdout@)),
{
    let ls = text_lines(stdout);
    let ghost lv = views(ls@);
    let mut entries: Vec<SnapshotLine> = Vec::new();
    let n = ls.len();
    for i in 0..n
        invariant
            n == ls@.len(),
            lv == views(ls@),
            entries@.map_values(|e: SnapshotLine| e@) == snapshot_lines(lv.take(i as int)),
    {
        assert(lv.take(i + 1).drop_last() =~= lv.take(i as int));
        assert(lv.take(i + 1).last() == ls@[i as int]@);
        match snapshot_line_exec(ls[i].as_str()) {
            Some(e) => {
                let ghost before = entries@.map_values(|e: SnapshotLine| e@);
                let ghost ev = e@;
                entries.push(e);
                assert(entries@.map_values(|e: SnapshotLine| e@) =~= before.push(ev));
            },
            None => {},
        }
    }
    assert(lv.take(n as int) =~= lv);
    entries
}

/// The comment stored for a snapshot, from the outcome of reading its user
/// property: the trimmed value, none when it is `-` (unset) or the command
/// failed.
pub open spec fn comment_from(o: crate::domain::requirements::OutcomeView) -> Option<Seq<char>> {
    match o {
        crate::domain::requirements::OutcomeView::Ran { success, stdout, .. } => if success && trim(
            stdout,
        ) != "-"@ {
            Some(trim(stdout))
        } else {
            None
        },
        _ => None,
    }
}

/// The comment stored for a snapshot, from the outcome of reading it.
pub fn snapshot_comment(o: &Outcome) -> (r: Option<String>)
    ensures
        opt_view(r) == comment_from(o@),
{
    match o {
        Outcome::Ran { success, stdout, .. } => {
            if *success {
                let val = text_trim(stdout.as_str());
                if text_eq(val.as_str(), "-") {
                    None
                } else {
                    Some(val)
                }
            } else {
                None
            }
        },
        Outcome::SpawnFailed(_) => None,
    }
}

/// The user property that holds a snapshot's comment.
pub fn comment_property(snapshot: &str) -> (r: String)
    ensures
        r@ == "veln:comment:"@ + snapshot@,
{
    let mut s = "veln:comment:".to_owned();
    s.append(snapshot);
    s
}

/// How a size field of `zfs list` reads: zero (`-` or empty), or a number
/// and the factor of its unit.
pub enum SizeText {
    Zero,
    Scaled { number: String, factor: u64 },
}

/// The length of the leading run of digits and dots.
pub open spec fn numeric_len(s: Seq<char>) -> nat
    decreases s.len(),
{
    if s.len() > 0 && (crate::text::is_digit(s[0]) || s[0] == '.') {
        1 + numeric_len(s.drop_first())
    } else {
        0
    }
}

/// The factor of a size unit: K/KiB, M/MiB, G/GiB, T/TiB are powers of
/// 1024; anything else (bytes) is 1.
pub open spec fn unit_factor(unit: Seq<char>) -> u64 {
    if unit == "K"@ || unit == "KiB"@ {
        1024
    } else if unit == "M"@ || unit == "MiB"@ {
        1048576
    } else if unit == "G"@ || unit == "GiB"@ {
        1073741824
    } else if unit == "T"@ || unit == "TiB"@ {
        1099511627776
    } else {
        1
    }
}

/// Whether a size reading is the number (the leading digits and dots of the
/// trimmed field) with the factor of the unit after it, or zero for `-` and
/// an empty field.
pub open spec fn size_reads_as(field: Seq<char>, number: Seq<char>, factor: u64) -> bool {
    let t = trim(field);
    let k = numeric_len(t);
    &&& t != "-"@
    &&& t.len() > 0
    &&& number == t.take(k as int)
    &&& factor == unit_factor(t.skip(k as int))
}

/// Whether every character is a digit or a dot.
pub open spec fn all_numeric(s: Seq<char>) -> bool {
    forall|i: int| 0 <= i < s.len() ==> crate::text::is_digit(#[trigger] s[i]) || s[i] == '.'
}

proof fn lemma_numeric_len_prefix(a: Seq<char>, b: Seq<char>)
    requires
        all_numeric(a),
    ensures
        numeric_len(a + b) == a.len() + numeric_len(b),
    decreases a.len(),
{
    if a.len() == 0 {
        assert(a + b =~= b);
    } else {
        assert((a + b)[0] == a[0]);
        assert((a + b).drop_first() =~= a.drop_first() + b);
        assert forall|i: int| 0 <= i < a.drop_first().len() implies crate::text::is_digit(
            #[trigger] a.drop_first()[i],
        ) || a.drop_first()[i] == '.' by {
            assert(a.drop_first()[i] == a[i + 1]);
        }
        lemma_numeric_len_prefix(a.drop_first(), b);
    }
}

/// A number followed by a unit that starts with neither a digit nor a dot
/// reads as that number with the unit's factor.
proof fn lemma_reads_with_unit(number: Seq<char>, unit: Seq<char>)
    requires
        number.len() > 0,
        all_numeric(number),
        unit.len() > 0 ==> !crate::text::is_digit(unit[0]) && unit[0] != '.' && (('A' <= unit.last()
            && unit.last() <= 'Z') || ('a' <= unit.last() && unit.last() <= 'z')),
    ensures
        size_reads_as(number + unit, number, unit_factor(unit)),
{
    let s = number + unit;
    assert(s[0] == number[0]);
    assert(crate::text::trim_start(s) == s);
    if unit.len() > 0 {
        assert(s.last() == unit.last());
        assert(unit.take(0) =~= Seq::<char>::empty());
        assert(numeric_len(unit) == 0);
    } else {
        assert(s.last() == number.last());
        assert(number.last() == number[number.len() - 1]);
        assert(unit =~= Seq::<char>::empty());
    }
    assert(crate::text::trim_end(s) == s);
    lemma_numeric_len_prefix(number, unit);
    assert(s.take(number.len() as int) =~= number);
    assert(s.skip(number.len() as int) =~= unit);
    if s == "-"@ {
        reveal_strlit("-");
        assert(s[0] == '-');
    }
}

/// Sizes are read in binary units: a number followed by `K` or `KiB`, `M`
/// or `MiB`, `G` or `GiB`, `T` or `TiB` reads as that number of KiB, MiB,
/// GiB or TiB (factors 1024, 1024², 1024³, 1024⁴), the short letter and its
/// long form alike; a number without a unit is a count of bytes (factor 1).
pub proof fn lemma_size_units(number: Seq<char>)
    requires
        number.len() > 0,
        all_numeric(number),
    ensures
        size_reads_as(number, number, 1),
        size_reads_as(number + "K"@, number, 1024),
        size_reads_as(number + "KiB"@, number, 1024),
        size_reads_as(number + "M"@, number, 1048576),
        size_reads_as(number + "MiB"@, number, 1048576),
        size_reads_as(number + "G"@, number, 1073741824),
        size_reads_as(number + "GiB"@, number, 1073741824),
        size_reads_as(number + "T"@, number, 1099511627776),
        size_reads_as(number + "TiB"@, number, 1099511627776),
{
    reveal_strlit("K");
    reveal_strlit("KiB");
    reveal_strlit("M");
    reveal_strlit("MiB");
    reveal_strlit("G");
    reveal_strlit("GiB");
    reveal_strlit("T");
    reveal_strlit("TiB");
    assert(number + Seq::<char>::empty() =~= number);
    lemma_reads_with_unit(number, Seq::<char>::empty());
    assert(unit_factor(Seq::<char>::empty()) == 1);
    lemma_reads_with_unit(number, "K"@);
    lemma_reads_with_unit(number, "KiB"@);
    lemma_reads_with_unit(number, "M"@);
    lemma_reads_with_unit(number, "MiB"@);
    lemma_reads_with_unit(number, "G"@);
    lemma_reads_with_unit(number, "GiB"@);
    lemma_reads_with_unit(number, "T"@);
    lemma_reads_with_unit(number, "TiB"@);
    assert("M"@ != "K"@ && "M"@ != "KiB"@) by {
        assert("M"@[0] != "K"@[0]);
        assert("M"@.len() != "KiB"@.len());
    }
    assert("MiB"@ != "K"@ && "MiB"@ != "KiB"@) by {
        assert("MiB"@[0] != "KiB"@[0]);
    }
    assert("G"@ != "K"@ && "G"@ != "KiB"@ && "G"@ != "M"@ && "G"@ != "MiB"@) by {
        assert("G"@[0] != "K"@[0] && "G"@[0] != "M"@[0]);
    }
    assert("GiB"@ != "K"@ && "GiB"@ != "KiB"@ && "GiB"@ != "M"@ && "GiB"@ != "MiB"@) by {
        assert("GiB"@[0] != "KiB"@[0] && "GiB"@[0] != "MiB"@[0]);
    }
    assert("T"@ != "K"@ && "T"@ != "KiB"@ && "T"@ != "M"@ && "T"@ != "MiB"@ && "T"@ != "G"@
        && "T"@ != "GiB"@) by {
        assert("T"@[0] != "K"@[0] && "T"@[0] != "M"@[0] && "T"@[0] != "G"@[0]);
    }
    assert("TiB"@ != "K"@ && "TiB"@ != "KiB"@ && "TiB"@ != "M"@ && "TiB"@ != "MiB"@ && "TiB"@
        != "G"@ && "TiB"@ != "GiB"@) by {
        assert("TiB"@[0] != "KiB"@[0] && "TiB"@[0] != "MiB"@[0] && "TiB"@[0] != "GiB"@[0]);
    }
    assert(Seq::<char>::empty() != "K"@ && Seq::<char>::empty() != "KiB"@
        && Seq::<char>::empty() != "M"@ && Seq::<char>::empty() != "MiB"@
        && Seq::<char>::empty() != "G"@ && Seq::<char>::empty() != "GiB"@
        && Seq::<char>::empty() != "T"@ && Seq::<char>::empty() != "TiB"@);
}

fn unit_factor_exec(unit: &str) -> (f: u64)
    ensures
        f == unit_factor(unit@),
{
    if text_eq(unit, "K") || text_eq(unit, "KiB") {
        1024
    } else if text_eq(unit, "M") || text_eq(unit, "MiB") {
        1048576
    } else if text_eq(unit, "G") || text_eq(unit, "GiB") {
        1073741824
    } else if text_eq(unit, "T") || text_eq(unit, "TiB") {
        1099511627776
    } else {
        1
    }
}

/// How a size field of `zfs list` reads (human-readable sizes like `1.2M`).
pub fn size_parts(field: &str) -> (r: SizeText)
    ensures
        r is Zero <==> (trim(field@) == "-"@ || trim(field@).len() == 0),
        r matches SizeText::Scaled { number, factor } ==> size_reads_as(field@, number@, factor),
{
    let t = text_trim(field);
    let v = chars_of(t.as_str());
    if text_eq(t.as_str(), "-") || v.len() == 0 {
        return SizeText::Zero;
    }
    let n = v.len();
    let mut k: usize = 0;
    assert(t@.skip(0) =~= t@);
    while k < n && (('0' <= v[k] && v[k] <= '9') || v[k] == '.')
        invariant
            n == v@.len(),
            v@ == t@,
            k <= n,
            numeric_len(t@) == k + numeric_len(t@.skip(k as int)),
        decreases n - k,
    {
        assert(t@.skip(k as int)[0] == v@[k as int]);
        assert(t@.skip(k as int).drop_first() =~= t@.skip(k + 1));
        k = k + 1;
    }
    proof {
        if k < n {
            assert(t@.skip(k as int)[0] == v@[k as int]);
        }
    }
    let number = string_of(v.as_slice().split_at(k).0);
    let unit = string_of(v.as_slice().split_at(k).1);
    SizeText::Scaled { number, factor: unit_factor_exec(unit.as_str()) }
}

// ---------------------------------------------------------------------------
// ISO images
// ---------------------------------------------------------------------------
/// ISO repository: stores ISO images in `<pool>/images`.
pub struct IsoRepository {
    pool: String,
    images_dataset: String,
}

impl IsoRepository {
    /// The image repository of a configuration: the dataset `<pool>/images`.
    pub fn new(config: &Config) -> (r: Self)
        ensures
            r.pool() == config.zfs_pool@,
            r.images_dataset() == config.zfs_pool@ + "/images"@,
    {
        let mut images = config.zfs_pool.clone();
        images.append("/images");
        IsoRepository { pool: config.zfs_pool.clone(), images_dataset: images }
    }

    /// The pool the images live in.
    pub closed spec fn pool(&self) -> Seq<char> {
        self.pool@
    }

    /// The dataset of the images.
    pub closed spec fn images_dataset(&self) -> Seq<char> {
        self.images_dataset@
    }

    /// The dataset of the images, as text.
    pub fn images_dataset_text(&self) -> (r: String)
        ensures
            r@ == self.images_dataset(),
    {
        self.images_dataset.clone()
    }

    /// The mount point of the images from the outcome of
    /// `zfs get -H -o value mountpoint`: the trimmed output, `/<dataset>` when
    /// the command failed, an I/O error when it could not be started.
    pub fn mount_point_from(&self, o: &Outcome) -> (r: Result<String, crate::error::VelnError>)
        ensures
            match o@ {
                crate::domain::requirements::OutcomeView::SpawnFailed(e) => r matches Err(
                    crate::error::VelnError::Io(m),
                ) && m@ == e,
                crate::domain::requirements::OutcomeView::Ran { success, stdout, .. } => if success {
                    r matches Ok(p) && p@ == trim(stdout)
                } else {
                    r matches Ok(p) && p@ == "/"@ + self.images_dataset()
                },
            },
    {
        match o {
            Outcome::SpawnFailed(e) => Err(crate::error::VelnError::Io(e.clone())),
            Outcome::Ran { success, stdout, .. } => {
                if *success {
                    Ok(text_trim(stdout.as_str()))
                } else {
                    let mut p = "/".to_owned();
                    p.append(self.images_dataset.as_str());
                    Ok(p)
                }
            },
        }
    }

    /// The file of an image under the mount point: `<name>.iso`.
    pub fn iso_file(mount_point: &str, name: &str) -> (r: String)
        ensures
            r@ == path_join(mount_point@, name@ + ".iso"@),
    {
        let mut f = name.to_owned();
        f.append(".iso");
        join_path(mount_point, f.as_str())
    }

    /// The metadata file of an image under the mount point: `<name>.json`.
    pub fn meta_file(mount_point: &str, name: &str) -> (r: String)
        ensures
            r@ == path_join(mount_point@, name@ + ".json"@),
    {
        let mut f = name.to_owned();
        f.append(".json");
        join_path(mount_point, f.as_str())
    }

    /// The arguments of `curl` that download an image to a file, following
    /// redirects, with a progress bar.
    pub fn curl_args(filepath: &str, url: &str) -> (args: Vec<String>)
        ensures
            views(args@) == seq!["-L"@, "-o"@, filepath@, url@, "--progress-bar"@],
    {
        let mut a = args3("-L", "-o", filepath);
        push_line(&mut a, url.to_owned());
        push_line(&mut a, "--progress-bar".to_owned());
        assert(views(a@) =~= seq!["-L"@, "-o"@, filepath@, url@, "--progress-bar"@]);
        a
    }
}

// ---------------------------------------------------------------------------
// The stored configuration
// ---------------------------------------------------------------------------
/// Serializable VM configuration stored in the VM's dataset (`veln.toml`).
pub struct VmConfigData {
    pub uuid: String,
    pub name: String,
    pub cpus: u8,
    pub memory_mb: u64,
    pub disk_gb: u64,
    /// Network backend type: "tap" or "vale"
    pub network_type: String,
    /// For tap: bridge name; for vale: switch name
    pub network_device: String,
    pub mac: Option<String>,
}

/// The model of a stored configuration.
pub struct VmConfigDataView {
    pub uuid: Seq<char>,
    pub name: Seq<char>,
    pub cpus: u8,
    pub memory_mb: u64,
    pub disk_gb: u64,
    pub network_type: Seq<char>,
    pub network_device: Seq<char>,
    pub mac: Option<Seq<char>>,
}

impl View for VmConfigData {
    type V = VmConfigDataView;

    open spec fn view(&self) -> VmConfigDataView {
        VmConfigDataView {
            uuid: self.uuid@,
            name: self.name@,
            cpus: self.cpus,
            memory_mb: self.memory_mb,
            disk_gb: self.disk_gb,
            network_type: self.network_type@,
            network_device: self.network_device@,
            mac: opt_view(self.mac),
        }
    }
}

/// A stored configuration without a network type is a TAP one.
pub fn default_network_type() -> (r: String)
    ensures
        r@ == "tap"@,
{
    "tap".to_owned()
}

/// A stored configuration without a network device uses `bridge0`.
pub fn default_bridge() -> (r: String)
    ensures
        r@ == "bridge0"@,
{
    "bridge0".to_owned()
}

/// The stored form of a VM.
pub open spec fn stored_config(vm: crate::domain::vm::VmView) -> VmConfigDataView {
    VmConfigDataView {
        uuid: vm.uuid,
        name: vm.name,
        cpus: vm.config.cpus,
        memory_mb: vm.config.memory_mb,
        disk_gb: vm.config.disk_gb,
        network_type: match vm.config.network.backend {
            NetworkBackendView::TapBridge { .. } => "tap"@,
            NetworkBackendView::Vale { .. } => "vale"@,
        },
        network_device: match vm.config.network.backend {
            NetworkBackendView::TapBridge { bridge } => bridge,
            NetworkBackendView::Vale { switch } => switch,
        },
        mac: vm.config.network.mac,
    }
}

/// The UUID and hardware configuration of a stored form: a `vale` network
/// type is a VALE switch, any other a TAP bridge; the console is a TTY.
pub open spec fn loaded_config(d: VmConfigDataView) -> (Seq<char>, VmConfigView) {
    (
        d.uuid,
        VmConfigView {
            cpus: d.cpus,
            memory_mb: d.memory_mb,
            disk_gb: d.disk_gb,
            network: NetworkConfigView {
                backend: if d.network_type == "vale"@ {
                    NetworkBackendView::Vale { switch: d.network_device }
                } else {
                    NetworkBackendView::TapBridge { bridge: d.network_device }
                },
                mac: d.mac,
            },
            console: ConsoleType::Tty,
        },
    )
}

fn copy_opt(o: &Option<String>) -> (r: Option<String>)
    ensures
        opt_view(r) == opt_view(*o),
{
    match o {
        Some(s) => Some(s.clone()),
        None => None,
    }
}

impl VmConfigData {
    /// The stored form of a VM.
    pub fn from_vm(vm: &VirtualMachine) -> (d: Self)
        ensures
            d@ == stored_config(vm@),
    {
        let (network_type, network_device) = match &vm.config.network.backend {
            NetworkBackend::TapBridge { bridge } => ("tap".to_owned(), bridge.clone()),
            NetworkBackend::Vale { switch } => ("vale".to_owned(), switch.clone()),
        };
        VmConfigData {
            uuid: vm.uuid.0.clone(),
            name: vm.name.clone(),
            cpus: vm.config.cpus,
            memory_mb: vm.config.memory_mb,
            disk_gb: vm.config.disk_gb,
            network_type,
            network_device,
            mac: copy_opt(&vm.config.network.mac),
        }
    }

    /// The UUID and hardware configuration of a stored form.
    pub fn into_vm_config(self) -> (r: (Uuid, VmConfig))
        ensures
            (r.0@, r.1@) == loaded_config(self@),
    {
        let uuid = Uuid(self.uuid);
        let backend = if text_eq(self.network_type.as_str(), "vale") {
            NetworkBackend::Vale { switch: self.network_device }
        } else {
            NetworkBackend::TapBridge { bridge: self.network_device }
        };
        let config = VmConfig {
            cpus: self.cpus,
            memory_mb: self.memory_mb,
            disk_gb: self.disk_gb,
            network: NetworkConfig { backend, mac: self.mac },
            console: ConsoleType::Tty,
        };
        (uuid, config)
    }
}

/// Storing a VM and loading it back gives its UUID and hardware
/// configuration, with a TTY console (the console is not stored).
pub proof fn lemma_stored_config_round_trip(vm: crate::domain::vm::VmView)
    ensures
        loaded_config(stored_config(vm)) == (
            vm.uuid,
            VmConfigView { console: ConsoleType::Tty, ..vm.config },
        ),
{
    reveal_strlit("tap");
    reveal_strlit("vale");
    assert("tap"@.len() != "vale"@.len());
}

} // verus!
