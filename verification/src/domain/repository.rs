//! What the repositories hold besides VMs: snapshots, ISO images,
//! templates; and the order in which listings show them.
use crate::domain::vm::opt_view;
use crate::text::{
    lemma_text_lt_strict, lemma_text_lt_total, lemma_text_lt_transitive, text_less, text_lt, views,
};
use vstd::prelude::*;

verus! {

/// Snapshot metadata.
#[derive(Debug, Clone)]
pub struct Snapshot {
    pub name: String,
    pub created: String,
    pub comment: Option<String>,
    /// Size in bytes
    pub size: u64,
}

/// ISO Image metadata.
#[derive(Debug, Clone)]
pub struct Iso {
    pub name: String,
    pub filename: String,
    pub description: Option<String>,
    /// Size in bytes
    pub size: u64,
    pub downloaded: String,
}

/// Template metadata.
#[derive(Debug, Clone)]
pub struct Template {
    pub name: String,
    pub description: Option<String>,
    pub created: String,
}

/// `chrono::Local::now` written by `DateTime::to_rfc3339`: the current local
/// date and time as RFC 3339 text such as `1996-12-19T16:39:57-08:00`.
/// Nothing is promised of the text: it depends on the clock and the time zone.
#[verifier::external_body]
fn local_now_rfc3339() -> String {
    chrono::Local::now().to_rfc3339()
}

/// What is stored about a template beside its dataset.
pub struct TemplateMetadata {
    pub name: String,
    pub description: Option<String>,
    pub created: String,
    pub source_vm: String,
}

/// What is stored about an ISO image beside its file.
pub struct IsoMetadata {
    pub name: String,
    pub filename: String,
    pub description: Option<String>,
    pub size: u64,
    pub downloaded: String,
    pub url: String,
}

impl TemplateMetadata {
    /// The metadata of a template made now from the VM `source_vm`.
    pub fn new(name: &str, description: Option<String>, source_vm: &str) -> (m: Self)
        ensures
            m.name@ == name@,
            opt_view(m.description) == opt_view(description),
            m.source_vm@ == source_vm@,
    {
        TemplateMetadata {
            name: name.to_owned(),
            description,
            created: local_now_rfc3339(),
            source_vm: source_vm.to_owned(),
        }
    }

    /// What a listing shows of the template.
    pub fn template(&self) -> (t: Template)
        ensures
            t.name@ == self.name@,
            opt_view(t.description) == opt_view(self.description),
            t.created@ == self.created@,
    {
        Template {
            name: self.name.clone(),
            description: self.description.clone(),
            created: self.created.clone(),
        }
    }
}

impl IsoMetadata {
    /// The metadata of the image `name`, downloaded now from `url` into the
    /// file `<name>.iso` of `size` bytes.
    pub fn new(name: &str, description: Option<String>, size: u64, url: &str) -> (m: Self)
        ensures
            m.name@ == name@,
            m.filename@ == name@ + ".iso"@,
            opt_view(m.description) == opt_view(description),
            m.size == size,
            m.url@ == url@,
    {
        let mut filename = name.to_owned();
        filename.append(".iso");
        IsoMetadata {
            name: name.to_owned(),
            filename,
            description,
            size,
            downloaded: local_now_rfc3339(),
            url: url.to_owned(),
        }
    }

    /// What a listing shows of the image.
    pub fn iso(&self) -> (i: Iso)
        ensures
            i.name@ == self.name@,
            i.filename@ == self.filename@,
            opt_view(i.description) == opt_view(self.description),
            i.size == self.size,
            i.downloaded@ == self.downloaded@,
    {
        Iso {
            name: self.name.clone(),
            filename: self.filename.clone(),
            description: self.description.clone(),
            size: self.size,
            downloaded: self.downloaded.clone(),
        }
    }
}

/// Whether item `i` is listed before item `j`: by name, and in their
/// given order when the names are equal.
pub open spec fn listed_before(names: Seq<Seq<char>>, i: int, j: int) -> bool {
    text_lt(names[i], names[j]) || (names[i] == names[j] && i < j)
}

/// Listing before is transitive.
pub proof fn lemma_listed_before_transitive(names: Seq<Seq<char>>, x: int, y: int, z: int)
    requires
        listed_before(names, x, y),
        listed_before(names, y, z),
    ensures
        listed_before(names, x, z),
{
    if text_lt(names[x], names[y]) && text_lt(names[y], names[z]) {
        lemma_text_lt_transitive(names[x], names[y], names[z]);
    }
}

proof fn lemma_insert_keeps_order(names: Seq<Seq<char>>, order: Seq<usize>, p: int, i: usize)
    requires
        0 <= p <= order.len(),
        forall|k: int| 0 <= k < order.len() ==> order[k] < i,
        forall|a: int, b: int|
            0 <= a < b < order.len() ==> listed_before(names, order[a] as int, order[b] as int),
        p > 0 ==> !text_lt(names[i as int], names[order[p - 1] as int]),
        forall|q: int| p <= q < order.len() ==> text_lt(names[i as int], names[order[q] as int]),
    ensures
        forall|a: int, b: int|
            0 <= a < b < order.len() + 1 ==> listed_before(
                names,
                order.insert(p, i)[a] as int,
                order.insert(p, i)[b] as int,
            ),
{
    let r = order.insert(p, i);
    if p > 0 {
        lemma_text_lt_total(names[i as int], names[order[p - 1] as int]);
        assert(listed_before(names, order[p - 1] as int, i as int));
    }
    assert forall|a: int, b: int| 0 <= a < b < order.len() + 1 implies listed_before(
        names,
        r[a] as int,
        r[b] as int,
    ) by {
        if b < p {
            assert(r[a] == order[a] && r[b] == order[b]);
        } else if b == p {
            assert(r[b] == i);
            assert(r[a] == order[a]);
            if a < p - 1 {
                lemma_listed_before_transitive(names, order[a] as int, order[p - 1] as int, i as int);
            }
        } else if a == p {
            assert(r[a] == i && r[b] == order[b - 1]);
        } else if a < p {
            assert(r[a] == order[a] && r[b] == order[b - 1]);
        } else {
            assert(r[a] == order[a - 1] && r[b] == order[b - 1]);
        }
    }
}

/// The order in which a listing shows items, from their names: the
/// positions of the items sorted by name, items of equal names in their
/// given order (a stable sort by name). Every position appears once.
pub fn name_order(names: &Vec<String>) -> (order: Vec<usize>)
    ensures
        order@.len() == names@.len(),
        forall|k: int| 0 <= k < order@.len() ==> order@[k] < names@.len(),
        forall|m: usize| m < names@.len() ==> order@.contains(m),
        forall|a: int, b: int|
            0 <= a < b < order@.len() ==> listed_before(
                views(names@),
                order@[a] as int,
                order@[b] as int,
            ),
{
    let n = names.len();
    let ghost ns = views(names@);
    let mut order: Vec<usize> = Vec::new();
    for i in 0..n
        invariant
            n == names@.len(),
            ns == views(names@),
            order@.len() == i,
            forall|k: int| 0 <= k < i ==> order@[k] < i,
            forall|m: usize| m < i ==> order@.contains(m),
            forall|a: int, b: int|
                0 <= a < b < i ==> listed_before(ns, order@[a] as int, order@[b] as int),
    {
        let mut p = order.len();
        while p > 0 && text_less(names[i].as_str(), names[order[p - 1]].as_str())
            invariant
                n == names@.len(),
                ns == views(names@),
                i < n,
                order@.len() == i,
                p <= order@.len(),
                forall|k: int| 0 <= k < i ==> order@[k] < i,
                forall|q: int| p <= q < order@.len() ==> text_lt(ns[i as int], ns[order@[q] as int]),
            decreases p,
        {
            p = p - 1;
        }
        proof {
            lemma_insert_keeps_order(ns, order@, p as int, i);
        }
        let ghost before = order@;
        order.insert(p, i);
        proof {
            assert(order@ == before.insert(p as int, i));
            assert forall|m: usize| m < i + 1 implies order@.contains(m) by {
                if m == i {
                    assert(order@[p as int] == i);
                } else {
                    assert(before.contains(m));
                    let k = choose|k: int| 0 <= k < before.len() && before[k] == m;
                    if k < p {
                        assert(order@[k] == before[k]);
                    } else {
                        assert(order@[k + 1] == before[k]);
                    }
                }
            }
        }
    }
    order
}

} // verus!
