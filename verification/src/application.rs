//! What the command-line application decides on its own: whether it may run
//! a privileged command, and how sizes are shown.
use crate::error::VelnError;
use crate::text::{byte_len, byte_prefix, chars_within_bytes, is_char_boundary, utf8_longer_than};
use vstd::prelude::*;

verus! {

/// `is_root::is_root`: whether the process runs with root privileges (the
/// effective user is 0 on Unix). Nothing is promised of the answer: it
/// depends on the process.
#[verifier::external_body]
fn running_as_root() -> bool {
    is_root::is_root()
}

/// A privileged command may run as root and is refused otherwise.
pub fn root_check(is_root: bool) -> (r: Result<(), VelnError>)
    ensures
        is_root ==> r is Ok,
        !is_root ==> r matches Err(VelnError::RootRequired),
{
    if !is_root {
        return Err(VelnError::RootRequired);
    }
    Ok(())
}

/// Refuses a privileged command unless the process runs as root.
pub fn require_root() -> (r: Result<(), VelnError>)
    ensures
        r is Ok || r matches Err(VelnError::RootRequired),
{
    root_check(running_as_root())
}

/// The unit in which a size in bytes is shown: the largest of B, K, M, G, T
/// (powers of 1024) that the size reaches, by its index in that list.
pub open spec fn size_unit_index(size: nat) -> nat {
    if size >= 1099511627776 {
        4
    } else if size >= 1073741824 {
        3
    } else if size >= 1048576 {
        2
    } else if size >= 1024 {
        1
    } else {
        0
    }
}

/// The label of a size unit.
pub open spec fn size_unit_label(k: nat) -> Seq<char> {
    if k == 0 {
        "B"@
    } else if k == 1 {
        "K"@
    } else if k == 2 {
        "M"@
    } else if k == 3 {
        "G"@
    } else {
        "T"@
    }
}

/// The unit in which a size in bytes is shown: its index (the size is shown
/// divided by 1024 to that power) and its label.
pub fn size_unit(size: u64) -> (r: (u32, String))
    ensures
        r.0 == size_unit_index(size as nat),
        r.1@ == size_unit_label(r.0 as nat),
{
    if size >= 1099511627776 {
        (4, "T".to_owned())
    } else if size >= 1073741824 {
        (3, "G".to_owned())
    } else if size >= 1048576 {
        (2, "M".to_owned())
    } else if size >= 1024 {
        (1, "K".to_owned())
    } else {
        (0, "B".to_owned())
    }
}

/// A description or comment as the listings show it: up to 30 bytes (in
/// UTF-8) as it is, a longer one cut to its first 27 bytes and `...`.
pub open spec fn listed_text(s: Seq<char>) -> Seq<char> {
    if byte_len(s) > 30 {
        byte_prefix(s, 27) + "..."@
    } else {
        s
    }
}

/// A description or comment as the listings show it. A text longer than 30
/// bytes is cut at byte 27, which must fall between two characters.
pub fn listed(s: &str) -> (r: String)
    requires
        byte_len(s@) > 30 ==> is_char_boundary(s@, 27),
    ensures
        r@ == listed_text(s@),
{
    let v = crate::text::chars_of(s);
    if utf8_longer_than(&v, 30) {
        let k = chars_within_bytes(&v, 27);
        let mut r = crate::text::string_of(v.as_slice().split_at(k).0);
        r.append("...");
        r
    } else {
        s.to_owned()
    }
}

} // verus!
