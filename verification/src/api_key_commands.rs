//! API key management: which roles exist, how a new key is chosen, and how
//! the configuration text is edited to add or revoke a key.
use crate::error::VelnError;
use crate::text::{
    byte_len, byte_prefix, chars_within_bytes, is_char_boundary,
    char_sep, lemma_split_by_append, lemma_split_by_no_sep, occurs_at, split, split_by, strip_cr,
    contains_text, ends_with, hex_lower, join, lines, starts_with, text_contains, text_ends_with,
    text_eq, text_join, text_lines, text_starts_with, text_trim, trim, views,
};
use vstd::prelude::*;

verus! {

/// `hex::encode`: the lower-case hexadecimal digits of each byte, two per
/// byte, in order (as `hex` documents and its `HEX_CHARS_LOWER` table shows).
#[verifier::external_body]
fn hex_encode(bytes: &[u8]) -> (s: String)
    ensures
        s@ == hex_lower(bytes@),
{
    hex::encode(bytes)
}

/// Whether a role is one of the three roles.
pub open spec fn valid_role(role: Seq<char>) -> bool {
    role == "admin"@ || role == "operator"@ || role == "viewer"@
}

/// Check that a role is `admin`, `operator` or `viewer`.
pub fn validate_role(role: &str) -> (r: Result<(), VelnError>)
    ensures
        valid_role(role@) ==> r is Ok,
        !valid_role(role@) ==> (r matches Err(VelnError::Config(m)) && m@ == "Invalid role '"@
            + role@ + "'. Must be one of: admin, operator, viewer"@),
{
    if text_eq(role, "admin") || text_eq(role, "operator") || text_eq(role, "viewer") {
        Ok(())
    } else {
        let mut m = "Invalid role '".to_owned();
        m.append(role);
        m.append("'. Must be one of: admin, operator, viewer");
        Err(VelnError::Config(m))
    }
}

/// `rand::random` for 32 bytes (drawn from the thread-local generator,
/// which `rand` documents as cryptographically secure). Nothing is promised
/// of the bytes but their number.
#[verifier::external_body]
fn random_key_bytes() -> (b: Vec<u8>)
    ensures
        b@.len() == 32,
{
    rand::random::<[u8; 32]>().to_vec()
}

/// A generated API key: the random bytes in lower-case hexadecimal.
pub fn generate_key(random_bytes: &Vec<u8>) -> (k: String)
    ensures
        k@ == hex_lower(random_bytes@),
{
    hex_encode(random_bytes.as_slice())
}

/// Whether a text is the hexadecimal form of 32 bytes.
pub open spec fn is_generated_key(k: Seq<char>) -> bool {
    exists|b: Seq<u8>| b.len() == 32 && k == #[trigger] hex_lower(b)
}

/// A new API key: 32 random bytes in lower-case hexadecimal.
pub fn new_api_key() -> (k: String)
    ensures
        is_generated_key(k@),
{
    let bytes = random_key_bytes();
    let k = generate_key(&bytes);
    assert(bytes@.len() == 32 && k@ == hex_lower(bytes@));
    k
}

/// The key taken at the prompt: the typed key without surrounding white
/// space, or a new generated one when nothing was typed.
pub fn prompted_key(typed: &str) -> (k: String)
    ensures
        trim(typed@).len() > 0 ==> k@ == trim(typed@),
        trim(typed@).len() == 0 ==> is_generated_key(k@),
{
    let t = text_trim(typed);
    if crate::text::chars_of(t.as_str()).len() == 0 {
        new_api_key()
    } else {
        t
    }
}

/// The configuration written when there is none yet.
pub open spec fn default_config_text() -> Seq<char> {
    "# Veln Configuration\n# FreeBSD paths:\n# - Config: /usr/local/etc/veln/\n# - VM data: zroot/veln/\n# - Logs: /var/log/veln/\n# - Runtime: /var/run/veln/\n\nzfs_pool = \"zroot\"\nvm_root = \"veln/vms\"\niso_root = \"veln/isos\"\n\n[api]\nauth_enabled = true\n\n[api.keys]\n"@
}

/// The configuration written when there is none yet: the FreeBSD paths, the
/// `zroot` pool, and an empty key table with authentication on.
pub fn default_config_content() -> (s: String)
    ensures
        s@ == default_config_text(),
{
    "# Veln Configuration\n# FreeBSD paths:\n# - Config: /usr/local/etc/veln/\n# - VM data: zroot/veln/\n# - Logs: /var/log/veln/\n# - Runtime: /var/run/veln/\n\nzfs_pool = \"zroot\"\nvm_root = \"veln/vms\"\niso_root = \"veln/isos\"\n\n[api]\nauth_enabled = true\n\n[api.keys]\n".to_owned()
}

/// The TOML line of a key: `"<key>" = { name = "<name>", role = "<role>" }`.
pub open spec fn key_entry(key: Seq<char>, name: Seq<char>, role: Seq<char>) -> Seq<char> {
    "\""@ + key + "\" = { name = \""@ + name + "\", role = \""@ + role + "\" }\n"@
}

/// The configuration text with a key added: the key table (and the `[api]`
/// table) is added when missing, a newline ends the text before the new
/// line, then the key's line.
pub open spec fn with_key(content: Seq<char>, key: Seq<char>, name: Seq<char>, role: Seq<char>) -> Seq<
    char,
> {
    let tables = if !contains_text(content, "[api.keys]"@) {
        (if !contains_text(content, "[api]"@) {
            "\n[api]\nauth_enabled = true\n"@
        } else {
            Seq::empty()
        }) + "\n[api.keys]\n"@
    } else if !ends_with(content, "\n"@) {
        "\n"@
    } else {
        Seq::empty()
    };
    content + tables + key_entry(key, name, role)
}

/// Adds a key's line to the configuration text.
pub fn add_key_entry(content: &str, key: &str, name: &str, role: &str) -> (r: String)
    ensures
        r@ == with_key(content@, key@, name@, role@),
{
    let mut c = content.to_owned();
    // Check if [api.keys] section exists, add if not
    let mut needs_newline = false;
    if !text_contains(content, "[api.keys]") {
        if !text_contains(content, "[api]") {
            c.append("\n[api]\nauth_enabled = true\n");
        }
        c.append("\n[api.keys]\n");
    } else {
        // Section exists, check if we need a newline before adding key
        needs_newline = !text_ends_with(content, "\n");
    }
    // Add the new key with proper newline separation
    if needs_newline {
        c.append("\n");
    }
    c.append("\"");
    c.append(key);
    c.append("\" = { name = \"");
    c.append(name);
    c.append("\", role = \"");
    c.append(role);
    c.append("\" }\n");
    c
}

/// The configured keys that begin with a prefix, in order.
pub open spec fn keys_with_prefix(keys: Seq<Seq<char>>, prefix: Seq<char>) -> Seq<Seq<char>>
    decreases keys.len(),
{
    if keys.len() == 0 {
        Seq::empty()
    } else if starts_with(keys.last(), prefix) {
        keys_with_prefix(keys.drop_last(), prefix).push(keys.last())
    } else {
        keys_with_prefix(keys.drop_last(), prefix)
    }
}

/// The keys that begin with a prefix, in order.
pub fn matching_keys(keys: &Vec<String>, prefix: &str) -> (m: Vec<String>)
    ensures
        views(m@) == keys_with_prefix(views(keys@), prefix@),
{
    let mut m: Vec<String> = Vec::new();
    let n = keys.len();
    let ghost kv = views(keys@);
    for i in 0..n
        invariant
            n == keys@.len(),
            kv == views(keys@),
            views(m@) == keys_with_prefix(kv.take(i as int), prefix@),
    {
        assert(kv.take(i + 1).drop_last() =~= kv.take(i as int));
        assert(kv.take(i + 1).last() == keys@[i as int]@);
        if text_starts_with(keys[i].as_str(), prefix) {
            let ghost before = views(m@);
            m.push(keys[i].clone());
            assert(views(m@) =~= before.push(keys@[i as int]@));
        }
    }
    assert(kv.take(n as int) =~= kv);
    m
}

/// Which key a revocation by prefix names: none matching is an error; more
/// than one is ambiguous (`None`, nothing is revoked); else the one key.
pub open spec fn revocation_target(matching: Seq<Seq<char>>, prefix: Seq<char>) -> Result<
    Option<Seq<char>>,
    Seq<char>,
> {
    if matching.len() == 0 {
        Err("No API key found matching '"@ + prefix + "'"@)
    } else if matching.len() > 1 {
        Ok(None)
    } else {
        Ok(Some(matching[0]))
    }
}

/// The key that a revocation by prefix names among the configured keys:
/// `Ok(None)` when several match (the caller lists them), an error when
/// none does.
pub fn revoke_target(keys: &Vec<String>, prefix: &str) -> (r: Result<Option<String>, VelnError>)
    ensures
        match revocation_target(keys_with_prefix(views(keys@), prefix@), prefix@) {
            Err(m) => r matches Err(VelnError::Config(e)) && e@ == m,
            Ok(None) => r matches Ok(None),
            Ok(Some(k)) => r matches Ok(Some(x)) && x@ == k,
        },
{
    let matching = matching_keys(keys, prefix);
    if matching.len() == 0 {
        let mut m = "No API key found matching '".to_owned();
        m.append(prefix);
        m.append("'");
        return Err(VelnError::Config(m));
    }
    if matching.len() > 1 {
        return Ok(None);
    }
    assert(views(matching@)[0] == matching@[0]@);
    Ok(Some(matching[0].clone()))
}

/// A key as it is listed: its first eight characters (all of a shorter
/// A key as it is listed: its first eight bytes (all of a shorter key),
/// then `...`.
pub open spec fn key_abbrev(key: Seq<char>) -> Seq<char> {
    byte_prefix(key, 8) + "..."@
}

/// A key as it is listed, abbreviated. A key longer than eight bytes is cut
/// at byte 8, which must fall between two characters.
pub fn short_key(key: &str) -> (r: String)
    requires
        byte_len(key@) > 8 ==> is_char_boundary(key@, 8),
    ensures
        r@ == key_abbrev(key@),
{
    let v = crate::text::chars_of(key);
    let k = chars_within_bytes(&v, 8);
    let mut r = crate::text::string_of(v.as_slice().split_at(k).0);
    r.append("...");
    r
}

/// The lines that do not mention a key, in order.
pub open spec fn lines_without(ls: Seq<Seq<char>>, key: Seq<char>) -> Seq<Seq<char>>
    decreases ls.len(),
{
    if ls.len() == 0 {
        Seq::empty()
    } else if contains_text(ls.last(), key) {
        lines_without(ls.drop_last(), key)
    } else {
        lines_without(ls.drop_last(), key).push(ls.last())
    }
}

/// The configuration text without the lines that mention a key: the other
/// lines, joined by newlines.
pub fn remove_key_lines(content: &str, key: &str) -> (r: String)
    ensures
        r@ == join(lines_without(lines(content@), key@), "\n"@),
{
    let ls = text_lines(content);
    let ghost lv = views(ls@);
    let mut kept: Vec<String> = Vec::new();
    let n = ls.len();
    for i in 0..n
        invariant
            n == ls@.len(),
            lv == views(ls@),
            views(kept@) == lines_without(lv.take(i as int), key@),
    {
        assert(lv.take(i + 1).drop_last() =~= lv.take(i as int));
        assert(lv.take(i + 1).last() == ls@[i as int]@);
        if !text_contains(ls[i].as_str(), key) {
            let ghost before = views(kept@);
            kept.push(ls[i].clone());
            assert(views(kept@) =~= before.push(ls@[i as int]@));
        }
    }
    assert(lv.take(n as int) =~= lv);
    text_join(&kept, "\n")
}

// ---------------------------------------------------------------------------
// Laws
// ---------------------------------------------------------------------------
/// Adding a key keeps the existing text as it was, in front, and ends with
/// the key's line.
pub proof fn lemma_add_key_keeps_text(
    content: Seq<char>,
    key: Seq<char>,
    name: Seq<char>,
    role: Seq<char>,
)
    ensures
        with_key(content, key, name, role).take(content.len() as int) == content,
        ends_with(with_key(content, key, name, role), key_entry(key, name, role)),
{
    let r = with_key(content, key, name, role);
    let e = key_entry(key, name, role);
    assert(r.take(content.len() as int) =~= content);
    assert(r.skip(r.len() - e.len()) =~= e);
}

/// After revoking a key, no remaining line mentions it, and every remaining
/// line was a line of the text.
pub proof fn lemma_revoked_lines(ls: Seq<Seq<char>>, key: Seq<char>)
    ensures
        forall|i: int|
            0 <= i < lines_without(ls, key).len() ==> !contains_text(
                #[trigger] lines_without(ls, key)[i],
                key,
            ) && ls.contains(lines_without(ls, key)[i]),
    decreases ls.len(),
{
    if ls.len() > 0 {
        lemma_revoked_lines(ls.drop_last(), key);
        let r = lines_without(ls, key);
        let prev = lines_without(ls.drop_last(), key);
        assert forall|i: int| 0 <= i < r.len() implies !contains_text(#[trigger] r[i], key)
            && ls.contains(r[i]) by {
            if i < prev.len() {
                assert(r[i] == prev[i]);
                let j = choose|j: int| 0 <= j < ls.drop_last().len() && ls.drop_last()[j] == prev[i];
                assert(ls[j] == prev[i]);
            } else {
                assert(r[i] == ls.last());
                assert(ls[ls.len() - 1] == ls.last());
            }
        }
    }
}

/// The line of a key in the configuration (its TOML line without the
/// newline).
pub open spec fn key_line(key: Seq<char>, name: Seq<char>, role: Seq<char>) -> Seq<char> {
    key_entry(key, name, role).drop_last()
}

/// The key's line follows the lines of a text that ends with a newline, and
/// it mentions the key.
proof fn lemma_entry_is_last_line(a: Seq<char>, k: Seq<char>, n: Seq<char>, r: Seq<char>)
    requires
        a.len() > 0,
        a.last() == '\n',
        !k.contains('\n'),
        !n.contains('\n'),
        !r.contains('\n'),
    ensures
        lines(a + key_entry(k, n, r)) == lines(a).push(key_line(k, n, r)),
        contains_text(key_line(k, n, r), k),
{
    reveal_strlit("\n");
    reveal_strlit("\"");
    reveal_strlit("\" = { name = \"");
    reveal_strlit("\", role = \"");
    reveal_strlit("\" }\n");
    reveal_strlit("\" }");
    let e = key_entry(k, n, r);
    let x = key_line(k, n, r);
    let sep = char_sep('\n');
    lemma_split_by_append(a, e, sep);
    assert(e.last() == '\n');
    assert(e =~= x.push('\n'));
    let l1 = "\""@;
    let l2 = "\" = { name = \""@;
    let l3 = "\", role = \""@;
    let l4 = "\" }"@;
    assert(x =~= l1 + k + l2 + n + l3 + r + l4);
    assert forall|j: int| 0 <= j < x.len() implies !sep(#[trigger] x[j]) by {
        let p1 = l1.len() as int;
        let p2 = p1 + k.len();
        let p3 = p2 + l2.len();
        let p4 = p3 + n.len();
        let p5 = p4 + l3.len();
        let p6 = p5 + r.len();
        if j < p1 {
            assert(x[j] == l1[j]);
        } else if j < p2 {
            assert(x[j] == k[j - p1]);
        } else if j < p3 {
            assert(x[j] == l2[j - p2]);
        } else if j < p4 {
            assert(x[j] == n[j - p3]);
        } else if j < p5 {
            assert(x[j] == l3[j - p4]);
        } else if j < p6 {
            assert(x[j] == r[j - p5]);
        } else {
            assert(x[j] == l4[j - p6]);
        }
    }
    lemma_split_by_no_sep(x, sep);
    assert(split_by(e, sep) == split_by(x, sep).push(Seq::empty()));
    assert(split(e, '\n') =~= seq![x, Seq::empty()]);
    assert(a.drop_last().push(a.last()) =~= a);
    assert(split_by(a, sep) == split_by(a.drop_last(), sep).push(Seq::empty()));
    assert(split(a + e, '\n') =~= split(a, '\n').drop_last() + seq![x, Seq::empty()]);
    assert(x.last() == '}');
    assert(strip_cr(x) == x);
    assert(lines(a + e) =~= lines(a).push(x));
    assert(x.subrange(1, 1 + k.len() as int) =~= k);
    assert(occurs_at(x, k, 1));
}

/// Revoking a key undoes adding it: for a configuration that has its key
/// table and ends with a newline, revoking a key right after adding it gives
/// the text that revoking it without the addition gives (the added line goes,
/// every other line stays) — for a key, name and role that are one line each.
pub proof fn lemma_revoke_undoes_add(c: Seq<char>, k: Seq<char>, n: Seq<char>, r: Seq<char>)
    requires
        contains_text(c, "[api.keys]"@),
        ends_with(c, "\n"@),
        !k.contains('\n'),
        !n.contains('\n'),
        !r.contains('\n'),
    ensures
        join(lines_without(lines(with_key(c, k, n, r)), k), "\n"@) == join(
            lines_without(lines(c), k),
            "\n"@,
        ),
{
    reveal_strlit("\n");
    assert(with_key(c, k, n, r) =~= c + key_entry(k, n, r));
    assert(c.len() > 0 && c.last() == '\n') by {
        assert(c.skip(c.len() - 1)[0] == c.last());
    }
    lemma_entry_is_last_line(c, k, n, r);
    let x = key_line(k, n, r);
    assert(lines_without(lines(c).push(x), k) == lines_without(lines(c), k)) by {
        assert(lines(c).push(x).drop_last() =~= lines(c));
    }
}

/// An added key is found again: the configuration text with a key added
/// ends with the key's line, which mentions the key, so revoking the key
/// removes that line; and among the configured keys with the new one added
/// last, a prefix of the new key finds it last, and the whole key names it
/// for revocation when no other key begins with it — for a key, name and
/// role that are one line each.
pub proof fn lemma_added_key_found(
    c: Seq<char>,
    k: Seq<char>,
    n: Seq<char>,
    r: Seq<char>,
    keys: Seq<Seq<char>>,
    p: Seq<char>,
)
    requires
        !k.contains('\n'),
        !n.contains('\n'),
        !r.contains('\n'),
    ensures
        lines(with_key(c, k, n, r)).last() == key_line(k, n, r),
        contains_text(key_line(k, n, r), k),
        !lines_without(lines(with_key(c, k, n, r)), k).contains(key_line(k, n, r)),
        starts_with(k, p) ==> keys_with_prefix(keys.push(k), p).last() == k,
        (forall|i: int| 0 <= i < keys.len() ==> !starts_with(#[trigger] keys[i], k))
            ==> revocation_target(keys_with_prefix(keys.push(k), k), k) == Ok::<
            Option<Seq<char>>,
            Seq<char>,
        >(Some(k)),
{
    reveal_strlit("\n");
    reveal_strlit("[api.keys]");
    reveal_strlit("[api]");
    reveal_strlit("\n[api]\nauth_enabled = true\n");
    reveal_strlit("\n[api.keys]\n");
    let a = with_key(c, k, n, r).subrange(0, with_key(c, k, n, r).len() - key_entry(
        k,
        n,
        r,
    ).len());
    assert(with_key(c, k, n, r) =~= a + key_entry(k, n, r));
    assert(a.len() > 0 && a.last() == '\n') by {
        if !contains_text(c, "[api.keys]"@) {
        } else if !ends_with(c, "\n"@) {
        } else {
            assert(c.skip(c.len() - 1)[0] == c.last());
        }
    }
    lemma_entry_is_last_line(a, k, n, r);
    lemma_revoked_lines(lines(with_key(c, k, n, r)), k);
    assert(starts_with(k, k)) by {
        assert(k.take(k.len() as int) =~= k);
    }
    if forall|i: int| 0 <= i < keys.len() ==> !starts_with(#[trigger] keys[i], k) {
        lemma_no_prefix_match(keys, k);
        assert(keys.push(k).drop_last() =~= keys);
    }
    assert(keys.push(k).drop_last() =~= keys);
}

proof fn lemma_no_prefix_match(keys: Seq<Seq<char>>, p: Seq<char>)
    requires
        forall|i: int| 0 <= i < keys.len() ==> !starts_with(#[trigger] keys[i], p),
    ensures
        keys_with_prefix(keys, p).len() == 0,
    decreases keys.len(),
{
    if keys.len() > 0 {
        assert(!starts_with(keys[keys.len() - 1], p));
        assert forall|i: int| 0 <= i < keys.drop_last().len() implies !starts_with(
            #[trigger] keys.drop_last()[i],
            p,
        ) by {
            assert(keys.drop_last()[i] == keys[i]);
        }
        lemma_no_prefix_match(keys.drop_last(), p);
    }
}

} // verus!
