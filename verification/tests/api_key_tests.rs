use veln::api_key_commands::{
    add_key_entry, default_config_content, generate_key, matching_keys, new_api_key, prompted_key,
    remove_key_lines, revoke_target, short_key, validate_role,
};
use veln::error::VelnError;

#[test]
fn roles() {
    assert!(validate_role("admin").is_ok());
    assert!(validate_role("operator").is_ok());
    assert!(validate_role("viewer").is_ok());
    match validate_role("root") {
        Err(VelnError::Config(m)) => {
            assert_eq!(m, "Invalid role 'root'. Must be one of: admin, operator, viewer")
        }
        other => panic!("unexpected {other:?}"),
    }
}

#[test]
fn generated_keys_are_hex() {
    assert_eq!(generate_key(&vec![0x00, 0xab, 0x10, 0xff]), "00ab10ff");
    let k = generate_key(&vec![7u8; 32]);
    assert_eq!(k.len(), 64);
    assert_eq!(prompted_key("  mykey \n"), "mykey");
    let generated = prompted_key(" \n");
    assert_eq!(generated.len(), 64);
    assert!(generated.chars().all(|c| c.is_ascii_hexdigit() && !c.is_ascii_uppercase()));
    let a = new_api_key();
    assert_eq!(a.len(), 64);
    assert_ne!(a, new_api_key());
}

#[test]
fn adding_keys() {
    let entry = "\"k1\" = { name = \"Ops\", role = \"operator\" }\n";
    let d = default_config_content();
    assert!(d.ends_with("[api.keys]\n"));
    assert_eq!(add_key_entry(&d, "k1", "Ops", "operator"), format!("{d}{entry}"));
    assert_eq!(
        add_key_entry("zfs_pool = \"zroot\"", "k1", "Ops", "operator"),
        format!("zfs_pool = \"zroot\"\n[api]\nauth_enabled = true\n\n[api.keys]\n{entry}")
    );
    assert_eq!(
        add_key_entry("[api]\nauth_enabled = true\n", "k1", "Ops", "operator"),
        format!("[api]\nauth_enabled = true\n\n[api.keys]\n{entry}")
    );
    assert_eq!(
        add_key_entry("[api.keys]\n\"a\" = 1", "k1", "Ops", "operator"),
        format!("[api.keys]\n\"a\" = 1\n{entry}")
    );
}

#[test]
fn revoking_keys() {
    let keys = vec!["abc123".to_string(), "abd".to_string(), "xyz".to_string()];
    assert_eq!(matching_keys(&keys, "ab"), vec!["abc123".to_string(), "abd".to_string()]);
    assert_eq!(matching_keys(&keys, "q"), Vec::<String>::new());
    let content = "[api.keys]\n\"abc123\" = { name = \"A\", role = \"admin\" }\n\"xyz\" = { name = \"X\", role = \"viewer\" }\n";
    assert_eq!(
        remove_key_lines(content, "abc123"),
        "[api.keys]\n\"xyz\" = { name = \"X\", role = \"viewer\" }"
    );
}

#[test]
fn revocation_targets() {
    let keys = vec!["abc123".to_string(), "abd456".to_string(), "xyz".to_string()];
    assert_eq!(revoke_target(&keys, "abc").unwrap(), Some("abc123".to_string()));
    assert_eq!(revoke_target(&keys, "ab").unwrap(), None);
    match revoke_target(&keys, "q") {
        Err(VelnError::Config(m)) => assert_eq!(m, "No API key found matching 'q'"),
        other => panic!("unexpected {other:?}"),
    }
}

#[test]
fn keys_are_listed_abbreviated() {
    assert_eq!(short_key("0123456789abcdef"), "01234567...");
    assert_eq!(short_key("abc"), "abc...");
    assert_eq!(short_key(""), "...");
    // Eight bytes, not eight characters.
    assert_eq!(short_key("ééééé"), "éééé...");
    assert_eq!(short_key("aé"), "aé...");
    assert_eq!(short_key("abcdéfgh"), "abcdéfg...");
}

#[test]
fn revoking_undoes_adding() {
    let c = "zfs_pool = \"zroot\"\n\n[api]\nauth_enabled = true\n\n[api.keys]\n\"old\" = { name = \"A\", role = \"admin\" }\n";
    let added = add_key_entry(c, "newkey123", "Ops", "operator");
    assert!(added.contains("newkey123"));
    assert_eq!(remove_key_lines(&added, "newkey123"), remove_key_lines(c, "newkey123"));
    assert_eq!(
        remove_key_lines(&added, "newkey123"),
        "zfs_pool = \"zroot\"\n\n[api]\nauth_enabled = true\n\n[api.keys]\n\"old\" = { name = \"A\", role = \"admin\" }"
    );
}

#[test]
fn added_key_is_found() {
    let added = add_key_entry("zfs_pool = \"zroot\"\n", "k-new", "Ops", "operator");
    assert_eq!(added.lines().last().unwrap(), "\"k-new\" = { name = \"Ops\", role = \"operator\" }");
    let keys = vec!["k-old".to_string(), "k-new".to_string()];
    assert_eq!(matching_keys(&keys, "k-n"), vec!["k-new".to_string()]);
    assert_eq!(revoke_target(&keys, "k-new").unwrap(), Some("k-new".to_string()));
    assert!(!remove_key_lines(&added, "k-new").contains("k-new"));
}
