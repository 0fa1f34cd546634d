use veln::domain::repository::{name_order, IsoMetadata, TemplateMetadata};
use veln::text::text_less;

fn names(v: &[&str]) -> Vec<String> {
    v.iter().map(|s| s.to_string()).collect()
}

#[test]
fn listings_sort_by_name() {
    assert_eq!(name_order(&names(&["ubuntu", "alpine", "freebsd"])), vec![1, 2, 0]);
    assert_eq!(name_order(&names(&[])), Vec::<usize>::new());
    assert_eq!(name_order(&names(&["b", "a", "b", "a"])), vec![1, 3, 0, 2]);
    assert_eq!(name_order(&names(&["ab", "a", "B", "é", "z"])), vec![2, 1, 0, 4, 3]);
}

#[test]
fn text_order_matches_str_order() {
    let words = ["", "a", "ab", "abc", "b", "B", "é", "z", "zz", "ä", "😀"];
    for x in words {
        for y in words {
            assert_eq!(text_less(x, y), x < y, "{x:?} < {y:?}");
        }
    }
}

#[test]
fn metadata_records() {
    let t = TemplateMetadata::new("base", Some("FreeBSD 14".to_string()), "web");
    assert_eq!(t.name, "base");
    assert_eq!(t.source_vm, "web");
    assert!(!t.created.is_empty());
    let listed = t.template();
    assert_eq!(listed.name, "base");
    assert_eq!(listed.description.as_deref(), Some("FreeBSD 14"));
    assert_eq!(listed.created, t.created);
    let i = IsoMetadata::new("freebsd-14", None, 1024, "https://example.org/f.iso");
    assert_eq!(i.filename, "freebsd-14.iso");
    assert_eq!(i.size, 1024);
    assert_eq!(i.url, "https://example.org/f.iso");
    let listed = i.iso();
    assert_eq!(listed.filename, "freebsd-14.iso");
    assert!(listed.description.is_none());
    assert_eq!(listed.downloaded, i.downloaded);
}
