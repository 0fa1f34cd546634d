use veln::application::{listed, root_check, size_unit};
use veln::error::VelnError;

#[test]
fn size_units() {
    assert_eq!(size_unit(0), (0, "B".to_string()));
    assert_eq!(size_unit(1023), (0, "B".to_string()));
    assert_eq!(size_unit(1024), (1, "K".to_string()));
    assert_eq!(size_unit(1572864), (2, "M".to_string()));
    assert_eq!(size_unit(3 * 1073741824), (3, "G".to_string()));
    assert_eq!(size_unit(u64::MAX), (4, "T".to_string()));
}

#[test]
fn listed_texts() {
    assert_eq!(listed("short"), "short");
    let thirty = "a".repeat(30);
    assert_eq!(listed(&thirty), thirty);
    let long = "0123456789012345678901234567890123";
    assert_eq!(listed(long), "012345678901234567890123456...");
    // Thirty bytes, not thirty characters.
    let accented = format!("a{}", "é".repeat(15));
    assert_eq!(accented.len(), 31);
    assert_eq!(listed(&accented), format!("a{}...", "é".repeat(13)));
    let fifteen = "é".repeat(15);
    assert_eq!(listed(&fifteen), fifteen);
}

#[test]
fn root_checks() {
    assert!(root_check(true).is_ok());
    assert!(matches!(root_check(false), Err(VelnError::RootRequired)));
}
