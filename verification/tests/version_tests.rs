use bookbase::version::{marker_version, normalize_version, parse_version, Version};

#[test]
fn mod_test_normalize_version() {
    assert_eq!(normalize_version("1"), "1.0.0");
    assert_eq!(normalize_version("1.1"), "1.1.0");
    assert_eq!(normalize_version("1.1.1"), "1.1.1");
}

#[test]
fn db_test_normalize_version() {
    assert_eq!(normalize_version("1"), "1.0.0");
    assert_eq!(normalize_version("1.1"), "1.1.0");
    assert_eq!(normalize_version("1.1.1"), "1.1.1");
}

#[test]
fn normalize_is_idempotent_on_samples() {
    for v in ["1", "1.2", "1.2.3", "0", "10.0", "7.8.9"] {
        let once = normalize_version(v);
        let twice = normalize_version(&once);
        assert_eq!(once, twice);
        assert_eq!(once.split('.').count(), 3);
    }
}

#[test]
fn normalize_leaves_longer_forms_alone() {
    assert_eq!(normalize_version("1.2.3.4"), "1.2.3.4");
    assert_eq!(normalize_version(""), ".0.0");
}

#[test]
fn parse_version_reads_three_components() {
    assert_eq!(parse_version("1.2.3"), Some(Version { major: 1, minor: 2, patch: 3 }));
    assert_eq!(parse_version("0.0.0"), Some(Version { major: 0, minor: 0, patch: 0 }));
    assert_eq!(parse_version("01.002.3"), Some(Version { major: 1, minor: 2, patch: 3 }));
    assert_eq!(
        parse_version("18446744073709551615.0.0"),
        Some(Version { major: u64::MAX, minor: 0, patch: 0 })
    );
}

#[test]
fn parse_version_rejects_malformed_strings() {
    assert_eq!(parse_version("1.2"), None);
    assert_eq!(parse_version("1.2.3.4"), None);
    assert_eq!(parse_version("1.2.x"), None);
    assert_eq!(parse_version("1..3"), None);
    assert_eq!(parse_version(""), None);
    assert_eq!(parse_version("1.2.3-rc1"), None);
    assert_eq!(parse_version("18446744073709551616.0.0"), None);
}

#[test]
fn marker_version_reads_or_rejects() {
    // A fresh store's marker text and partial forms read as versions ...
    assert_eq!(marker_version("0.0.0"), Some(Version { major: 0, minor: 0, patch: 0 }));
    assert_eq!(marker_version("2"), Some(Version { major: 2, minor: 0, patch: 0 }));
    assert_eq!(marker_version("2.1"), Some(Version { major: 2, minor: 1, patch: 0 }));
    assert_eq!(marker_version("2.1.7"), Some(Version { major: 2, minor: 1, patch: 7 }));
    // ... while a corrupted marker reads as nothing: fatal, never 0.0.0.
    assert_eq!(marker_version("not-a-version"), None);
    assert_eq!(marker_version(""), None);
}

#[test]
fn version_order_is_lexicographic() {
    let a = Version { major: 1, minor: 0, patch: 0 };
    let b = Version { major: 1, minor: 0, patch: 1 };
    let c = Version { major: 1, minor: 1, patch: 0 };
    let d = Version { major: 2, minor: 0, patch: 0 };
    assert!(a.lt(&b) && b.lt(&c) && c.lt(&d));
    assert!(a.le(&a) && !b.lt(&a));
    assert!(a.lt(&d));
}
