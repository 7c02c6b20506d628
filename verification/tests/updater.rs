use bacchus::updater::{
    compare_versions, detect_platform, self_update, update_info, UpdateError, UpdateInfo,
};
use std::cmp::Ordering;

#[test]
fn test_version_compare() {
    assert_eq!(
        compare_versions("0.1.0", "0.1.1"),
        Some(std::cmp::Ordering::Less)
    );
    assert_eq!(
        compare_versions("0.2.0", "0.1.9"),
        Some(std::cmp::Ordering::Greater)
    );
    assert_eq!(
        compare_versions("1.0.0", "1.0.0"),
        Some(std::cmp::Ordering::Equal)
    );
}

#[test]
fn versions_are_compared_number_by_number() {
    assert_eq!(compare_versions("0.10.0", "0.9.9"), Some(Ordering::Greater));
    assert_eq!(compare_versions("1.0", "1.0.0"), Some(Ordering::Less));
    assert_eq!(compare_versions("1.0.0.1", "1.0.0"), Some(Ordering::Greater));
    assert_eq!(compare_versions("01.2", "1.02"), Some(Ordering::Equal));
    assert_eq!(compare_versions("+1", "1"), Some(Ordering::Equal));
    assert_eq!(compare_versions("7", "7"), Some(Ordering::Equal));
    assert_eq!(compare_versions("4294967295", "4294967294"), Some(Ordering::Greater));
}

#[test]
fn versions_that_are_not_numbers_have_no_order() {
    for bad in ["", "1.", ".1", "1..2", "v1.0", "1.0-beta", "1.x", "-1", "4294967296", " 1"] {
        assert_eq!(compare_versions(bad, "1.0.0"), None, "{:?}", bad);
        assert_eq!(compare_versions("1.0.0", bad), None, "{:?}", bad);
    }
}

#[test]
fn an_update_is_called_for_unless_the_version_is_known_to_be_current() {
    let info = update_info("0.1.0", "v0.2.0", "https://r".to_string(), Some("notes".to_string()));
    assert_eq!(
        info,
        UpdateInfo {
            current_version: "0.1.0".to_string(),
            latest_version: "0.2.0".to_string(),
            update_available: true,
            release_url: "https://r".to_string(),
            release_notes: Some("notes".to_string()),
        }
    );
    assert!(!update_info("0.2.0", "v0.2.0", String::new(), None).update_available);
    assert!(!update_info("0.3.0", "0.2.0", String::new(), None).update_available);
    assert!(update_info("0.3.0", "v0.2.0-rc1", String::new(), None).update_available);
    assert_eq!(update_info("1", "vv2", String::new(), None).latest_version, "2");
}

#[test]
fn updates_are_fetched_for_the_platform() {
    assert_eq!(detect_platform("linux", "x86_64"), ("linux".to_string(), "x86_64".to_string()));
    assert_eq!(detect_platform("macos", "aarch64"), ("darwin".to_string(), "aarch64".to_string()));
    assert_eq!(detect_platform("freebsd", "arm"), ("freebsd".to_string(), "aarch64".to_string()));
    let info = update_info("0.1.0", "v0.2.0", String::new(), None);
    assert_eq!(
        self_update(&info, "macos", "arm"),
        Ok("https://github.com/vu1n/bacchus/releases/download/v0.2.0/bacchus-darwin-aarch64"
            .to_string())
    );
    let current = update_info("0.2.0", "v0.2.0", String::new(), None);
    assert_eq!(
        self_update(&current, "linux", "x86_64"),
        Err(UpdateError::AlreadyLatest("0.2.0".to_string()))
    );
    assert_eq!(
        UpdateError::AlreadyLatest("0.2.0".to_string()).message(),
        "Already on latest version: 0.2.0"
    );
    assert_eq!(
        UpdateError::BinaryNotFound("plan9".to_string(), "mips".to_string()).message(),
        "No binary found for platform plan9-mips"
    );
    assert_eq!(UpdateError::HttpError("x".to_string()).message(), "HTTP request failed: x");
    assert_eq!(UpdateError::JsonError("x".to_string()).message(), "Failed to parse JSON: x");
    assert_eq!(UpdateError::IoError("x".to_string()).message(), "IO error: x");
}
