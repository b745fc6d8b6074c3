use korone::version::is_current;
use korone::urls::{version_url, archive_url};

#[test]
fn matching_marker_is_current() {
    let remote = String::from("1.2.3");
    let marker = Some(String::from("1.2.3"));
    assert!(is_current(&marker, &remote));
}

#[test]
fn differing_marker_is_stale() {
    let remote = String::from("1.2.4");
    let marker = Some(String::from("1.2.3"));
    assert!(!is_current(&marker, &remote));
}

#[test]
fn semantically_older_remote_still_means_update() {
    // Tokens are compared only for equality: a remote that looks "older"
    // than the marker still counts as an update being required.
    let remote = String::from("1.0.0");
    let marker = Some(String::from("2.0.0"));
    assert!(!is_current(&marker, &remote));
}

#[test]
fn missing_marker_is_stale() {
    let remote = String::from("1.2.3");
    assert!(!is_current(&None, &remote));
}

#[test]
fn empty_marker_is_treated_like_missing() {
    let remote = String::from("1.2.3");
    let empty = Some(String::new());
    assert!(!is_current(&empty, &remote));
    assert_eq!(is_current(&empty, &remote), is_current(&None, &remote));
}

#[test]
fn marker_round_trip_yields_equality() {
    // Persisting the token and reading it back unchanged must gate as
    // current.
    let token = String::from("2024-05-01-rc1");
    let persisted = token.clone();
    assert!(is_current(&Some(persisted), &token));
}

#[test]
fn version_endpoint_url() {
    let u = version_url("https://setup.example.test");
    assert_eq!(u, "https://setup.example.test/version");
}

#[test]
fn archive_endpoint_url() {
    let u = archive_url("https://setup.example.test", "1.2.3", "ClientApp", "2021");
    assert_eq!(u, "https://setup.example.test/1.2.3-ClientApp2021.zip");
}
