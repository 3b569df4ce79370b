use chrono::Utc;
use deez_notes::note::Timestamp;
use deez_notes::update::{compare_versions, is_cache_fresh, CacheEntry, InstallMethod, UpdateStatus};

fn ts(dt: chrono::DateTime<Utc>) -> Timestamp {
    Timestamp { secs: dt.timestamp(), nanos: dt.timestamp_subsec_nanos() }
}

fn now() -> Timestamp {
    ts(Utc::now())
}

#[test]
fn newer_version_detected() {
    let status = compare_versions("0.3.0", "0.4.0", InstallMethod::Cargo);
    assert!(matches!(status, UpdateStatus::Available { .. }));
    if let UpdateStatus::Available { current, latest, install_method } = status {
        assert_eq!(current, "0.3.0");
        assert_eq!(latest, "0.4.0");
        assert_eq!(install_method, InstallMethod::Cargo);
    }
}

#[test]
fn same_version_is_up_to_date() {
    let status = compare_versions("0.3.0", "0.3.0", InstallMethod::ManualBinary);
    assert!(matches!(status, UpdateStatus::UpToDate));
}

#[test]
fn older_remote_is_up_to_date() {
    let status = compare_versions("0.4.0", "0.3.0", InstallMethod::Pacman);
    assert!(matches!(status, UpdateStatus::UpToDate));
}

#[test]
fn semver_comparison_handles_multi_digit() {
    let status = compare_versions("0.9.0", "0.10.0", InstallMethod::Cargo);
    assert!(matches!(status, UpdateStatus::Available { .. }));
}

#[test]
fn invalid_version_returns_failed() {
    let status = compare_versions("not-a-version", "0.4.0", InstallMethod::Cargo);
    assert!(matches!(status, UpdateStatus::Failed(_)));
}

#[test]
fn cache_freshness() {
    let fresh = CacheEntry {
        latest_version: "0.4.0".to_string(),
        checked_at: now(),
    };
    assert!(is_cache_fresh(&fresh, now()));

    let stale = CacheEntry {
        latest_version: "0.4.0".to_string(),
        checked_at: ts(Utc::now() - chrono::Duration::hours(25)),
    };
    assert!(!is_cache_fresh(&stale, now()));
}

#[test]
fn release_is_newer_than_its_pre_release() {
    let status = compare_versions("1.0.0-alpha", "1.0.0", InstallMethod::Cargo);
    assert!(matches!(status, UpdateStatus::Available { .. }));
    let status = compare_versions("1.0.0", "1.0.0-alpha", InstallMethod::Cargo);
    assert!(matches!(status, UpdateStatus::UpToDate));
}
