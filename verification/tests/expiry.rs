//! The expiry policy and the RFC 3339 helpers, on concrete values.

use sas_operator::crd::{SasGeneratorStatus, DEFAULT_RENEWAL_HOURS, DEFAULT_TTL_HOURS};
use sas_operator::crd::Config;
use sas_operator::reconcile::should_regenerate;
use sas_operator::utils::format_rfc3339;

fn status_with_expiry(expiry: Option<&str>) -> SasGeneratorStatus {
    SasGeneratorStatus {
        token: Some("tok".to_string()),
        target_secret: Some("volsync-a-b".to_string()),
        generated: Some("2024-01-01T00:00:00Z".to_string()),
        expiry: expiry.map(|e| e.to_string()),
    }
}

// 2024-01-01T00:00:00Z
const T0: i64 = 1_704_067_200;

#[test]
fn no_status_regenerates() {
    assert!(should_regenerate(T0, &None, 1));
    assert!(should_regenerate(0, &None, 0));
    assert!(should_regenerate(-5, &None, 1_000));
}

#[test]
fn no_expiry_value_regenerates() {
    let status = status_with_expiry(None);
    assert!(should_regenerate(T0, &Some(status), 1));
}

#[test]
fn unparseable_expiry_regenerates() {
    for bad in ["not-a-timestamp", "", "2024-13-40T99:99:99Z", "1704103200"] {
        let status = status_with_expiry(Some(bad));
        assert!(should_regenerate(T0, &Some(status), 1));
        let status = status_with_expiry(Some(bad));
        assert!(should_regenerate(i64::MIN / 4, &Some(status), 0));
    }
}

#[test]
fn parseable_expiry_threshold_exact() {
    // Expiry 2024-01-01T10:00:00Z, one hour renewal window: the threshold
    // sits at 09:00:00.
    let expiry = "2024-01-01T10:00:00Z";
    let threshold = T0 + 9 * 3600;
    let status = status_with_expiry(Some(expiry));
    assert!(!should_regenerate(threshold - 1, &Some(status), 1));
    let status = status_with_expiry(Some(expiry));
    assert!(should_regenerate(threshold, &Some(status), 1));
    let status = status_with_expiry(Some(expiry));
    assert!(should_regenerate(threshold + 1, &Some(status), 1));
}

#[test]
fn parse_honors_numeric_offset() {
    // 10:00:00+02:00 denotes the same instant as 08:00:00Z.
    let status = status_with_expiry(Some("2024-01-01T10:00:00+02:00"));
    let threshold = T0 + 7 * 3600;
    assert!(!should_regenerate(threshold - 1, &Some(status), 1));
    let status = status_with_expiry(Some("2024-01-01T10:00:00+02:00"));
    assert!(should_regenerate(threshold, &Some(status), 1));
}

#[test]
fn zero_renewal_window_fires_at_expiry() {
    let status = status_with_expiry(Some("1970-01-01T01:00:00Z"));
    assert!(!should_regenerate(3599, &Some(status), 0));
    let status = status_with_expiry(Some("1970-01-01T01:00:00Z"));
    assert!(should_regenerate(3600, &Some(status), 0));
}

#[test]
fn format_epoch() {
    assert_eq!(format_rfc3339(0), "1970-01-01T00:00:00Z");
}

#[test]
fn format_known_instants() {
    assert_eq!(format_rfc3339(T0), "2024-01-01T00:00:00Z");
    assert_eq!(format_rfc3339(T0 + 3600), "2024-01-01T01:00:00Z");
    assert_eq!(format_rfc3339(1_704_103_200), "2024-01-01T10:00:00Z");
}

#[test]
fn format_out_of_range_is_empty() {
    // Beyond year 9999 the formatter refuses; the library renders the empty
    // string, as it does far before year 0000.
    assert_eq!(format_rfc3339(253_402_300_799), "9999-12-31T23:59:59Z");
    assert_eq!(format_rfc3339(253_402_300_800), "");
    assert_eq!(format_rfc3339(i64::MAX), "");
    assert_eq!(format_rfc3339(-62_167_219_201), "");
}

#[test]
fn format_then_parse_round_trips() {
    // A rendered instant read back through the policy: expiry exactly `now`
    // with no window fires, one second earlier does not.
    let rendered = format_rfc3339(T0);
    let status = status_with_expiry(Some(&rendered));
    assert!(should_regenerate(T0, &Some(status), 0));
    let status = status_with_expiry(Some(&rendered));
    assert!(!should_regenerate(T0 - 1, &Some(status), 0));
}

#[test]
fn config_defaults() {
    let config = Config::resolve(None, None);
    assert_eq!(config.sas_renewal_hours, DEFAULT_RENEWAL_HOURS);
    assert_eq!(config.sas_ttl_hours, DEFAULT_TTL_HOURS);
    assert_eq!(config.sas_renewal_hours, 24);
    assert_eq!(config.sas_ttl_hours, 48);
}

#[test]
fn config_overrides() {
    let config = Config::resolve(Some(6), Some(12));
    assert_eq!(config.sas_renewal_hours, 6);
    assert_eq!(config.sas_ttl_hours, 12);
}
