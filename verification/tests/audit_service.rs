use matrix_identity_admin::models::audit::AuditResult;
use matrix_identity_admin::services::audit_service::{
    build_audit_log, chrono_now, context_action, days_to_ymd, format_timestamp, AuditRecord,
    MetaValue,
};

#[test]
fn unix_epoch_is_1970_01_01() {
    assert_eq!(days_to_ymd(0), (1970, 1, 1));
}

#[test]
fn known_date_2024_01_01() {
    assert_eq!(days_to_ymd(19723), (2024, 1, 1));
}

#[test]
fn leap_day_2000_02_29() {
    assert_eq!(days_to_ymd(11016), (2000, 2, 29));
}

#[test]
fn day_after_leap_day_is_march_1() {
    assert_eq!(days_to_ymd(11017), (2000, 3, 1));
}

#[test]
fn chrono_now_looks_like_iso8601() {
    let ts = chrono_now();
    assert_eq!(ts.len(), 20, "unexpected timestamp length: {ts}");
    assert!(ts.ends_with('Z'), "timestamp missing Z suffix: {ts}");
    assert_eq!(&ts[4..5], "-");
    assert_eq!(&ts[7..8], "-");
    assert_eq!(&ts[10..11], "T");
    assert_eq!(&ts[13..14], ":");
    assert_eq!(&ts[16..17], ":");
}

#[test]
fn end_of_century_non_leap_year() {
    // 1900 is not a leap year but lies before the epoch; 2100 is the next
    // century year that is not: 2100-02-28 is followed by 2100-03-01.
    assert_eq!(days_to_ymd(47540), (2100, 2, 28));
    assert_eq!(days_to_ymd(47541), (2100, 3, 1));
}

#[test]
fn format_timestamp_exact() {
    assert_eq!(format_timestamp(0), "1970-01-01T00:00:00Z");
    assert_eq!(format_timestamp(1704067200), "2024-01-01T00:00:00Z");
    assert_eq!(format_timestamp(951782400 + 3661), "2000-02-29T01:01:01Z");
}

#[test]
fn context_action_joins_with_underscore() {
    assert_eq!(
        context_action("revoke_auth_session_on", "disable"),
        "revoke_auth_session_on_disable"
    );
}

#[test]
fn audit_log_keeps_record_fields() {
    let rec = AuditRecord {
        admin_subject: "sub".to_string(),
        admin_username: "admin".to_string(),
        target_keycloak_user_id: Some("kc-1".to_string()),
        target_matrix_user_id: None,
        action: "invite_user".to_string(),
        result: AuditResult::Failure,
        metadata: vec![("email".to_string(), MetaValue::Str("a@b.c".to_string()))],
    };
    let log = build_audit_log(rec, "{}".to_string());
    assert_eq!(log.admin_username, "admin");
    assert_eq!(log.action, "invite_user");
    assert_eq!(log.result, "failure");
    assert_eq!(log.metadata_json, "{}");
    assert_eq!(log.id.len(), 36);
    assert_eq!(&log.id[14..15], "4");
    assert_eq!(log.timestamp.len(), 20);
}
