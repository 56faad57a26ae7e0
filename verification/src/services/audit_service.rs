//! Audit records: what a workflow asks to be logged, and the stored row
//! built from it.

use vstd::prelude::*;

use crate::calendar::{civil_date, day_number, epoch_day, era_civil, is_date, law_civil_date};
use crate::models::audit::{AuditLog, AuditResult};
use crate::text::{cat, padded, push_char, u64_to_padded};

verus! {

/// A value in an audit record's metadata, turned into JSON when stored.
#[derive(Debug, Clone)]
pub enum MetaValue {
    Str(String),
    OptStr(Option<String>),
    OptInt(Option<i64>),
    Bool(bool),
    StrList(Vec<String>),
}

/// An audit log entry that a workflow asks to be written: who acted, on
/// whom, which action, its result and its metadata fields in order.
#[derive(Debug)]
pub struct AuditRecord {
    pub admin_subject: String,
    pub admin_username: String,
    pub target_keycloak_user_id: Option<String>,
    pub target_matrix_user_id: Option<String>,
    pub action: String,
    pub result: AuditResult,
    pub metadata: Vec<(String, MetaValue)>,
}

proof fn lemma_civil_bounds(doe: u64)
    requires
        doe < 146097,
    ensures
        doe / 1460 <= doe,
        (doe - doe / 1460 + doe / 36524 - doe / 146096) / 365 <= 399,
        ({
            let yoe = (doe - doe / 1460 + doe / 36524 - doe / 146096) / 365;
            &&& 365 * yoe + yoe / 4 - yoe / 100 <= doe
            &&& doe - (365 * yoe + yoe / 4 - yoe / 100) <= 365
        }),
{
    assert(doe / 1460 <= doe) by (nonlinear_arith)
        requires
            doe < 146097,
    ;
    assert((doe - doe / 1460 + doe / 36524 - doe / 146096) / 365 <= 399) by (nonlinear_arith)
        requires
            doe < 146097,
    ;
    let yoe = (doe - doe / 1460 + doe / 36524 - doe / 146096) / 365;
    assert(365 * yoe + yoe / 4 - yoe / 100 <= doe && doe - (365 * yoe + yoe / 4 - yoe / 100)
        <= 365) by (nonlinear_arith)
        requires
            doe < 146097,
            yoe == (doe - doe / 1460 + doe / 36524 - doe / 146096) / 365,
    ;
}

/// The date `(year, month, day)` of the day `days` days after 1970-01-01.
pub fn days_to_ymd(days: u64) -> (res: (u64, u64, u64))
    requires
        days <= u64::MAX - 719468,
    ensures
        (res.0 as nat, res.1 as nat, res.2 as nat) == civil_date(days as int),
        is_date(res.0 as nat, res.1 as nat, res.2 as nat),
        day_number(res.0 as nat, res.1 as nat, res.2 as nat) == days + epoch_day(),
{
    let z = days + 719468;
    let era = z / 146097;
    let doe = z % 146097;
    proof {
        lemma_civil_bounds(doe);
    }
    let yoe = (doe - doe / 1460 + doe / 36524 - doe / 146096) / 365;
    assert(era * 400 <= z) by (nonlinear_arith)
        requires
            era == z / 146097,
    ;
    let y = yoe + era * 400;
    let doy = doe - (365 * yoe + yoe / 4 - yoe / 100);
    let mp = (5 * doy + 2) / 153;
    assert(mp <= 11);
    assert((153 * mp + 2) / 5 <= doy) by (nonlinear_arith)
        requires
            mp == (5 * doy + 2) / 153,
    ;
    assert(doy - (153 * mp + 2) / 5 + 1 <= 31) by (nonlinear_arith)
        requires
            mp == (5 * doy + 2) / 153,
            doy <= 365,
    ;
    let d = doy - (153 * mp + 2) / 5 + 1;
    let m = if mp < 10 {
        mp + 3
    } else {
        mp - 9
    };
    let y = if m <= 2 {
        y + 1
    } else {
        y
    };
    proof {
        assert((y as nat, m as nat, d as nat) == era_civil(days as nat));
        law_civil_date(days as nat);
    }
    (y, m, d)
}

/// The ISO 8601 UTC text `YYYY-MM-DDThh:mm:ssZ` of a Unix time in seconds.
pub open spec fn iso8601(secs: nat) -> Seq<char> {
    let (y, m, d) = civil_date((secs / 86400) as int);
    padded(y, 4) + seq!['-'] + padded(m, 2) + seq!['-'] + padded(d, 2) + seq!['T'] + padded(
        (secs / 3600) % 24,
        2,
    ) + seq![':'] + padded((secs / 60) % 60, 2) + seq![':'] + padded(secs % 60, 2) + seq!['Z']
}

/// Formats a Unix time in seconds as `YYYY-MM-DDThh:mm:ssZ`.
pub fn format_timestamp(secs: u64) -> (res: String)
    ensures
        res@ == iso8601(secs as nat),
{
    let sec = secs % 60;
    let min = (secs / 60) % 60;
    let hour = (secs / 3600) % 24;
    let days = secs / 86400;
    let (year, month, day) = days_to_ymd(days);
    let mut s = u64_to_padded(year, 4);
    push_char(&mut s, '-');
    s = s.concat(u64_to_padded(month, 2).as_str());
    push_char(&mut s, '-');
    s = s.concat(u64_to_padded(day, 2).as_str());
    push_char(&mut s, 'T');
    s = s.concat(u64_to_padded(hour, 2).as_str());
    push_char(&mut s, ':');
    s = s.concat(u64_to_padded(min, 2).as_str());
    push_char(&mut s, ':');
    s = s.concat(u64_to_padded(sec, 2).as_str());
    push_char(&mut s, 'Z');
    assert(s@ =~= iso8601(secs as nat));
    s
}

/// Reads `SystemTime::now()` as whole seconds since the Unix epoch (0 if
/// the clock is before the epoch). The time is not stated.
#[verifier::external_body]
fn unix_time_secs() -> (res: u64) {
    std::time::SystemTime::now()
        .duration_since(std::time::UNIX_EPOCH)
        .map(|d| d.as_secs())
        .unwrap_or(0)
}

/// The current moment as `YYYY-MM-DDThh:mm:ssZ`.
pub fn chrono_now() -> (res: String)
    ensures
        exists|secs: nat| res@ == #[trigger] iso8601(secs),
{
    let secs = unix_time_secs();
    format_timestamp(secs)
}

/// The text of a random (version 4) UUID as `uuid` writes it: 36
/// characters, hyphens at positions 8, 13, 18 and 23, lower-case
/// hexadecimal digits elsewhere, the version digit `4` at position 14 and a
/// variant digit `8`, `9`, `a` or `b` at position 19.
pub open spec fn is_uuid_v4_text(s: Seq<char>) -> bool {
    &&& s.len() == 36
    &&& forall|i: int|
        0 <= i < 36 ==> (if i == 8 || i == 13 || i == 18 || i == 23 {
            #[trigger] s[i] == '-'
        } else {
            ('0' <= s[i] && s[i] <= '9') || ('a' <= s[i] && s[i] <= 'f')
        })
    &&& s[14] == '4'
    &&& (s[19] == '8' || s[19] == '9' || s[19] == 'a' || s[19] == 'b')
}

/// Calls `uuid::Uuid::new_v4` and formats it with `to_string`. The value is
/// random; what holds of every outcome is its shape, `is_uuid_v4_text`.
#[verifier::external_body]
pub(crate) fn new_uuid_v4() -> (res: String)
    ensures
        is_uuid_v4_text(res@),
{
    uuid::Uuid::new_v4().to_string()
}

/// The stored row of an audit record: a fresh id, the current time, the
/// record's fields, its result as `success` or `failure`, and the JSON text
/// of its metadata.
pub fn build_audit_log(record: AuditRecord, metadata_json: String) -> (res: AuditLog)
    ensures
        is_uuid_v4_text(res.id@),
        exists|secs: nat| res.timestamp@ == #[trigger] iso8601(secs),
        res.admin_subject == record.admin_subject,
        res.admin_username == record.admin_username,
        res.target_keycloak_user_id == record.target_keycloak_user_id,
        res.target_matrix_user_id == record.target_matrix_user_id,
        res.action == record.action,
        res.result@ == record.result.text(),
        res.metadata_json == metadata_json,
{
    AuditLog {
        id: new_uuid_v4(),
        timestamp: chrono_now(),
        admin_subject: record.admin_subject,
        admin_username: record.admin_username,
        target_keycloak_user_id: record.target_keycloak_user_id,
        target_matrix_user_id: record.target_matrix_user_id,
        action: record.action,
        result: record.result.to_string(),
        metadata_json,
    }
}

/// An action name qualified by the workflow it belongs to:
/// `<base>_<context>`.
pub fn context_action(base: &str, context: &str) -> (res: String)
    ensures
        res@ == base@ + "_"@ + context@,
{
    let s = cat(base, "_");
    s.concat(context)
}

} // verus!
