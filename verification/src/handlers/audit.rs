//! The audit log page: query validation and pagination.

use vstd::prelude::*;

use crate::db::audit::AuditFilter;
use crate::error::AppError;
use crate::text::{cat3, str_eq};
use vstd::string::StringSliceAdditionalSpecFns;

verus! {

/// Entries per audit page.
pub const AUDIT_PAGE_SIZE: i64 = 50;

/// The query of the audit page.
pub struct AuditQuery {
    pub page: i64,
    pub action: Option<String>,
    pub result: Option<String>,
    pub admin: Option<String>,
    pub from: Option<String>,
    pub to: Option<String>,
}

/// The page shown when none is asked for.
pub fn default_page() -> (res: i64)
    ensures
        res == 1,
{
    1
}

/// The characters of each string slice.
pub open spec fn str_views(s: Seq<&str>) -> Seq<Seq<char>> {
    s.map_values(|x: &str| x@)
}

/// The actions the audit page can filter on.
pub open spec fn action_options() -> Seq<Seq<char>> {
    seq![
        "create_policy_binding"@,
        "deactivate_auth_account_on_offboard"@,
        "deactivate_mas_user"@,
        "delete_keycloak_user"@,
        "delete_policy_binding"@,
        "disable_identity_account_on_disable"@,
        "disable_identity_account_on_offboard"@,
        "enable_identity_account_on_reactivate"@,
        "finish_mas_session"@,
        "force_identity_logout_on_offboard"@,
        "force_keycloak_logout"@,
        "invite_user"@,
        "join_room_on_reconcile"@,
        "kick_room_on_offboard"@,
        "kick_room_on_reconcile"@,
        "reactivate_auth_account_on_reactivate"@,
        "reactivate_mas_user"@,
        "revoke_auth_session_on_disable"@,
        "revoke_auth_session_on_offboard"@,
        "update_policy_binding"@,
    ]
}

/// The results the audit page can filter on.
pub open spec fn result_options() -> Seq<Seq<char>> {
    seq!["success"@, "failure"@]
}

/// The actions the audit page can filter on, in the order it lists them.
pub fn audit_action_options() -> (res: Vec<&'static str>)
    ensures
        str_views(res@) == action_options(),
{
    let v: Vec<&'static str> = vec![
        "create_policy_binding",
        "deactivate_auth_account_on_offboard",
        "deactivate_mas_user",
        "delete_keycloak_user",
        "delete_policy_binding",
        "disable_identity_account_on_disable",
        "disable_identity_account_on_offboard",
        "enable_identity_account_on_reactivate",
        "finish_mas_session",
        "force_identity_logout_on_offboard",
        "force_keycloak_logout",
        "invite_user",
        "join_room_on_reconcile",
        "kick_room_on_offboard",
        "kick_room_on_reconcile",
        "reactivate_auth_account_on_reactivate",
        "reactivate_mas_user",
        "revoke_auth_session_on_disable",
        "revoke_auth_session_on_offboard",
        "update_policy_binding",
    ];
    assert(str_views(v@) =~= action_options());
    v
}

/// The results the audit page can filter on.
pub fn audit_result_options() -> (res: Vec<&'static str>)
    ensures
        str_views(res@) == result_options(),
{
    let v: Vec<&'static str> = vec!["success", "failure"];
    assert(str_views(v@) =~= result_options());
    v
}

/// Whether `s` is one of `allowed`.
fn is_allowed(allowed: &[&str], s: &str) -> (res: bool)
    ensures
        res == str_views(allowed@).contains(s@),
{
    let mut i: usize = 0;
    while i < allowed.len()
        invariant
            i <= allowed@.len(),
            forall|j: int| 0 <= j < i ==> allowed@[j]@ != s@,
        decreases allowed@.len() - i,
    {
        if str_eq(allowed[i], s) {
            assert(str_views(allowed@)[i as int] == s@);
            return true;
        }
        i = i + 1;
    }
    assert(!str_views(allowed@).contains(s@)) by {
        assert forall|j: int| 0 <= j < str_views(allowed@).len() implies str_views(allowed@)[j]
            != s@ by {
            assert(str_views(allowed@)[j] == allowed@[j]@);
        }
    }
    false
}

/// An optional filter value: absent counts as empty; a value that is
/// neither empty nor one of `allowed` is rejected with
/// `Invalid audit <name> filter.`.
pub fn validate_optional_filter(raw: Option<String>, name: &str, allowed: &[&str]) -> (res:
    Result<String, AppError>)
    ensures
        ({
            let v = match raw {
                Some(s) => s@,
                None => Seq::<char>::empty(),
            };
            if v.len() == 0 || str_views(allowed@).contains(v) {
                res matches Ok(s) && s@ == v
            } else {
                res matches Err(AppError::Validation(m)) && m@ == "Invalid audit "@ + name@
                    + " filter."@
            }
        }),
{
    let value = match raw {
        Some(s) => s,
        None => String::new(),
    };
    if value.as_str().unicode_len() == 0 || is_allowed(allowed, value.as_str()) {
        Ok(value)
    } else {
        Err(AppError::Validation(cat3("Invalid audit ", name, " filter.")))
    }
}

/// `None` for an empty string, else the string.
pub fn non_empty(s: &str) -> (res: Option<&str>)
    ensures
        s@.len() == 0 ==> res is None,
        s@.len() > 0 ==> res == Some(s),
{
    if s.unicode_len() == 0 {
        None
    } else {
        Some(s)
    }
}

/// Whether a byte is an ASCII digit.
pub open spec fn is_digit_byte(b: u8) -> bool {
    48 <= b <= 57
}

/// Bytes of the form `YYYY-MM-DD`, each `Y`, `M`, `D` an ASCII digit.
pub open spec fn is_date_bytes(b: Seq<u8>) -> bool {
    &&& b.len() == 10
    &&& b[4] == 45
    &&& b[7] == 45
    &&& forall|i: int| 0 <= i < 10 && i != 4 && i != 7 ==> is_digit_byte(#[trigger] b[i])
}

/// Accepts a `YYYY-MM-DD` date, else rejects it with
/// `Invalid date format, expected YYYY-MM-DD`.
pub fn validate_date_format(s: &str) -> (res: Result<(), AppError>)
    ensures
        is_date_bytes(s.spec_bytes()) ==> res is Ok,
        !is_date_bytes(s.spec_bytes()) ==> (res matches Err(AppError::Validation(m)) && m@
            == "Invalid date format, expected YYYY-MM-DD"@),
{
    let b = s.as_bytes();
    let mut ok = b.len() == 10;
    if ok {
        ok = b[4] == 45 && b[7] == 45;
    }
    let mut i: usize = 0;
    while ok && i < 10
        invariant
            ok ==> b@.len() == 10 && b@[4] == 45 && b@[7] == 45,
            ok ==> forall|j: int| 0 <= j < i && j != 4 && j != 7 ==> is_digit_byte(#[trigger] b@[j]),
            !ok ==> !is_date_bytes(b@),
            i <= 10,
            b@ == s.spec_bytes(),
        decreases 10 - i,
    {
        if i != 4 && i != 7 && !(b[i] >= 48 && b[i] <= 57) {
            ok = false;
        }
        i = i + 1;
    }
    if ok {
        Ok(())
    } else {
        Err(AppError::Validation(String::from_str("Invalid date format, expected YYYY-MM-DD")))
    }
}

/// The number of pages of `total` entries, at least one.
pub open spec fn page_count(total: int, size: int) -> int {
    let n = (total + size - 1) / size;
    if n < 1 {
        1
    } else {
        n
    }
}

/// A page of the audit log: the page shown, the number of pages and the
/// offset of its first entry.
pub struct AuditPage {
    pub page: i64,
    pub total_pages: i64,
    pub offset: i64,
}

/// The page shown for a request of page `requested` among `total`
/// entries: clamped to `1..=total_pages`.
pub fn audit_page(total: i64, requested: i64) -> (res: AuditPage)
    requires
        0 <= total <= i64::MAX - 49,
    ensures
        res.total_pages == page_count(total as int, 50),
        res.page == (if requested < 1 {
            1
        } else if requested > res.total_pages {
            res.total_pages as int
        } else {
            requested as int
        }),
        res.offset == (res.page - 1) * 50,
        1 <= res.page <= res.total_pages,
{
    let n = (total + 49) / 50;
    let total_pages = if n < 1 {
        1
    } else {
        n
    };
    let lower = if requested < 1 {
        1
    } else {
        requested
    };
    let page = if lower > total_pages {
        total_pages
    } else {
        lower
    };
    assert((page - 1) * 50 <= total + 49) by (nonlinear_arith)
        requires
            1 <= page <= total_pages,
            total_pages == (if n < 1 { 1 } else { n }),
            n == (total + 49) / 50,
            0 <= total,
    ;
    AuditPage { page, total_pages, offset: (page - 1) * 50 }
}

/// The filter of a validated query: empty fields do not filter.
pub open spec fn opt_nonempty(s: Seq<char>) -> Option<Seq<char>> {
    if s.len() == 0 {
        None
    } else {
        Some(s)
    }
}

/// The characters of an optional string slice.
pub open spec fn opt_str_view(o: Option<&str>) -> Option<Seq<char>> {
    match o {
        Some(s) => Some(s@),
        None => None,
    }
}

/// The view of a filter built from validated strings.
pub open spec fn filter_matches(
    f: AuditFilter,
    action: Seq<char>,
    result: Seq<char>,
    admin: Seq<char>,
    from: Seq<char>,
    to: Seq<char>,
) -> bool {
    &&& opt_str_view(f.action) == opt_nonempty(action)
    &&& opt_str_view(f.result) == opt_nonempty(result)
    &&& opt_str_view(f.admin_username) == opt_nonempty(admin)
    &&& opt_str_view(f.from) == opt_nonempty(from)
    &&& opt_str_view(f.to) == opt_nonempty(to)
}

/// The filter of the given field values; empty ones do not filter.
pub fn audit_filter<'a>(
    action: &'a str,
    result: &'a str,
    admin: &'a str,
    from: &'a str,
    to: &'a str,
) -> (res: AuditFilter<'a>)
    ensures
        filter_matches(res, action@, result@, admin@, from@, to@),
{
    AuditFilter {
        action: non_empty(action),
        result: non_empty(result),
        admin_username: non_empty(admin),
        from: non_empty(from),
        to: non_empty(to),
    }
}


/// The page shown never starts past the last entry: with entries, the
/// first one of any page in range exists; without, only the first page,
/// at offset zero, is shown.
pub proof fn law_audit_page_within_entries(total: int, page: int)
    requires
        0 <= total,
        1 <= page <= page_count(total, 50),
    ensures
        total > 0 ==> (page - 1) * 50 < total,
        total == 0 ==> page == 1,
{
    if total > 0 {
        assert((total + 49) / 50 >= 1);
        assert((page - 1) * 50 < total) by (nonlinear_arith)
            requires
                1 <= page <= (total + 49) / 50,
                total > 0,
        ;
    }
}

} // verus!
