//! Query building for the audit log table.

use vstd::prelude::*;

use crate::text::{cat, cat3, join, join_seq, views};

verus! {

/// Filter of audit log queries; absent fields do not filter.
#[derive(Default)]
pub struct AuditFilter<'a> {
    pub action: Option<&'a str>,
    pub result: Option<&'a str>,
    pub admin_username: Option<&'a str>,
    pub from: Option<&'a str>,
    pub to: Option<&'a str>,
}

/// One condition of a filter and the value bound to its placeholder.
pub open spec fn cond(c: Seq<char>, v: Seq<char>) -> Seq<(Seq<char>, Seq<char>)> {
    seq![(c, v)]
}

/// An optional condition: present when the filter field is.
pub open spec fn opt_cond(f: Option<&str>, c: Seq<char>, suffix: Seq<char>) -> Seq<(Seq<char>, Seq<char>)> {
    match f {
        Some(v) => cond(c, v@ + suffix),
        None => Seq::empty(),
    }
}

/// The conditions of a filter with their bound values, in order: action,
/// result, admin, from (inclusive), to (inclusive of the whole day).
pub open spec fn filter_conditions(f: AuditFilter) -> Seq<(Seq<char>, Seq<char>)> {
    opt_cond(f.action, "action = ?"@, Seq::empty()) + opt_cond(f.result, "result = ?"@, Seq::empty())
        + opt_cond(f.admin_username, "admin_username = ?"@, Seq::empty()) + opt_cond(
        f.from,
        "timestamp >= ?"@,
        Seq::empty(),
    ) + opt_cond(f.to, "timestamp <= ?"@, "T23:59:59Z"@)
}

fn push_cond(
    conds: &mut Vec<String>,
    values: &mut Vec<String>,
    f: Option<&str>,
    c: &str,
    suffix: &str,
)
    ensures
        views(final(conds)@) == views(old(conds)@) + (match f {
            Some(_) => seq![c@],
            None => Seq::empty(),
        }),
        views(final(values)@) == views(old(values)@) + (match f {
            Some(v) => seq![v@ + suffix@],
            None => Seq::empty(),
        }),
{
    match f {
        Some(v) => {
            let ghost c0 = views(conds@);
            let ghost v0 = views(values@);
            conds.push(String::from_str(c));
            values.push(cat(v, suffix));
            assert(views(conds@) =~= c0 + seq![c@]);
            assert(views(values@) =~= v0 + seq![v@ + suffix@]);
        },
        None => {
            assert(views(conds@) =~= views(conds@) + Seq::<Seq<char>>::empty());
            assert(views(values@) =~= views(values@) + Seq::<Seq<char>>::empty());
        },
    }
}

/// The `WHERE` clause of a filter and the values for its placeholders: the
/// conditions joined with ` AND ` after `WHERE `, or nothing when no field
/// filters.
#[verifier::spinoff_prover]
#[verifier::rlimit(30)]
pub fn build_where_clause(filter: &AuditFilter<'_>) -> (res: (String, Vec<String>))
    ensures
        ({
            let cs = filter_conditions(*filter);
            &&& views(res.1@) == cs.map_values(|p: (Seq<char>, Seq<char>)| p.1)
            &&& res.0@ == (if cs.len() == 0 {
                Seq::empty()
            } else {
                "WHERE "@ + join_seq(cs.map_values(|p: (Seq<char>, Seq<char>)| p.0), " AND "@)
            })
        }),
{
    let mut conds: Vec<String> = Vec::new();
    let mut values: Vec<String> = Vec::new();
    proof {
        reveal_strlit("");
    }
    push_cond(&mut conds, &mut values, filter.action, "action = ?", "");
    push_cond(&mut conds, &mut values, filter.result, "result = ?", "");
    push_cond(&mut conds, &mut values, filter.admin_username, "admin_username = ?", "");
    push_cond(&mut conds, &mut values, filter.from, "timestamp >= ?", "");
    push_cond(&mut conds, &mut values, filter.to, "timestamp <= ?", "T23:59:59Z");
    let ghost cs = filter_conditions(*filter);
    assert(views(conds@) =~= cs.map_values(|p: (Seq<char>, Seq<char>)| p.0));
    assert(views(values@) =~= cs.map_values(|p: (Seq<char>, Seq<char>)| p.1));
    if conds.len() == 0 {
        (String::new(), values)
    } else {
        let joined = join(&conds, " AND ");
        (cat("WHERE ", joined.as_str()), values)
    }
}

/// `n` placeholders `?` separated by `, `.
pub open spec fn placeholders_text(n: nat) -> Seq<char>
    decreases n,
{
    if n == 0 {
        Seq::empty()
    } else if n == 1 {
        "?"@
    } else {
        placeholders_text((n - 1) as nat) + ", ?"@
    }
}

/// The placeholder list of an `IN (...)` clause with `n` values.
pub fn placeholders(n: usize) -> (res: String)
    ensures
        res@ == placeholders_text(n as nat),
{
    if n == 0 {
        return String::new();
    }
    let mut s = String::from_str("?");
    let mut i: usize = 1;
    while i < n
        invariant
            1 <= i <= n,
            s@ == placeholders_text(i as nat),
        decreases n - i,
    {
        s = s.concat(", ?");
        i = i + 1;
    }
    s
}

} // verus!

verus! {

/// The columns of an audit row, in the order they are selected.
pub open spec fn audit_columns() -> Seq<char> {
    "id, timestamp, admin_subject, admin_username, target_keycloak_user_id, target_matrix_user_id, action, result, metadata_json"@
}

/// The query counting the rows of a `WHERE` clause.
pub fn count_with_filter_sql(where_clause: &str) -> (res: String)
    ensures
        res@ == "SELECT COUNT(*) FROM audit_logs "@ + where_clause@,
{
    cat("SELECT COUNT(*) FROM audit_logs ", where_clause)
}

/// The `SELECT` of every audit column from the audit table.
fn select_columns() -> (res: String)
    ensures
        res@ == "SELECT "@ + audit_columns() + " FROM audit_logs "@,
{
    cat3(
        "SELECT ",
        "id, timestamp, admin_subject, admin_username, target_keycloak_user_id, target_matrix_user_id, action, result, metadata_json",
        " FROM audit_logs ",
    )
}

/// The query of one page of the rows of a `WHERE` clause, newest first,
/// with the limit and offset bound last.
pub fn page_with_filter_sql(where_clause: &str) -> (res: String)
    ensures
        res@ == "SELECT "@ + audit_columns() + " FROM audit_logs "@ + where_clause@
            + " ORDER BY timestamp DESC LIMIT ? OFFSET ?"@,
{
    let s = select_columns().concat(where_clause);
    s.concat(" ORDER BY timestamp DESC LIMIT ? OFFSET ?")
}

/// The query of all rows of a `WHERE` clause, newest first.
pub fn all_with_filter_sql(where_clause: &str) -> (res: String)
    ensures
        res@ == "SELECT "@ + audit_columns() + " FROM audit_logs "@ + where_clause@
            + " ORDER BY timestamp DESC"@,
{
    let s = select_columns().concat(where_clause);
    s.concat(" ORDER BY timestamp DESC")
}

/// The query counting the rows of any of `n` actions newer than a bound
/// number of seconds: one placeholder per action, then the seconds.
pub fn count_actions_since_sql(n: usize) -> (res: String)
    ensures
        res@ == "SELECT COUNT(*) FROM audit_logs WHERE action IN ("@ + placeholders_text(n as nat)
            + ") AND unixepoch(timestamp) > unixepoch('now') - ?"@,
{
    let p = placeholders(n);
    let s = cat("SELECT COUNT(*) FROM audit_logs WHERE action IN (", p.as_str());
    s.concat(") AND unixepoch(timestamp) > unixepoch('now') - ?")
}

} // verus!

verus! {

/// One when the filter field is present, else zero.
pub open spec fn present(o: Option<&str>) -> nat {
    if o is Some {
        1
    } else {
        0
    }
}

/// Whether the conditions hold a condition on column text `c` bound to `v`.
pub open spec fn has_condition(cs: Seq<(Seq<char>, Seq<char>)>, c: Seq<char>, v: Seq<char>) -> bool {
    exists|i: int| 0 <= i < cs.len() && cs[i] == (c, v)
}

/// Whether no condition is on column text `c`.
pub open spec fn no_condition(cs: Seq<(Seq<char>, Seq<char>)>, c: Seq<char>) -> bool {
    forall|i: int| 0 <= i < cs.len() ==> cs[i].0 != c
}

/// Whether filter field `o` is turned into exactly its own condition: on
/// column text `c`, bound to the field's value followed by `suffix`, when
/// present; no condition on that column when absent.
pub open spec fn field_filters(
    cs: Seq<(Seq<char>, Seq<char>)>,
    o: Option<&str>,
    c: Seq<char>,
    suffix: Seq<char>,
) -> bool {
    match o {
        Some(x) => has_condition(cs, c, x@ + suffix),
        None => no_condition(cs, c),
    }
}

/// Every filter field filters on its own column: a present action, result,
/// admin, start or end date yields a condition on `action`, `result`,
/// `admin_username`, `timestamp >=` or `timestamp <=` bound to its value
/// (the end date extended to the end of its day), an absent one yields no
/// condition on its column, and there is one condition per present field.
pub proof fn law_each_filter_field_is_applied(f: AuditFilter)
    ensures
        ({
            let cs = filter_conditions(f);
            &&& field_filters(cs, f.action, "action = ?"@, Seq::empty())
            &&& field_filters(cs, f.result, "result = ?"@, Seq::empty())
            &&& field_filters(cs, f.admin_username, "admin_username = ?"@, Seq::empty())
            &&& field_filters(cs, f.from, "timestamp >= ?"@, Seq::empty())
            &&& field_filters(cs, f.to, "timestamp <= ?"@, "T23:59:59Z"@)
            &&& cs.len() == present(f.action) + present(f.result) + present(f.admin_username)
                + present(f.from) + present(f.to)
        }),
{
    reveal_strlit("action = ?");
    reveal_strlit("result = ?");
    reveal_strlit("admin_username = ?");
    reveal_strlit("timestamp >= ?");
    reveal_strlit("timestamp <= ?");
    let a = "action = ?"@;
    let r = "result = ?"@;
    let d = "admin_username = ?"@;
    let s = "timestamp >= ?"@;
    let t = "timestamp <= ?"@;
    assert(a != r) by { assert(a[0] != r[0]); }
    assert(a != d) by { assert(a[1] != d[1]); }
    assert(a != s) by { assert(a[0] != s[0]); }
    assert(a != t) by { assert(a[0] != t[0]); }
    assert(r != d) by { assert(r[0] != d[0]); }
    assert(r != s) by { assert(r[0] != s[0]); }
    assert(r != t) by { assert(r[0] != t[0]); }
    assert(d != s) by { assert(d[0] != s[0]); }
    assert(d != t) by { assert(d[0] != t[0]); }
    assert(s != t) by { assert(s[10] != t[10]); }
    let ca = opt_cond(f.action, a, Seq::empty());
    let cr = opt_cond(f.result, r, Seq::empty());
    let cd = opt_cond(f.admin_username, d, Seq::empty());
    let cf = opt_cond(f.from, s, Seq::empty());
    let ct = opt_cond(f.to, t, "T23:59:59Z"@);
    let cs = filter_conditions(f);
    assert(cs == ca + cr + cd + cf + ct);
    let ia = 0int;
    let ir = ia + present(f.action);
    let id = ir + present(f.result);
    let i_from = id + present(f.admin_username);
    let i_to = i_from + present(f.from);
    assert forall|i: int| 0 <= i < cs.len() implies {
        ||| (i == ia && f.action is Some && cs[i].0 == a)
        ||| (i == ir && f.result is Some && cs[i].0 == r)
        ||| (i == id && f.admin_username is Some && cs[i].0 == d)
        ||| (i == i_from && f.from is Some && cs[i].0 == s)
        ||| (i == i_to && f.to is Some && cs[i].0 == t)
    } by {}
    if let Some(x) = f.action {
        assert(cs[ia] == (a, x@ + Seq::<char>::empty()));
    }
    if let Some(x) = f.result {
        assert(cs[ir] == (r, x@ + Seq::<char>::empty()));
    }
    if let Some(x) = f.admin_username {
        assert(cs[id] == (d, x@ + Seq::<char>::empty()));
    }
    if let Some(x) = f.from {
        assert(cs[i_from] == (s, x@ + Seq::<char>::empty()));
    }
    if let Some(x) = f.to {
        assert(cs[i_to] == (t, x@ + "T23:59:59Z"@));
    }
}

} // verus!
