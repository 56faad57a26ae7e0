//! The policy page: binding forms, where the admin is sent after each
//! change, and the `<option>` fragments of the binding form.

use vstd::prelude::*;

use crate::error::AppError;
use crate::models::keycloak::{KeycloakGroup, KeycloakRole};
use crate::models::policy_binding::{CachedRoom, PolicySubject, PolicyTarget};
use crate::text::{cat, cat3, decimal, parse_i64, parsed_i64, str_eq, trim, trimmed, u64_to_decimal};
use crate::utils::{pct_encode, pct_encoded};

verus! {

/// The form creating a binding.
pub struct CreateBindingForm {
    pub _csrf: String,
    pub subject_type: String,
    pub subject_value: String,
    pub target_type: String,
    pub target_room_id: String,
    pub power_level: Option<String>,
    pub allow_remove: Option<String>,
}

/// The form updating a binding's power level and remove flag.
pub struct UpdateBindingForm {
    pub _csrf: String,
    pub power_level: Option<String>,
    pub allow_remove: Option<String>,
}

/// A form carrying only the CSRF token.
pub struct CsrfForm {
    pub _csrf: String,
}

/// The query of the policy page: a notice and a warning, empty when absent.
pub struct PolicyQuery {
    pub notice: String,
    pub warning: String,
}

/// The subject named by a form: `group` or `role` and its name.
pub fn parse_subject(subject_type: &str, value: String) -> (res: Result<PolicySubject, AppError>)
    ensures
        subject_type@ == "group"@ ==> res == Ok::<PolicySubject, AppError>(PolicySubject::Group(value)),
        subject_type@ == "role"@ ==> res == Ok::<PolicySubject, AppError>(PolicySubject::Role(value)),
        subject_type@ != "group"@ && subject_type@ != "role"@ ==> (res matches Err(
            AppError::Validation(m),
        ) && m@ == "Invalid subject type"@),
{
    proof {
        reveal_strlit("group");
        reveal_strlit("role");
        assert("group"@.len() != "role"@.len());
    }
    if str_eq(subject_type, "group") {
        Ok(PolicySubject::Group(value))
    } else if str_eq(subject_type, "role") {
        Ok(PolicySubject::Role(value))
    } else {
        Err(AppError::Validation(String::from_str("Invalid subject type")))
    }
}

/// The target named by a form: `room` or `space` and its room ID.
pub fn parse_target(target_type: &str, room_id: String) -> (res: Result<PolicyTarget, AppError>)
    ensures
        target_type@ == "room"@ ==> res == Ok::<PolicyTarget, AppError>(PolicyTarget::Room(room_id)),
        target_type@ == "space"@ ==> res == Ok::<PolicyTarget, AppError>(PolicyTarget::Space(room_id)),
        target_type@ != "room"@ && target_type@ != "space"@ ==> (res matches Err(
            AppError::Validation(m),
        ) && m@ == "Invalid target type"@),
{
    proof {
        reveal_strlit("room");
        reveal_strlit("space");
        assert("room"@.len() != "space"@.len());
    }
    if str_eq(target_type, "room") {
        Ok(PolicyTarget::Room(room_id))
    } else if str_eq(target_type, "space") {
        Ok(PolicyTarget::Space(room_id))
    } else {
        Err(AppError::Validation(String::from_str("Invalid target type")))
    }
}

/// The power level of a form: the trimmed field parsed as an `i64`, none
/// when absent or not a number.
pub open spec fn power_level_of(raw: Option<String>) -> Option<i64> {
    match raw {
        Some(s) => parsed_i64(trimmed(s@)),
        None => None,
    }
}

/// The power level of a form (see `power_level_of`).
pub fn parse_power_level(raw: &Option<String>) -> (res: Option<i64>)
    ensures
        res == power_level_of(*raw),
{
    match raw {
        Some(s) => {
            let t = trim(s.as_str());
            parse_i64(t.as_str())
        },
        None => None,
    }
}

/// A binding as the create form asks for it.
pub struct BindingRequest {
    pub subject: PolicySubject,
    pub target: PolicyTarget,
    pub power_level: Option<i64>,
    pub allow_remove: bool,
}

/// Reads the create form: the subject, then the target, must be of a known
/// type; the remove flag is set when the checkbox was sent.
pub fn binding_request(form: CreateBindingForm) -> (res: Result<BindingRequest, AppError>)
    ensures
        ({
            let st = form.subject_type@;
            let tt = form.target_type@;
            if st != "group"@ && st != "role"@ {
                res matches Err(AppError::Validation(m)) && m@ == "Invalid subject type"@
            } else if tt != "room"@ && tt != "space"@ {
                res matches Err(AppError::Validation(m)) && m@ == "Invalid target type"@
            } else {
                res matches Ok(b) && {
                    &&& b.subject == (if st == "group"@ {
                        PolicySubject::Group(form.subject_value)
                    } else {
                        PolicySubject::Role(form.subject_value)
                    })
                    &&& b.target == (if tt == "room"@ {
                        PolicyTarget::Room(form.target_room_id)
                    } else {
                        PolicyTarget::Space(form.target_room_id)
                    })
                    &&& b.power_level == power_level_of(form.power_level)
                    &&& b.allow_remove == (form.allow_remove is Some)
                }
            }
        }),
{
    let power_level = parse_power_level(&form.power_level);
    let allow_remove = form.allow_remove.is_some();
    let subject = parse_subject(form.subject_type.as_str(), form.subject_value)?;
    let target = parse_target(form.target_type.as_str(), form.target_room_id)?;
    Ok(BindingRequest { subject, target, power_level, allow_remove })
}

/// The page shown after a binding was created.
pub fn created_redirect() -> (res: String)
    ensures
        res@ == "/policy?notice="@ + pct_encoded("Binding created"@),
{
    let n = pct_encode("Binding created");
    cat("/policy?notice=", n.as_str())
}

/// The page shown after an update (`deleted` false) or a delete of a
/// binding: a notice when it existed, else a warning.
pub open spec fn change_location(deleted: bool, found: bool) -> Seq<char> {
    if found {
        "/policy?notice="@ + pct_encoded(
            if deleted {
                "Binding deleted"@
            } else {
                "Binding updated"@
            },
        )
    } else {
        "/policy?warning="@ + pct_encoded("Binding not found"@)
    }
}

/// The page shown after an update or a delete (see `change_location`).
pub fn change_redirect(deleted: bool, found: bool) -> (res: String)
    ensures
        res@ == change_location(deleted, found),
{
    if found {
        let n = if deleted {
            pct_encode("Binding deleted")
        } else {
            pct_encode("Binding updated")
        };
        cat("/policy?notice=", n.as_str())
    } else {
        let w = pct_encode("Binding not found");
        cat("/policy?warning=", w.as_str())
    }
}

/// The page shown after the room cache was refreshed with `count` rooms.
pub fn refreshed_redirect(count: u64) -> (res: String)
    ensures
        res@ == "/policy?notice="@ + pct_encoded(
            "Refreshed "@ + decimal(count as nat) + " rooms from Synapse"@,
        ),
{
    let c = u64_to_decimal(count);
    let m = cat3("Refreshed ", c.as_str(), " rooms from Synapse");
    let n = pct_encode(m.as_str());
    cat("/policy?notice=", n.as_str())
}

/// One `<option>` element.
pub open spec fn option_html(value: Seq<char>, label: Seq<char>) -> Seq<char> {
    "<option value=\""@ + value + "\">"@ + label + "</option>"@
}

/// An option per name, value and label both the name.
pub open spec fn name_options(names: Seq<Seq<char>>) -> Seq<char>
    decreases names.len(),
{
    if names.len() == 0 {
        Seq::empty()
    } else {
        name_options(names.drop_last()) + option_html(names.last(), names.last())
    }
}

fn option(value: &str, label: &str) -> (res: String)
    ensures
        res@ == option_html(value@, label@),
{
    let a = cat3("<option value=\"", value, "\">");
    let b = a.concat(label);
    b.concat("</option>")
}

/// The names of groups, by their characters.
pub open spec fn group_name_views(gs: Seq<KeycloakGroup>) -> Seq<Seq<char>> {
    gs.map_values(|g: KeycloakGroup| g.name@)
}

/// The names of roles, by their characters.
pub open spec fn role_name_views(rs: Seq<KeycloakRole>) -> Seq<Seq<char>> {
    rs.map_values(|r: KeycloakRole| r.name@)
}

/// The group choices of the binding form: a placeholder and an option per
/// group, or a disabled notice when the groups could not be listed.
pub open spec fn group_options_html(r: Result<Vec<KeycloakGroup>, AppError>) -> Seq<char> {
    match r {
        Ok(gs) => "<option value=\"\">Select a group…</option>"@ + name_options(
            group_name_views(gs@),
        ),
        Err(_) => "<option value=\"\" disabled>Failed to load groups — try again</option>"@,
    }
}

/// The group choices of the binding form (see `group_options_html`).
pub fn group_options(r: &Result<Vec<KeycloakGroup>, AppError>) -> (res: String)
    ensures
        res@ == group_options_html(*r),
{
    match r {
        Ok(gs) => {
            let mut html = String::from_str("<option value=\"\">Select a group…</option>");
            let ghost head = html@;
            let mut i: usize = 0;
            while i < gs.len()
                invariant
                    i <= gs@.len(),
                    html@ == head + name_options(group_name_views(gs@).take(i as int)),
                decreases gs@.len() - i,
            {
                let o = option(gs[i].name.as_str(), gs[i].name.as_str());
                assert(group_name_views(gs@).take(i + 1).drop_last() =~= group_name_views(
                    gs@,
                ).take(i as int));
                html = html.concat(o.as_str());
                i = i + 1;
            }
            assert(group_name_views(gs@).take(gs@.len() as int) =~= group_name_views(gs@));
            html
        },
        Err(_) => String::from_str(
            "<option value=\"\" disabled>Failed to load groups — try again</option>",
        ),
    }
}

/// The role choices of the binding form: a placeholder and an option per
/// role, or a disabled notice when the roles could not be listed.
pub open spec fn role_options_html(r: Result<Vec<KeycloakRole>, AppError>) -> Seq<char> {
    match r {
        Ok(rs) => "<option value=\"\">Select a role…</option>"@ + name_options(
            role_name_views(rs@),
        ),
        Err(_) => "<option value=\"\" disabled>Failed to load roles — try again</option>"@,
    }
}

/// The role choices of the binding form (see `role_options_html`).
pub fn role_options(r: &Result<Vec<KeycloakRole>, AppError>) -> (res: String)
    ensures
        res@ == role_options_html(*r),
{
    match r {
        Ok(rs) => {
            let mut html = String::from_str("<option value=\"\">Select a role…</option>");
            let ghost head = html@;
            let mut i: usize = 0;
            while i < rs.len()
                invariant
                    i <= rs@.len(),
                    html@ == head + name_options(role_name_views(rs@).take(i as int)),
                decreases rs@.len() - i,
            {
                let o = option(rs[i].name.as_str(), rs[i].name.as_str());
                assert(role_name_views(rs@).take(i + 1).drop_last() =~= role_name_views(
                    rs@,
                ).take(i as int));
                html = html.concat(o.as_str());
                i = i + 1;
            }
            assert(role_name_views(rs@).take(rs@.len() as int) =~= role_name_views(rs@));
            html
        },
        Err(_) => String::from_str(
            "<option value=\"\" disabled>Failed to load roles — try again</option>",
        ),
    }
}

/// The label of a cached room: its kind, then its name and alias, or its
/// room ID when it has neither.
pub open spec fn room_label(r: CachedRoom) -> Seq<char> {
    let prefix = if r.is_space {
        "[Space]"@
    } else {
        "[Room]"@
    };
    match (r.name, r.canonical_alias) {
        (Some(n), Some(a)) => prefix + " "@ + n@ + " ("@ + a@ + ")"@,
        (Some(n), None) => prefix + " "@ + n@,
        (None, Some(a)) => prefix + " "@ + a@,
        (None, None) => prefix + " "@ + r.room_id@,
    }
}

/// An option per cached room.
pub open spec fn room_options_list(rs: Seq<CachedRoom>) -> Seq<char>
    decreases rs.len(),
{
    if rs.len() == 0 {
        Seq::empty()
    } else {
        room_options_list(rs.drop_last()) + option_html(rs.last().room_id@, room_label(rs.last()))
    }
}

/// The room choices of the binding form: a notice when none is cached,
/// else a placeholder and an option per room.
pub open spec fn room_options_html(rs: Seq<CachedRoom>) -> Seq<char> {
    if rs.len() == 0 {
        "<option value=\"\" disabled>No rooms cached — click Refresh Rooms</option>"@
    } else {
        "<option value=\"\">Select a room…</option>"@ + room_options_list(rs)
    }
}

fn room_label_of(r: &CachedRoom) -> (res: String)
    ensures
        res@ == room_label(*r),
{
    let prefix = if r.is_space {
        "[Space] "
    } else {
        "[Room] "
    };
    proof {
        reveal_strlit("[Space] ");
        reveal_strlit("[Space]");
        reveal_strlit("[Room] ");
        reveal_strlit("[Room]");
        reveal_strlit(" ");
        assert("[Space] "@ =~= "[Space]"@ + " "@);
        assert("[Room] "@ =~= "[Room]"@ + " "@);
    }
    match (&r.name, &r.canonical_alias) {
        (Some(n), Some(a)) => {
            let s = cat3(prefix, n.as_str(), " (");
            let s = s.concat(a.as_str());
            s.concat(")")
        },
        (Some(n), None) => cat(prefix, n.as_str()),
        (None, Some(a)) => cat(prefix, a.as_str()),
        (None, None) => cat(prefix, r.room_id.as_str()),
    }
}

/// The room choices of the binding form (see `room_options_html`).
pub fn room_options(rooms: &Vec<CachedRoom>) -> (res: String)
    ensures
        res@ == room_options_html(rooms@),
{
    if rooms.len() == 0 {
        return String::from_str(
            "<option value=\"\" disabled>No rooms cached — click Refresh Rooms</option>",
        );
    }
    let mut html = String::from_str("<option value=\"\">Select a room…</option>");
    let ghost head = html@;
    let mut i: usize = 0;
    while i < rooms.len()
        invariant
            i <= rooms@.len(),
            html@ == head + room_options_list(rooms@.take(i as int)),
        decreases rooms@.len() - i,
    {
        let label = room_label_of(&rooms[i]);
        let o = option(rooms[i].room_id.as_str(), label.as_str());
        assert(rooms@.take(i + 1).drop_last() =~= rooms@.take(i as int));
        html = html.concat(o.as_str());
        i = i + 1;
    }
    assert(rooms@.take(rooms@.len() as int) =~= rooms@);
    html
}

} // verus!
