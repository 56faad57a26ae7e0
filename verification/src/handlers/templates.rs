//! The onboarding templates page: creating and deleting templates.

use vstd::prelude::*;

use crate::models::audit::AuditResult;
use crate::models::onboarding_template::OnboardingTemplate;
use crate::services::audit_service::{AuditRecord, MetaValue};
use crate::services::protocol::{meta_views, AuditView, MetaView};
use crate::services::reconcile_membership::copy_strings;
use crate::text::{comma_list, split_chars, str_eq, trim, trimmed, trimmed_nonempty, views};

verus! {

/// The query of the templates page: a notice to show.
pub struct ListQuery {
    pub notice: Option<String>,
}

/// The form creating a template; groups and roles are comma-separated.
pub struct CreateForm {
    pub _csrf: String,
    pub name: String,
    pub description: String,
    pub groups: String,
    pub roles: String,
}

/// The form deleting a template by name.
pub struct DeleteForm {
    pub _csrf: String,
    pub name: String,
}

/// The page shown when a new template has no name.
pub const NAME_REQUIRED_LOCATION: &'static str = "/templates?notice=Template+name+is+required";

/// The page shown when a template of that name exists.
pub const NAME_TAKEN_LOCATION: &'static str = "/templates?notice=Template+name+already+exists";

/// The page shown after a template was created.
pub const CREATED_LOCATION: &'static str = "/templates?notice=Template+created";

/// The page shown after a template was deleted.
pub const DELETED_LOCATION: &'static str = "/templates?notice=Template+deleted";

/// The name of a new template: the trimmed field, none when empty.
pub fn template_name(raw: &str) -> (res: Option<String>)
    ensures
        trimmed(raw@).len() == 0 ==> res is None,
        trimmed(raw@).len() > 0 ==> (res matches Some(n) && n@ == trimmed(raw@)),
{
    let t = trim(raw);
    if t.as_str().unicode_len() == 0 {
        None
    } else {
        Some(t)
    }
}

/// Whether a template is named `name`.
pub open spec fn has_template(ts: Seq<OnboardingTemplate>, name: Seq<char>) -> bool {
    exists|i: int| 0 <= i < ts.len() && (#[trigger] ts[i]).name@ == name
}

/// A new template named `name`, unless one of that name exists; its
/// groups and roles are the trimmed, non-empty comma-separated items.
pub fn new_template(
    name: String,
    description: String,
    groups: &str,
    roles: &str,
    existing: &Vec<OnboardingTemplate>,
) -> (res: Option<OnboardingTemplate>)
    ensures
        has_template(existing@, name@) ==> res is None,
        !has_template(existing@, name@) ==> (res matches Some(t) && {
            &&& t.name == name
            &&& t.description == description
            &&& views(t.groups@) == trimmed_nonempty(split_chars(groups@, ','))
            &&& views(t.roles@) == trimmed_nonempty(split_chars(roles@, ','))
        }),
{
    let mut i: usize = 0;
    while i < existing.len()
        invariant
            i <= existing@.len(),
            forall|j: int| 0 <= j < i ==> existing@[j].name@ != name@,
        decreases existing@.len() - i,
    {
        if str_eq(existing[i].name.as_str(), name.as_str()) {
            assert(existing@[i as int].name@ == name@);
            return None;
        }
        i = i + 1;
    }
    Some(
        OnboardingTemplate {
            name,
            description,
            groups: comma_list(groups),
            roles: comma_list(roles),
        },
    )
}

/// The templates not named `name`, in order.
pub open spec fn without_named(ts: Seq<OnboardingTemplate>, name: Seq<char>) -> Seq<OnboardingTemplate>
    decreases ts.len(),
{
    if ts.len() == 0 {
        Seq::empty()
    } else {
        let rest = without_named(ts.drop_last(), name);
        if ts.last().name@ == name {
            rest
        } else {
            rest.push(ts.last())
        }
    }
}

/// Removes every template named `name`, keeping the others in order.
pub fn remove_template(templates: Vec<OnboardingTemplate>, name: &str) -> (res: Vec<
    OnboardingTemplate,
>)
    ensures
        res@ == without_named(templates@, name@),
{
    let ghost all = templates@;
    let n = templates.len();
    let mut rest = crate::text::reversed(templates);
    let mut out: Vec<OnboardingTemplate> = Vec::new();
    let mut i: usize = 0;
    while i < n
        invariant
            n == all.len(),
            i <= n,
            rest@.len() == n - i,
            forall|k: int| 0 <= k < n - i ==> #[trigger] rest@[k] == all[n - 1 - k],
            out@ == without_named(all.take(i as int), name@),
        decreases n - i,
    {
        let t = rest.pop().unwrap();
        assert(all.take(i + 1).drop_last() =~= all.take(i as int));
        assert(all.take(i + 1).last() == t);
        if !str_eq(t.name.as_str(), name) {
            out.push(t);
        }
        i = i + 1;
    }
    assert(all.take(n as int) =~= all);
    out
}

/// The audit entry of a created template.
pub open spec fn template_created_audit(
    admin_subject: Seq<char>,
    admin_username: Seq<char>,
    t: OnboardingTemplate,
) -> AuditView {
    AuditView {
        admin_subject,
        admin_username,
        target_keycloak_user_id: None,
        target_matrix_user_id: None,
        action: "create_onboarding_template"@,
        result: AuditResult::Success,
        metadata: seq![
            ("template_name"@, MetaView::Str(t.name@)),
            ("groups"@, MetaView::StrList(views(t.groups@))),
            ("roles"@, MetaView::StrList(views(t.roles@))),
        ],
    }
}

/// The audit entry of a created template.
pub fn template_created_record(
    admin_subject: &str,
    admin_username: &str,
    t: &OnboardingTemplate,
) -> (res: AuditRecord)
    ensures
        res.view() == template_created_audit(admin_subject@, admin_username@, *t),
{
    let metadata = vec![
        (String::from_str("template_name"), MetaValue::Str(t.name.clone())),
        (String::from_str("groups"), MetaValue::StrList(copy_strings(&t.groups))),
        (String::from_str("roles"), MetaValue::StrList(copy_strings(&t.roles))),
    ];
    let rec = AuditRecord {
        admin_subject: String::from_str(admin_subject),
        admin_username: String::from_str(admin_username),
        target_keycloak_user_id: None,
        target_matrix_user_id: None,
        action: String::from_str("create_onboarding_template"),
        result: AuditResult::Success,
        metadata,
    };
    assert(meta_views(rec.metadata@) =~= template_created_audit(
        admin_subject@,
        admin_username@,
        *t,
    ).metadata);
    rec
}

/// The audit entry of a deleted template.
pub open spec fn template_deleted_audit(
    admin_subject: Seq<char>,
    admin_username: Seq<char>,
    name: Seq<char>,
) -> AuditView {
    AuditView {
        admin_subject,
        admin_username,
        target_keycloak_user_id: None,
        target_matrix_user_id: None,
        action: "delete_onboarding_template"@,
        result: AuditResult::Success,
        metadata: seq![("template_name"@, MetaView::Str(name))],
    }
}

/// The audit entry of a deleted template.
pub fn template_deleted_record(admin_subject: &str, admin_username: &str, name: &str) -> (res:
    AuditRecord)
    ensures
        res.view() == template_deleted_audit(admin_subject@, admin_username@, name@),
{
    let metadata = vec![(String::from_str("template_name"), MetaValue::Str(String::from_str(name)))];
    let rec = AuditRecord {
        admin_subject: String::from_str(admin_subject),
        admin_username: String::from_str(admin_username),
        target_keycloak_user_id: None,
        target_matrix_user_id: None,
        action: String::from_str("delete_onboarding_template"),
        result: AuditResult::Success,
        metadata,
    };
    assert(meta_views(rec.metadata@) =~= seq![("template_name"@, MetaView::Str(name@))]);
    rec
}


/// Whether no two templates share a name.
pub open spec fn unique_names(ts: Seq<OnboardingTemplate>) -> bool {
    forall|i: int, j: int|
        0 <= i < j < ts.len() ==> (#[trigger] ts[i]).name@ != (#[trigger] ts[j]).name@
}

/// Removing a name that no template has changes nothing.
pub proof fn lemma_without_absent(ts: Seq<OnboardingTemplate>, name: Seq<char>)
    requires
        !has_template(ts, name),
    ensures
        without_named(ts, name) == ts,
    decreases ts.len(),
{
    if ts.len() > 0 {
        assert(!has_template(ts.drop_last(), name)) by {
            if has_template(ts.drop_last(), name) {
                let i = choose|i: int| 0 <= i < ts.drop_last().len() && (#[trigger] ts.drop_last()[i]).name@ == name;
                assert(ts[i].name@ == name);
            }
        }
        lemma_without_absent(ts.drop_last(), name);
        assert(ts.last().name@ != name) by {
            assert(ts[ts.len() - 1].name@ != name);
        }
        assert(ts.drop_last().push(ts.last()) =~= ts);
    }
}

/// After a removal no template has the removed name.
pub proof fn law_removed_name_is_gone(ts: Seq<OnboardingTemplate>, name: Seq<char>)
    ensures
        !has_template(without_named(ts, name), name),
    decreases ts.len(),
{
    if ts.len() > 0 {
        law_removed_name_is_gone(ts.drop_last(), name);
        let rest = without_named(ts.drop_last(), name);
        if ts.last().name@ != name {
            assert forall|i: int| 0 <= i < rest.push(ts.last()).len() implies (#[trigger] rest.push(
                ts.last(),
            )[i]).name@ != name by {
                if i < rest.len() {
                    assert(rest.push(ts.last())[i] == rest[i]);
                }
            }
        }
    }
}

/// Template names stay unique, and deleting a template that was just
/// created restores the list: adding a template whose name is not taken
/// keeps the names unique, and removing that name again gives back the
/// templates there were before.
pub proof fn law_create_then_delete_restores(ts: Seq<OnboardingTemplate>, t: OnboardingTemplate)
    requires
        unique_names(ts),
        !has_template(ts, t.name@),
    ensures
        unique_names(ts.push(t)),
        without_named(ts.push(t), t.name@) == ts,
{
    assert forall|i: int, j: int| 0 <= i < j < ts.push(t).len() implies (#[trigger] ts.push(t)[i]).name@
        != (#[trigger] ts.push(t)[j]).name@ by {
        if j == ts.len() {
            assert(ts.push(t)[i] == ts[i]);
        } else {
            assert(ts.push(t)[i] == ts[i]);
            assert(ts.push(t)[j] == ts[j]);
        }
    }
    assert(ts.push(t).drop_last() =~= ts);
    lemma_without_absent(ts, t.name@);
}

} // verus!
