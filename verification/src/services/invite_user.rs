//! Inviting a user by email: the address is validated and normalised, an
//! existing Keycloak user rejects it, a deactivated MAS account with the
//! same username is reactivated (fatal), and the invite email is sent
//! (fatal, audit-logged either way). The onboarding form of the workflow
//! also requires the local part to be a valid Matrix localpart and applies
//! an onboarding template's groups and roles (failures only recorded).

use vstd::prelude::*;

use crate::error::AppError;
use crate::models::audit::AuditResult;
use crate::models::keycloak::{KeycloakGroup, KeycloakRole, RoleView};
use crate::models::mas::MasUser;
use crate::models::onboarding_template::OnboardingTemplate;
use crate::models::unified::{is_valid_matrix_localpart, valid_localpart};
use crate::services::audit_service::{AuditRecord, MetaValue};
use crate::services::identity_mapper::{format_matrix_user_id, matrix_user_id};
use crate::services::lifecycle_steps::{call_next, AuditedCall, CallPhase, CallView};
use crate::services::protocol::{
    is_protocol_error, is_rejection, meta_views, protocol_error, role_views, AuditView, Command,
    CommandView, Expect, MetaView, Reply, Step,
};
use crate::services::reconcile_membership::copy_strings;
use crate::text::{
    cat, cat3, contains_str, str_eq, find_char, first_index, has_char, lowercased, opt_view,
    seq_has_str, slice_chars, to_lowercase, trim, trimmed, views,
};

verus! {

// ── The address ──────────────────────────────────────────────────────────────

/// The address as the workflow uses it: trimmed, then lower-cased.
pub open spec fn normalized_email(raw: Seq<char>) -> Seq<char> {
    lowercased(trimmed(raw))
}

/// The part of an address before its first `@`.
pub open spec fn email_local(e: Seq<char>) -> Seq<char> {
    e.take(first_index(e, '@')->0)
}

/// The part of an address after its first `@`.
pub open spec fn email_domain(e: Seq<char>) -> Seq<char> {
    e.skip(first_index(e, '@')->0 + 1)
}

/// An address with an `@`, a non-empty local part and a non-empty domain
/// that contains a `.`.
pub open spec fn well_formed_email(e: Seq<char>) -> bool {
    &&& first_index(e, '@') is Some
    &&& email_local(e).len() > 0
    &&& email_domain(e).len() > 0
    &&& email_domain(e).contains('.')
}

/// What checking an address finds.
pub enum AddressCheck {
    Invalid,
    DomainNotPermitted,
    BadLocalpart,
    Valid,
}

/// Checks the normalised form of `raw`: it must be well formed, its domain
/// must be on the allowlist when there is one, and, when `localpart_rule`
/// holds, its local part must be a valid Matrix localpart.
pub open spec fn address_check(
    raw: Seq<char>,
    allowed: Option<Seq<String>>,
    localpart_rule: bool,
) -> AddressCheck {
    let e = normalized_email(raw);
    if !well_formed_email(e) {
        AddressCheck::Invalid
    } else if allowed is Some && !seq_has_str(allowed->0, email_domain(e)) {
        AddressCheck::DomainNotPermitted
    } else if localpart_rule && !valid_localpart(email_local(e)) {
        AddressCheck::BadLocalpart
    } else {
        AddressCheck::Valid
    }
}

/// The message of an address check that fails.
pub open spec fn address_error(raw: Seq<char>, c: AddressCheck) -> Seq<char> {
    let e = normalized_email(raw);
    match c {
        AddressCheck::DomainNotPermitted => "Email domain '"@ + email_domain(e)
            + "' is not permitted"@,
        AddressCheck::BadLocalpart => "Email local-part '"@ + email_local(e)
            + "' cannot be used as a Matrix username (only lowercase letters, digits, and ._=-/ are allowed)"@,
        _ => "Invalid email address"@,
    }
}

/// The optional allowlist by its strings.
pub open spec fn allowed_view(a: Option<&[String]>) -> Option<Seq<String>> {
    match a {
        Some(s) => Some(s@),
        None => None,
    }
}

/// An address accepted for an invite, split at its first `@`.
pub struct InviteAddress {
    pub email: String,
    pub local: String,
    pub domain: String,
}

/// Normalises and checks an invite address (see `address_check`).
pub fn check_invite_address(
    raw_email: &str,
    allowed_domains: Option<&[String]>,
    localpart_rule: bool,
) -> (res: Result<InviteAddress, AppError>)
    ensures
        match address_check(raw_email@, allowed_view(allowed_domains), localpart_rule) {
            AddressCheck::Valid => res matches Ok(a) && {
                &&& a.email@ == normalized_email(raw_email@)
                &&& a.local@ == email_local(a.email@)
                &&& a.domain@ == email_domain(a.email@)
            },
            c => res matches Err(e) && is_rejection(e, address_error(raw_email@, c)),
        },
{
    let trimmed_email = trim(raw_email);
    let email = to_lowercase(trimmed_email.as_str());
    let ghost e = email@;
    let at = match find_char(email.as_str(), '@') {
        Some(i) => i,
        None => {
            return Err(AppError::Validation(String::from_str("Invalid email address")));
        },
    };
    let n = email.as_str().unicode_len();
    let local = slice_chars(email.as_str(), 0, at);
    let domain = slice_chars(email.as_str(), at + 1, n);
    assert(local@ =~= email_local(e));
    assert(domain@ =~= email_domain(e));
    if local.as_str().unicode_len() == 0 || domain.as_str().unicode_len() == 0 || !has_char(
        domain.as_str(),
        '.',
    ) {
        return Err(AppError::Validation(String::from_str("Invalid email address")));
    }
    if let Some(allowed) = allowed_domains {
        if !contains_str(allowed, domain.as_str()) {
            return Err(
                AppError::Validation(
                    cat3("Email domain '", domain.as_str(), "' is not permitted"),
                ),
            );
        }
    }
    if localpart_rule && !is_valid_matrix_localpart(local.as_str()) {
        return Err(
            AppError::Validation(
                cat3(
                    "Email local-part '",
                    local.as_str(),
                    "' cannot be used as a Matrix username (only lowercase letters, digits, and ._=-/ are allowed)",
                ),
            ),
        );
    }
    Ok(InviteAddress { email, local, domain })
}

// ── Matching template groups and roles ───────────────────────────────────────

/// Whether `i` is the first group named `name`.
pub open spec fn is_first_group(gs: Seq<KeycloakGroup>, name: Seq<char>, i: int) -> bool {
    &&& 0 <= i < gs.len()
    &&& gs[i].name@ == name
    &&& forall|j: int| 0 <= j < i ==> gs[j].name@ != name
}

/// The position of the first group named `name`, if any.
pub open spec fn group_pos(gs: Seq<KeycloakGroup>, name: Seq<char>) -> Option<int> {
    if exists|i: int| is_first_group(gs, name, i) {
        Some(choose|i: int| is_first_group(gs, name, i))
    } else {
        None
    }
}

/// The position of the first group named `name`, if any.
pub fn find_group(gs: &Vec<KeycloakGroup>, name: &str) -> (res: Option<usize>)
    ensures
        match res {
            Some(i) => group_pos(gs@, name@) == Some(i as int),
            None => group_pos(gs@, name@) is None,
        },
{
    let mut i: usize = 0;
    while i < gs.len()
        invariant
            i <= gs@.len(),
            forall|j: int| 0 <= j < i ==> gs@[j].name@ != name@,
        decreases gs@.len() - i,
    {
        if str_eq(gs[i].name.as_str(), name) {
            assert(is_first_group(gs@, name@, i as int));
            let ghost k = choose|k: int| is_first_group(gs@, name@, k);
            assert(k == i);
            return Some(i);
        }
        i = i + 1;
    }
    None
}

/// Whether `i` is the first role named `name`.
pub open spec fn is_first_role(rs: Seq<KeycloakRole>, name: Seq<char>, i: int) -> bool {
    &&& 0 <= i < rs.len()
    &&& rs[i].name@ == name
    &&& forall|j: int| 0 <= j < i ==> rs[j].name@ != name
}

/// The position of the first role named `name`, if any.
pub open spec fn role_pos(rs: Seq<KeycloakRole>, name: Seq<char>) -> Option<int> {
    if exists|i: int| is_first_role(rs, name, i) {
        Some(choose|i: int| is_first_role(rs, name, i))
    } else {
        None
    }
}

/// For each name in order, the first role of that name, where there is one.
pub open spec fn matched_roles(all: Seq<KeycloakRole>, names: Seq<Seq<char>>) -> Seq<RoleView>
    decreases names.len(),
{
    if names.len() == 0 {
        Seq::empty()
    } else {
        let r = matched_roles(all, names.drop_last());
        match role_pos(all, names.last()) {
            Some(i) => r.push(all[i].view()),
            None => r,
        }
    }
}

/// The names, in order, that no role has.
pub open spec fn unknown_roles(all: Seq<KeycloakRole>, names: Seq<Seq<char>>) -> Seq<Seq<char>>
    decreases names.len(),
{
    if names.len() == 0 {
        Seq::empty()
    } else {
        let r = unknown_roles(all, names.drop_last());
        match role_pos(all, names.last()) {
            Some(_) => r,
            None => r.push(names.last()),
        }
    }
}

/// The names of roles.
pub open spec fn role_names(rs: Seq<RoleView>) -> Seq<Seq<char>> {
    rs.map_values(|r: RoleView| r.name)
}

fn find_role(rs: &Vec<KeycloakRole>, name: &str) -> (res: Option<usize>)
    ensures
        match res {
            Some(i) => role_pos(rs@, name@) == Some(i as int),
            None => role_pos(rs@, name@) is None,
        },
{
    let mut i: usize = 0;
    while i < rs.len()
        invariant
            i <= rs@.len(),
            forall|j: int| 0 <= j < i ==> rs@[j].name@ != name@,
        decreases rs@.len() - i,
    {
        if str_eq(rs[i].name.as_str(), name) {
            assert(is_first_role(rs@, name@, i as int));
            let ghost k = choose|k: int| is_first_role(rs@, name@, k);
            assert(k == i);
            return Some(i);
        }
        i = i + 1;
    }
    None
}

/// The roles matched by `names`, and the names that match none.
pub fn match_roles(all: &Vec<KeycloakRole>, names: &Vec<String>) -> (res: (
    Vec<KeycloakRole>,
    Vec<String>,
))
    ensures
        role_views(res.0@) == matched_roles(all@, views(names@)),
        views(res.1@) == unknown_roles(all@, views(names@)),
{
    let mut matched: Vec<KeycloakRole> = Vec::new();
    let mut unknown: Vec<String> = Vec::new();
    let mut i: usize = 0;
    while i < names.len()
        invariant
            i <= names@.len(),
            role_views(matched@) == matched_roles(all@, views(names@).take(i as int)),
            views(unknown@) == unknown_roles(all@, views(names@).take(i as int)),
        decreases names@.len() - i,
    {
        let ghost prefix = views(names@).take(i + 1);
        assert(prefix.drop_last() =~= views(names@).take(i as int));
        assert(prefix.last() == names@[i as int]@);
        let ghost before_m = role_views(matched@);
        let ghost before_u = views(unknown@);
        match find_role(all, names[i].as_str()) {
            Some(k) => {
                matched.push(all[k].duplicate());
                assert(role_views(matched@) =~= before_m.push(all@[k as int].view()));
            },
            None => {
                unknown.push(names[i].clone());
                assert(views(unknown@) =~= before_u.push(names@[i as int]@));
            },
        }
        i = i + 1;
    }
    assert(views(names@).take(names@.len() as int) =~= views(names@));
    (matched, unknown)
}

/// Copies of roles.
fn copy_roles(rs: &Vec<KeycloakRole>) -> (res: Vec<KeycloakRole>)
    ensures
        role_views(res@) == role_views(rs@),
{
    let mut copies: Vec<KeycloakRole> = Vec::new();
    let mut k: usize = 0;
    while k < rs.len()
        invariant
            k <= rs@.len(),
            role_views(copies@) == role_views(rs@).take(k as int),
        decreases rs@.len() - k,
    {
        let ghost before = role_views(copies@);
        copies.push(rs[k].duplicate());
        assert(role_views(copies@) =~= before.push(rs@[k as int].view()));
        assert(role_views(rs@).take(k + 1) =~= role_views(rs@).take(k as int).push(
            rs@[k as int].view(),
        ));
        k = k + 1;
    }
    assert(role_views(rs@).take(rs@.len() as int) =~= role_views(rs@));
    copies
}

/// Appends the names of `roles` to `dst`.
fn push_role_names(dst: &mut Vec<String>, roles: &Vec<KeycloakRole>)
    ensures
        views(final(dst)@) == views(old(dst)@) + role_names(role_views(roles@)),
{
    let ghost start = views(dst@);
    let mut i: usize = 0;
    while i < roles.len()
        invariant
            i <= roles@.len(),
            views(dst@) == start + role_names(role_views(roles@)).take(i as int),
        decreases roles@.len() - i,
    {
        let ghost before = views(dst@);
        dst.push(roles[i].name.clone());
        assert(views(dst@) =~= before.push(roles@[i as int].name@));
        assert(role_names(role_views(roles@)).take(i + 1) =~= role_names(role_views(roles@)).take(
            i as int,
        ).push(roles@[i as int].name@));
        i = i + 1;
    }
    assert(role_names(role_views(roles@)).take(roles@.len() as int) =~= role_names(
        role_views(roles@),
    ));
}

// ── The workflow ─────────────────────────────────────────────────────────────

/// An onboarding template by value.
pub struct TemplateView {
    pub name: Seq<char>,
    pub groups: Seq<Seq<char>>,
    pub roles: Seq<Seq<char>>,
}

/// The view of an optional template.
pub open spec fn template_view(t: Option<OnboardingTemplate>) -> Option<TemplateView> {
    match t {
        Some(t) => Some(TemplateView { name: t.name@, groups: views(t.groups@), roles: views(t.roles@) }),
        None => None,
    }
}

/// The stage of an invite, by value.
#[verifier::ext_equal]
pub enum InviteStageView {
    CheckingExisting,
    LookingUpAuth,
    Creating,
    ListingGroups,
    AddingGroup(nat),
    ListingRoles,
    AssigningRoles,
    Reactivating(CallView),
    Inviting(CallView),
    Done,
}

/// The state of an invite, by value.
#[verifier::ext_equal]
pub struct InviteView {
    pub email: Seq<char>,
    pub local: Seq<char>,
    pub actor_subject: Seq<char>,
    pub actor_username: Seq<char>,
    pub homeserver_domain: Seq<char>,
    pub requested_by: Option<Seq<char>>,
    /// Whether this is the onboarding form of the workflow.
    pub onboarding: bool,
    pub template: Option<TemplateView>,
    /// The MAS account with the invited username, if the lookup found one.
    pub auth_user: Option<MasUser>,
    pub user_id: Seq<char>,
    pub matrix_user_id: Seq<char>,
    /// The Keycloak groups listed for the template.
    pub groups: Seq<KeycloakGroup>,
    /// The template roles that matched a realm role.
    pub matched: Seq<RoleView>,
    pub assigned_groups: Seq<Seq<char>>,
    pub failed_groups: Seq<Seq<char>>,
    pub assigned_roles: Seq<Seq<char>>,
    pub failed_roles: Seq<Seq<char>>,
    pub stage: InviteStageView,
}

/// The groups of the template, if there is one.
pub open spec fn tmpl_groups(v: InviteView) -> Seq<Seq<char>> {
    match v.template {
        Some(t) => t.groups,
        None => Seq::empty(),
    }
}

/// The roles of the template, if there is one.
pub open spec fn tmpl_roles(v: InviteView) -> Seq<Seq<char>> {
    match v.template {
        Some(t) => t.roles,
        None => Seq::empty(),
    }
}

/// An audit entry about the invited user, with a placeholder result.
pub open spec fn invite_audit(
    v: InviteView,
    action: Seq<char>,
    metadata: Seq<(Seq<char>, MetaView)>,
) -> AuditView {
    AuditView {
        admin_subject: v.actor_subject,
        admin_username: v.actor_username,
        target_keycloak_user_id: Some(v.user_id),
        target_matrix_user_id: Some(v.matrix_user_id),
        action,
        result: AuditResult::Success,
        metadata,
    }
}

/// The metadata of the `invite_user` audit entry.
pub open spec fn invite_metadata(v: InviteView) -> Seq<(Seq<char>, MetaView)> {
    let base = seq![
        ("email"@, MetaView::Str(v.email)),
        ("requested_by"@, MetaView::OptStr(v.requested_by)),
        ("keycloak_user_id"@, MetaView::Str(v.user_id)),
    ];
    if v.onboarding {
        base + seq![
            (
                "template"@,
                MetaView::OptStr(
                    match v.template {
                        Some(t) => Some(t.name),
                        None => None,
                    },
                ),
            ),
            ("assigned_groups"@, MetaView::StrList(v.assigned_groups)),
            ("failed_groups"@, MetaView::StrList(v.failed_groups)),
            ("assigned_roles"@, MetaView::StrList(v.assigned_roles)),
            ("failed_roles"@, MetaView::StrList(v.failed_roles)),
        ]
    } else {
        base
    }
}

/// The message of a successful invite.
pub open spec fn invite_sent_message(email: Seq<char>) -> Seq<char> {
    "Invite sent to "@ + email
        + " — they will receive an email to set their password and can then log into Matrix."@
}

/// The message rejecting an address that already has a Keycloak user.
pub open spec fn already_exists_message(email: Seq<char>, id: Seq<char>) -> Seq<char> {
    "A user with email "@ + email + " already exists (id: "@ + id + ")"@
}

/// Sends the invite email: the last step.
pub open spec fn invite_step(v: InviteView) -> (InviteView, Expect<Seq<char>>) {
    (
        InviteView {
            stage: InviteStageView::Inviting(
                CallView {
                    audit: invite_audit(v, "invite_user"@, invite_metadata(v)),
                    phase: CallPhase::Calling,
                },
            ),
            ..v
        },
        Expect::Run(CommandView::SendInviteEmail { user_id: v.user_id }),
    )
}

/// After the template: reactivates a deactivated MAS account, then invites.
pub open spec fn after_template(v: InviteView) -> (InviteView, Expect<Seq<char>>) {
    match v.auth_user {
        Some(u) => if u.deactivated_at is Some {
            (
                InviteView {
                    stage: InviteStageView::Reactivating(
                        CallView {
                            audit: invite_audit(
                                v,
                                "reactivate_mas_user"@,
                                seq![
                                    ("email"@, MetaView::Str(v.email)),
                                    ("mas_user_id"@, MetaView::Str(u.id@)),
                                    ("keycloak_user_id"@, MetaView::Str(v.user_id)),
                                ],
                            ),
                            phase: CallPhase::Calling,
                        },
                    ),
                    ..v
                },
                Expect::Run(CommandView::ReactivateAuthUser { auth_user_id: u.id@ }),
            )
        } else {
            invite_step(v)
        },
        None => invite_step(v),
    }
}

/// After the template groups: lists the realm roles when the template
/// names any.
pub open spec fn after_groups(v: InviteView) -> (InviteView, Expect<Seq<char>>) {
    if tmpl_roles(v).len() > 0 {
        (
            InviteView { stage: InviteStageView::ListingRoles, ..v },
            Expect::Run(CommandView::ListRealmRoles),
        )
    } else {
        after_template(v)
    }
}

/// Adds the user to template group `i` when a group has its name (an
/// unknown name is recorded as failed and skipped), or moves on to the
/// roles when no group is left.
pub open spec fn group_at(v: InviteView, i: nat) -> (InviteView, Expect<Seq<char>>)
    decreases tmpl_groups(v).len() - i,
{
    if i < tmpl_groups(v).len() {
        let name = tmpl_groups(v)[i as int];
        match group_pos(v.groups, name) {
            Some(k) => (
                InviteView { stage: InviteStageView::AddingGroup(i), ..v },
                Expect::Run(
                    CommandView::AddUserToGroup { user_id: v.user_id, group_id: v.groups[k].id@ },
                ),
            ),
            None => group_at(InviteView { failed_groups: v.failed_groups.push(name), ..v }, i + 1),
        }
    } else {
        after_groups(v)
    }
}

/// After the user is created: applies the template's groups when it names
/// any.
pub open spec fn start_template(v: InviteView) -> (InviteView, Expect<Seq<char>>) {
    if tmpl_groups(v).len() > 0 {
        (
            InviteView { stage: InviteStageView::ListingGroups, ..v },
            Expect::Run(CommandView::ListGroups),
        )
    } else {
        after_groups(v)
    }
}

/// How an invite proceeds from state `v` when resumed with `reply`.
pub open spec fn invite_next(v: InviteView, reply: Reply) -> (InviteView, Expect<Seq<char>>) {
    let done = InviteView { stage: InviteStageView::Done, ..v };
    match v.stage {
        InviteStageView::CheckingExisting => match reply {
            Reply::MaybeUser(Ok(Some(u))) => (done, Expect::Reject(already_exists_message(v.email, u.id@))),
            Reply::MaybeUser(Ok(None)) => (
                InviteView { stage: InviteStageView::LookingUpAuth, ..v },
                Expect::Run(CommandView::FindAuthUser { username: v.local }),
            ),
            Reply::MaybeUser(Err(e)) => (done, Expect::Fail(e)),
            _ => (done, Expect::Unexpected),
        },
        InviteStageView::LookingUpAuth => match reply {
            Reply::AuthUser(r) => (
                InviteView {
                    auth_user: match r {
                        Ok(x) => x,
                        Err(_) => None,
                    },
                    stage: InviteStageView::Creating,
                    ..v
                },
                Expect::Run(CommandView::CreateUser { username: v.local, email: v.email }),
            ),
            _ => (done, Expect::Unexpected),
        },
        InviteStageView::Creating => match reply {
            Reply::Created(Ok(id)) => start_template(
                InviteView {
                    user_id: id@,
                    matrix_user_id: matrix_user_id(v.local, v.homeserver_domain),
                    ..v
                },
            ),
            Reply::Created(Err(e)) => (done, Expect::Fail(e)),
            _ => (done, Expect::Unexpected),
        },
        InviteStageView::ListingGroups => match reply {
            Reply::Groups(r) => group_at(
                InviteView {
                    groups: match r {
                        Ok(gs) => gs@,
                        Err(_) => Seq::empty(),
                    },
                    ..done
                },
                0,
            ),
            _ => (done, Expect::Unexpected),
        },
        InviteStageView::AddingGroup(i) => match reply {
            Reply::Unit(r) => {
                let name = tmpl_groups(v)[i as int];
                let v2 = match r {
                    Ok(_) => InviteView { assigned_groups: v.assigned_groups.push(name), ..done },
                    Err(_) => InviteView { failed_groups: v.failed_groups.push(name), ..done },
                };
                group_at(v2, i + 1)
            },
            _ => (done, Expect::Unexpected),
        },
        InviteStageView::ListingRoles => match reply {
            Reply::Roles(r) => {
                let all = match r {
                    Ok(rs) => rs@,
                    Err(_) => Seq::empty(),
                };
                let m = matched_roles(all, tmpl_roles(v));
                let v2 = InviteView {
                    matched: m,
                    failed_roles: unknown_roles(all, tmpl_roles(v)),
                    ..v
                };
                if m.len() > 0 {
                    (
                        InviteView { stage: InviteStageView::AssigningRoles, ..v2 },
                        Expect::Run(CommandView::AssignRealmRoles { user_id: v.user_id, roles: m }),
                    )
                } else {
                    after_template(v2)
                }
            },
            _ => (done, Expect::Unexpected),
        },
        InviteStageView::AssigningRoles => match reply {
            Reply::Unit(Ok(_)) => after_template(
                InviteView { assigned_roles: role_names(v.matched), ..v },
            ),
            Reply::Unit(Err(_)) => after_template(
                InviteView { failed_roles: v.failed_roles + role_names(v.matched), ..v },
            ),
            _ => (done, Expect::Unexpected),
        },
        InviteStageView::Reactivating(cv) => {
            let (cv2, e) = call_next(cv, reply);
            match e {
                Expect::Run(c) => (
                    InviteView { stage: InviteStageView::Reactivating(cv2), ..v },
                    Expect::Run(c),
                ),
                Expect::Finish(cr) => match (cr.audit, cr.call) {
                    (Err(a), _) => (done, Expect::Fail(a)),
                    (Ok(_), Err(x)) => (done, Expect::Fail(x)),
                    (Ok(_), Ok(_)) => invite_step(v),
                },
                _ => (done, Expect::Unexpected),
            }
        },
        InviteStageView::Inviting(cv) => {
            let (cv2, e) = call_next(cv, reply);
            match e {
                Expect::Run(c) => (
                    InviteView { stage: InviteStageView::Inviting(cv2), ..v },
                    Expect::Run(c),
                ),
                Expect::Finish(cr) => match (cr.audit, cr.call) {
                    (Err(a), _) => (done, Expect::Fail(a)),
                    (Ok(_), Err(x)) => (done, Expect::Fail(x)),
                    (Ok(_), Ok(_)) => (done, Expect::Finish(invite_sent_message(v.email))),
                },
                _ => (done, Expect::Unexpected),
            }
        },
        InviteStageView::Done => (v, Expect::Unexpected),
    }
}

/// Whether a step of an invite is the expected one.
pub open spec fn invite_step_is(s: Step<String>, e: Expect<Seq<char>>) -> bool {
    match (s, e) {
        (Step::Run(c), Expect::Run(cv)) => c.view() == cv,
        (Step::Finished(Ok(m)), Expect::Finish(x)) => m@ == x,
        (Step::Finished(Err(x)), Expect::Fail(y)) => x == y,
        (Step::Finished(Err(x)), Expect::Reject(m)) => is_rejection(x, m),
        (Step::Finished(Err(x)), Expect::Unexpected) => is_protocol_error(x),
        _ => false,
    }
}

/// The state in which an invite of a checked address starts.
pub open spec fn invite_initial(
    email: Seq<char>,
    local: Seq<char>,
    actor_subject: Seq<char>,
    actor_username: Seq<char>,
    homeserver_domain: Seq<char>,
    requested_by: Option<Seq<char>>,
    onboarding: bool,
    template: Option<TemplateView>,
) -> InviteView {
    InviteView {
        email,
        local,
        actor_subject,
        actor_username,
        homeserver_domain,
        requested_by,
        onboarding,
        template,
        auth_user: None,
        user_id: Seq::empty(),
        matrix_user_id: Seq::empty(),
        groups: Seq::empty(),
        matched: Seq::empty(),
        assigned_groups: Seq::empty(),
        failed_groups: Seq::empty(),
        assigned_roles: Seq::empty(),
        failed_roles: Seq::empty(),
        stage: InviteStageView::CheckingExisting,
    }
}

/// Which form of the invite workflow runs.
pub enum InviteMode {
    /// The bot API and admin form: any local part, no template, a short
    /// audit entry.
    Direct,
    /// Onboarding: the local part must be a Matrix localpart, the template's
    /// groups and roles are applied, and the audit entry records them.
    Onboarding(Option<OnboardingTemplate>),
}

/// The stage of an invite.
pub enum InviteStage {
    CheckingExisting,
    LookingUpAuth,
    Creating,
    ListingGroups,
    AddingGroup(usize),
    ListingRoles,
    AssigningRoles,
    Reactivating(AuditedCall),
    Inviting(AuditedCall),
    Done,
}

/// An invite of one email address.
pub struct Inviter {
    email: String,
    local: String,
    actor_subject: String,
    actor_username: String,
    homeserver_domain: String,
    requested_by: Option<String>,
    onboarding: bool,
    template: Option<OnboardingTemplate>,
    auth_user: Option<MasUser>,
    user_id: String,
    matrix_user_id: String,
    groups: Vec<KeycloakGroup>,
    matched: Vec<KeycloakRole>,
    assigned_groups: Vec<String>,
    failed_groups: Vec<String>,
    assigned_roles: Vec<String>,
    failed_roles: Vec<String>,
    stage: InviteStage,
}

impl Inviter {
    pub closed spec fn view(&self) -> InviteView {
        InviteView {
            email: self.email@,
            local: self.local@,
            actor_subject: self.actor_subject@,
            actor_username: self.actor_username@,
            homeserver_domain: self.homeserver_domain@,
            requested_by: opt_view(self.requested_by),
            onboarding: self.onboarding,
            template: template_view(self.template),
            auth_user: self.auth_user,
            user_id: self.user_id@,
            matrix_user_id: self.matrix_user_id@,
            groups: self.groups@,
            matched: role_views(self.matched@),
            assigned_groups: views(self.assigned_groups@),
            failed_groups: views(self.failed_groups@),
            assigned_roles: views(self.assigned_roles@),
            failed_roles: views(self.failed_roles@),
            stage: match self.stage {
                InviteStage::CheckingExisting => InviteStageView::CheckingExisting,
                InviteStage::LookingUpAuth => InviteStageView::LookingUpAuth,
                InviteStage::Creating => InviteStageView::Creating,
                InviteStage::ListingGroups => InviteStageView::ListingGroups,
                InviteStage::AddingGroup(i) => InviteStageView::AddingGroup(i as nat),
                InviteStage::ListingRoles => InviteStageView::ListingRoles,
                InviteStage::AssigningRoles => InviteStageView::AssigningRoles,
                InviteStage::Reactivating(m) => InviteStageView::Reactivating(m.view()),
                InviteStage::Inviting(m) => InviteStageView::Inviting(m.view()),
                InviteStage::Done => InviteStageView::Done,
            },
        }
    }

    /// A group is being added only while one of the template is left.
    pub closed spec fn wf(&self) -> bool {
        self.stage matches InviteStage::AddingGroup(i) ==> i < tmpl_groups(self.view()).len()
    }

    fn audit_base(&self, action: &str, metadata: Vec<(String, MetaValue)>) -> (res: AuditRecord)
        ensures
            res.view() == invite_audit(self.view(), action@, meta_views(metadata@)),
    {
        AuditRecord {
            admin_subject: self.actor_subject.clone(),
            admin_username: self.actor_username.clone(),
            target_keycloak_user_id: Some(self.user_id.clone()),
            target_matrix_user_id: Some(self.matrix_user_id.clone()),
            action: String::from_str(action),
            result: AuditResult::Success,
            metadata,
        }
    }

    fn template_group_count(&self) -> (res: usize)
        ensures
            res == tmpl_groups(self.view()).len(),
    {
        match &self.template {
            Some(t) => t.groups.len(),
            None => 0,
        }
    }

    fn template_group(&self, i: usize) -> (res: String)
        requires
            i < tmpl_groups(self.view()).len(),
        ensures
            res@ == tmpl_groups(self.view())[i as int],
    {
        match &self.template {
            Some(t) => t.groups[i].clone(),
            None => String::new(),
        }
    }

    fn invite_step(&mut self) -> (res: Step<String>)
        ensures
            final(self).wf(),
            final(self).view() == invite_step(old(self).view()).0,
            invite_step_is(res, invite_step(old(self).view()).1),
    {
        let mut meta = vec![
            (String::from_str("email"), MetaValue::Str(self.email.clone())),
            (
                String::from_str("requested_by"),
                MetaValue::OptStr(
                    match &self.requested_by {
                        Some(r) => Some(r.clone()),
                        None => None,
                    },
                ),
            ),
            (String::from_str("keycloak_user_id"), MetaValue::Str(self.user_id.clone())),
        ];
        if self.onboarding {
            let ghost base = meta_views(meta@);
            let name = match &self.template {
                Some(t) => Some(t.name.clone()),
                None => None,
            };
            meta.push((String::from_str("template"), MetaValue::OptStr(name)));
            meta.push(
                (
                    String::from_str("assigned_groups"),
                    MetaValue::StrList(copy_strings(&self.assigned_groups)),
                ),
            );
            meta.push(
                (
                    String::from_str("failed_groups"),
                    MetaValue::StrList(copy_strings(&self.failed_groups)),
                ),
            );
            meta.push(
                (
                    String::from_str("assigned_roles"),
                    MetaValue::StrList(copy_strings(&self.assigned_roles)),
                ),
            );
            meta.push(
                (
                    String::from_str("failed_roles"),
                    MetaValue::StrList(copy_strings(&self.failed_roles)),
                ),
            );
            assert(meta_views(meta@) =~= invite_metadata(self.view()));
        } else {
            assert(meta_views(meta@) =~= invite_metadata(self.view()));
        }
        let rec = self.audit_base("invite_user", meta);
        self.stage = InviteStage::Inviting(AuditedCall::new(rec));
        Step::Run(Command::SendInviteEmail { user_id: self.user_id.clone() })
    }

    fn after_template(&mut self) -> (res: Step<String>)
        ensures
            final(self).wf(),
            final(self).view() == after_template(old(self).view()).0,
            invite_step_is(res, after_template(old(self).view()).1),
    {
        let found = match &self.auth_user {
            Some(u) => if u.deactivated_at.is_some() {
                Some(u.id.clone())
            } else {
                None
            },
            None => None,
        };
        match found {
            Some(auth_id) => {
                let meta = vec![
                    (String::from_str("email"), MetaValue::Str(self.email.clone())),
                    (String::from_str("mas_user_id"), MetaValue::Str(auth_id.clone())),
                    (String::from_str("keycloak_user_id"), MetaValue::Str(self.user_id.clone())),
                ];
                let rec = self.audit_base("reactivate_mas_user", meta);
                self.stage = InviteStage::Reactivating(AuditedCall::new(rec));
                Step::Run(Command::ReactivateAuthUser { auth_user_id: auth_id })
            },
            None => self.invite_step(),
        }
    }

    fn after_groups(&mut self) -> (res: Step<String>)
        ensures
            final(self).wf(),
            final(self).view() == after_groups(old(self).view()).0,
            invite_step_is(res, after_groups(old(self).view()).1),
    {
        let has_roles = match &self.template {
            Some(t) => t.roles.len() > 0,
            None => false,
        };
        if has_roles {
            self.stage = InviteStage::ListingRoles;
            Step::Run(Command::ListRealmRoles)
        } else {
            self.after_template()
        }
    }

    fn group_at(&mut self, start: usize) -> (res: Step<String>)
        requires
            start <= tmpl_groups(old(self).view()).len(),
        ensures
            final(self).wf(),
            final(self).view() == group_at(old(self).view(), start as nat).0,
            invite_step_is(res, group_at(old(self).view(), start as nat).1),
    {
        let n = self.template_group_count();
        let mut i = start;
        loop
            invariant
                n == tmpl_groups(self.view()).len(),
                i <= n,
                group_at(self.view(), i as nat) == group_at(old(self).view(), start as nat),
            decreases n - i,
        {
            if i >= n {
                return self.after_groups();
            }
            let name = self.template_group(i);
            match find_group(&self.groups, name.as_str()) {
                Some(k) => {
                    self.stage = InviteStage::AddingGroup(i);
                    return Step::Run(
                        Command::AddUserToGroup {
                            user_id: self.user_id.clone(),
                            group_id: self.groups[k].id.clone(),
                        },
                    );
                },
                None => {
                    let ghost before = views(self.failed_groups@);
                    self.failed_groups.push(name);
                    assert(views(self.failed_groups@) =~= before.push(name@));
                    i = i + 1;
                },
            }
        }
    }

    /// Starts inviting `raw_email` on behalf of the actor. An address that
    /// fails `check_invite_address` finishes the invite at once with its
    /// validation error; otherwise the first step looks up an existing
    /// Keycloak user with the normalised address.
    pub fn start(
        raw_email: &str,
        allowed_domains: Option<&[String]>,
        actor_subject: &str,
        actor_username: &str,
        homeserver_domain: &str,
        requested_by: Option<&str>,
        mode: InviteMode,
    ) -> (res: (Self, Step<String>))
        ensures
            res.0.wf(),
            ({
                let onboarding = mode is Onboarding;
                let c = address_check(raw_email@, allowed_view(allowed_domains), onboarding);
                let e = normalized_email(raw_email@);
                if c is Valid {
                    &&& res.0.view() == invite_initial(
                        e,
                        email_local(e),
                        actor_subject@,
                        actor_username@,
                        homeserver_domain@,
                        match requested_by {
                            Some(r) => Some(r@),
                            None => None,
                        },
                        onboarding,
                        match mode {
                            InviteMode::Onboarding(t) => template_view(t),
                            InviteMode::Direct => None,
                        },
                    )
                    &&& res.1 matches Step::Run(cmd) && cmd.view() == (CommandView::FindUserByEmail {
                        email: e,
                    })
                } else {
                    &&& res.0.view().stage == InviteStageView::Done
                    &&& res.1 matches Step::Finished(Err(x)) && is_rejection(
                        x,
                        address_error(raw_email@, c),
                    )
                }
            }),
    {
        let (onboarding, template) = match mode {
            InviteMode::Direct => (false, None),
            InviteMode::Onboarding(t) => (true, t),
        };
        let checked = check_invite_address(raw_email, allowed_domains, onboarding);
        let (email, local, stage, step) = match checked {
            Ok(a) => {
                let cmd = Command::FindUserByEmail { email: a.email.clone() };
                (a.email, a.local, InviteStage::CheckingExisting, Step::Run(cmd))
            },
            Err(e) => (String::new(), String::new(), InviteStage::Done, Step::Finished(Err(e))),
        };
        let m = Inviter {
            email,
            local,
            actor_subject: String::from_str(actor_subject),
            actor_username: String::from_str(actor_username),
            homeserver_domain: String::from_str(homeserver_domain),
            requested_by: match requested_by {
                Some(r) => Some(String::from_str(r)),
                None => None,
            },
            onboarding,
            template,
            auth_user: None,
            user_id: String::new(),
            matrix_user_id: String::new(),
            groups: Vec::new(),
            matched: Vec::new(),
            assigned_groups: Vec::new(),
            failed_groups: Vec::new(),
            assigned_roles: Vec::new(),
            failed_roles: Vec::new(),
            stage,
        };
        assert(views(m.assigned_groups@) =~= Seq::<Seq<char>>::empty());
        assert(role_views(m.matched@) =~= Seq::<RoleView>::empty());
        (m, step)
    }

    /// Resumes the invite with the reply to its last command.
    pub fn resume(&mut self, reply: Reply) -> (res: Step<String>)
        requires
            old(self).wf(),
        ensures
            final(self).wf(),
            final(self).view() == invite_next(old(self).view(), reply).0,
            invite_step_is(res, invite_next(old(self).view(), reply).1),
    {
        let ghost old_view = self.view();
        let mut stage = InviteStage::Done;
        core::mem::swap(&mut stage, &mut self.stage);
        match stage {
            InviteStage::CheckingExisting => match reply {
                Reply::MaybeUser(Ok(Some(u))) => {
                    let p = cat3("A user with email ", self.email.as_str(), " already exists (id: ");
                    let p = p.concat(u.id.as_str());
                    let p = p.concat(")");
                    Step::Finished(Err(AppError::Validation(p)))
                },
                Reply::MaybeUser(Ok(None)) => {
                    self.stage = InviteStage::LookingUpAuth;
                    Step::Run(Command::FindAuthUser { username: self.local.clone() })
                },
                Reply::MaybeUser(Err(e)) => Step::Finished(Err(e)),
                _ => Step::Finished(Err(protocol_error())),
            },
            InviteStage::LookingUpAuth => match reply {
                Reply::AuthUser(r) => {
                    self.auth_user = match r {
                        Ok(x) => x,
                        Err(_) => None,
                    };
                    self.stage = InviteStage::Creating;
                    Step::Run(
                        Command::CreateUser { username: self.local.clone(), email: self.email.clone() },
                    )
                },
                _ => Step::Finished(Err(protocol_error())),
            },
            InviteStage::Creating => match reply {
                Reply::Created(Ok(id)) => {
                    self.user_id = id;
                    self.matrix_user_id = format_matrix_user_id(
                        self.local.as_str(),
                        self.homeserver_domain.as_str(),
                    );
                    let n = self.template_group_count();
                    if n > 0 {
                        self.stage = InviteStage::ListingGroups;
                        Step::Run(Command::ListGroups)
                    } else {
                        self.after_groups()
                    }
                },
                Reply::Created(Err(e)) => Step::Finished(Err(e)),
                _ => Step::Finished(Err(protocol_error())),
            },
            InviteStage::ListingGroups => match reply {
                Reply::Groups(r) => {
                    self.groups = match r {
                        Ok(gs) => gs,
                        Err(_) => Vec::new(),
                    };
                    self.group_at(0)
                },
                _ => Step::Finished(Err(protocol_error())),
            },
            InviteStage::AddingGroup(i) => match reply {
                Reply::Unit(r) => {
                    let n = self.template_group_count();
                    let name = self.template_group(i);
                    match r {
                        Ok(_) => {
                            let ghost before = views(self.assigned_groups@);
                            self.assigned_groups.push(name);
                            assert(views(self.assigned_groups@) =~= before.push(name@));
                        },
                        Err(_) => {
                            let ghost before = views(self.failed_groups@);
                            self.failed_groups.push(name);
                            assert(views(self.failed_groups@) =~= before.push(name@));
                        },
                    }
                    self.group_at(i + 1)
                },
                _ => Step::Finished(Err(protocol_error())),
            },
            InviteStage::ListingRoles => match reply {
                Reply::Roles(r) => {
                    let all = match r {
                        Ok(rs) => rs,
                        Err(_) => Vec::new(),
                    };
                    let names = match &self.template {
                        Some(t) => copy_strings(&t.roles),
                        None => Vec::new(),
                    };
                    assert(views(names@) == tmpl_roles(self.view()));
                    let (matched, unknown) = match_roles(&all, &names);
                    self.failed_roles = unknown;
                    if matched.len() > 0 {
                        let copies = copy_roles(&matched);
                        self.matched = matched;
                        self.stage = InviteStage::AssigningRoles;
                        Step::Run(
                            Command::AssignRealmRoles { user_id: self.user_id.clone(), roles: copies },
                        )
                    } else {
                        self.matched = matched;
                        self.after_template()
                    }
                },
                _ => Step::Finished(Err(protocol_error())),
            },
            InviteStage::AssigningRoles => match reply {
                Reply::Unit(Ok(_)) => {
                    let mut names: Vec<String> = Vec::new();
                    push_role_names(&mut names, &self.matched);
                    assert(views(names@) =~= role_names(role_views(self.matched@)));
                    self.assigned_roles = names;
                    self.after_template()
                },
                Reply::Unit(Err(_)) => {
                    let mut failed: Vec<String> = Vec::new();
                    core::mem::swap(&mut failed, &mut self.failed_roles);
                    push_role_names(&mut failed, &self.matched);
                    self.failed_roles = failed;
                    self.after_template()
                },
                _ => Step::Finished(Err(protocol_error())),
            },
            InviteStage::Reactivating(mut m) => {
                let step = m.resume(reply);
                match step {
                    Step::Run(c) => {
                        self.stage = InviteStage::Reactivating(m);
                        Step::Run(c)
                    },
                    Step::Finished(Ok(cr)) => match (cr.audit, cr.call) {
                        (Err(a), _) => Step::Finished(Err(a)),
                        (Ok(_), Err(x)) => Step::Finished(Err(x)),
                        (Ok(_), Ok(_)) => self.invite_step(),
                    },
                    Step::Finished(Err(e)) => Step::Finished(Err(e)),
                }
            },
            InviteStage::Inviting(mut m) => {
                let step = m.resume(reply);
                match step {
                    Step::Run(c) => {
                        self.stage = InviteStage::Inviting(m);
                        Step::Run(c)
                    },
                    Step::Finished(Ok(cr)) => match (cr.audit, cr.call) {
                        (Err(a), _) => Step::Finished(Err(a)),
                        (Ok(_), Err(x)) => Step::Finished(Err(x)),
                        (Ok(_), Ok(_)) => {
                            let p = cat("Invite sent to ", self.email.as_str());
                            Step::Finished(
                                Ok(
                                    p.concat(
                                        " — they will receive an email to set their password and can then log into Matrix.",
                                    ),
                                ),
                            )
                        },
                    },
                    Step::Finished(Err(e)) => Step::Finished(Err(e)),
                }
            },
            InviteStage::Done => Step::Finished(Err(protocol_error())),
        }
    }
}


proof fn lemma_group_at_never_creates(v: InviteView, i: nat)
    ensures
        !(group_at(v, i).1 matches Expect::Run(CommandView::CreateUser { .. })),
        !(group_at(v, i).0.stage is LookingUpAuth),
    decreases tmpl_groups(v).len() - i,
{
    if i < tmpl_groups(v).len() {
        let name = tmpl_groups(v)[i as int];
        if group_pos(v.groups, name) is None {
            lemma_group_at_never_creates(
                InviteView { failed_groups: v.failed_groups.push(name), ..v },
                i + 1,
            );
        }
    }
}

/// No account is created for an address that already has one: the user is
/// created only from the stage that follows a lookup by email that found no
/// user, with the invited local part and the normalised address.
pub proof fn law_invite_creates_only_new_users(v: InviteView, reply: Reply)
    ensures
        invite_next(v, reply).1 matches Expect::Run(CommandView::CreateUser { username, email }) ==> {
            &&& v.stage is LookingUpAuth
            &&& username == v.local
            &&& email == v.email
        },
        invite_next(v, reply).0.stage is LookingUpAuth ==> v.stage is CheckingExisting && reply
            matches Reply::MaybeUser(Ok(None)),
{
    let done = InviteView { stage: InviteStageView::Done, ..v };
    match v.stage {
        InviteStageView::ListingGroups => {
            if let Reply::Groups(r) = reply {
                lemma_group_at_never_creates(
                    InviteView {
                        groups: match r {
                            Ok(gs) => gs@,
                            Err(_) => Seq::empty(),
                        },
                        ..done
                    },
                    0,
                );
            }
        },
        InviteStageView::AddingGroup(i) => {
            if let Reply::Unit(r) = reply {
                let name = tmpl_groups(v)[i as int];
                let v2 = match r {
                    Ok(_) => InviteView { assigned_groups: v.assigned_groups.push(name), ..done },
                    Err(_) => InviteView { failed_groups: v.failed_groups.push(name), ..done },
                };
                lemma_group_at_never_creates(v2, i + 1);
            }
        },
        _ => {},
    }
}

} // verus!
