use matrix_identity_admin::error::AppError;
use matrix_identity_admin::models::keycloak::{KeycloakGroup, KeycloakRole, KeycloakUser};
use matrix_identity_admin::models::mas::MasUser;
use matrix_identity_admin::models::onboarding_template::OnboardingTemplate;
use matrix_identity_admin::services::audit_service::MetaValue;
use matrix_identity_admin::services::invite_user::{check_invite_address, InviteMode, Inviter};
use matrix_identity_admin::services::protocol::{Command, Reply, Step};

fn run(step: Step<String>) -> Command {
    match step {
        Step::Run(c) => c,
        Step::Finished(r) => panic!("expected a command, got {r:?}"),
    }
}

fn rejection(step: Step<String>) -> String {
    match step {
        Step::Finished(Err(AppError::Validation(m))) => m,
        Step::Finished(r) => panic!("expected a rejection, got {r:?}"),
        Step::Run(c) => panic!("expected a rejection, got {c:?}"),
    }
}

fn existing_user() -> KeycloakUser {
    KeycloakUser {
        id: "existing-id".to_string(),
        username: "existing".to_string(),
        email: Some("user@test.com".to_string()),
        first_name: None,
        last_name: None,
        enabled: true,
        email_verified: true,
        created_timestamp: None,
        required_actions: vec![],
    }
}

fn deactivated_mas_user() -> MasUser {
    MasUser {
        id: "mas-001".to_string(),
        username: "user".to_string(),
        deactivated_at: Some("2026-01-01T00:00:00Z".to_string()),
    }
}

fn start(email: &str, allowed: Option<&[String]>, mode: InviteMode) -> (Inviter, Step<String>) {
    Inviter::start(email, allowed, "sub", "admin", "test.com", Some("@bot:test.com"), mode)
}

#[test]
fn address_is_trimmed_and_lowercased() {
    let a = check_invite_address("  User@Test.COM ", None, false).unwrap();
    assert_eq!(a.email, "user@test.com");
    assert_eq!(a.local, "user");
    assert_eq!(a.domain, "test.com");
}

#[test]
fn invalid_addresses_are_rejected() {
    for raw in ["nope", "@test.com", "user@", "user@localhost", ""] {
        match check_invite_address(raw, None, false) {
            Err(AppError::Validation(m)) => assert_eq!(m, "Invalid email address"),
            other => panic!("{raw}: unexpected {:?}", other.err()),
        }
    }
}

#[test]
fn domain_outside_allowlist_is_rejected() {
    let allowed = vec!["example.org".to_string()];
    match check_invite_address("a@test.com", Some(&allowed), false) {
        Err(AppError::Validation(m)) => assert_eq!(m, "Email domain 'test.com' is not permitted"),
        other => panic!("unexpected {:?}", other.err()),
    }
    assert!(check_invite_address("a@example.org", Some(&allowed), false).is_ok());
}

#[test]
fn onboarding_requires_matrix_localpart() {
    match check_invite_address("a+b@test.com", None, true) {
        Err(AppError::Validation(m)) => {
            assert!(m.contains("Matrix username"));
            assert_eq!(m, "Email local-part 'a+b' cannot be used as a Matrix username (only lowercase letters, digits, and ._=-/ are allowed)");
        }
        other => panic!("unexpected {:?}", other.err()),
    }
    assert!(check_invite_address("a+b@test.com", None, false).is_ok());
}

#[test]
fn existing_user_is_rejected() {
    let (mut m, step) = start("user@test.com", None, InviteMode::Direct);
    assert!(matches!(run(step), Command::FindUserByEmail { email } if email == "user@test.com"));
    let msg = rejection(m.resume(Reply::MaybeUser(Ok(Some(existing_user())))));
    assert_eq!(msg, "A user with email user@test.com already exists (id: existing-id)");
}

#[test]
fn direct_invite_reactivates_deactivated_mas_account() {
    let (mut m, _) = start("User@Test.com", None, InviteMode::Direct);
    let c = run(m.resume(Reply::MaybeUser(Ok(None))));
    assert!(matches!(c, Command::FindAuthUser { username } if username == "user"));
    let c = run(m.resume(Reply::AuthUser(Ok(Some(deactivated_mas_user())))));
    assert!(matches!(c, Command::CreateUser { username, email } if username == "user" && email == "user@test.com"));
    let c = run(m.resume(Reply::Created(Ok("new-kc-id".to_string()))));
    assert!(matches!(c, Command::ReactivateAuthUser { auth_user_id } if auth_user_id == "mas-001"));
    let c = run(m.resume(Reply::Unit(Ok(()))));
    match c {
        Command::WriteAudit(r) => {
            assert_eq!(r.action, "reactivate_mas_user");
            assert_eq!(r.target_keycloak_user_id.as_deref(), Some("new-kc-id"));
            assert_eq!(r.target_matrix_user_id.as_deref(), Some("@user:test.com"));
        }
        other => panic!("unexpected {other:?}"),
    }
    let c = run(m.resume(Reply::Unit(Ok(()))));
    assert!(matches!(c, Command::SendInviteEmail { user_id } if user_id == "new-kc-id"));
    let c = run(m.resume(Reply::Unit(Ok(()))));
    match c {
        Command::WriteAudit(r) => {
            assert_eq!(r.action, "invite_user");
            assert_eq!(r.metadata.len(), 3);
            assert!(matches!(&r.metadata[1].1, MetaValue::OptStr(Some(s)) if s == "@bot:test.com"));
        }
        other => panic!("unexpected {other:?}"),
    }
    match m.resume(Reply::Unit(Ok(()))) {
        Step::Finished(Ok(msg)) => assert_eq!(
            msg,
            "Invite sent to user@test.com — they will receive an email to set their password and can then log into Matrix."
        ),
        other => panic!("unexpected {other:?}"),
    }
}

#[test]
fn failed_invite_email_is_reported_after_audit() {
    let (mut m, _) = start("a@test.com", None, InviteMode::Direct);
    run(m.resume(Reply::MaybeUser(Ok(None))));
    run(m.resume(Reply::AuthUser(Err(AppError::Internal("mas down".into())))));
    let c = run(m.resume(Reply::Created(Ok("id-1".to_string()))));
    assert!(matches!(c, Command::SendInviteEmail { .. }));
    run(m.resume(Reply::Unit(Err(AppError::NotFound("smtp".into())))));
    assert!(matches!(
        m.resume(Reply::Unit(Ok(()))),
        Step::Finished(Err(AppError::NotFound(_)))
    ));
}

#[test]
fn onboarding_applies_template_groups_and_roles() {
    let tmpl = OnboardingTemplate {
        name: "staff".to_string(),
        description: String::new(),
        groups: vec!["team".to_string(), "missing".to_string()],
        roles: vec!["viewer".to_string(), "ghost".to_string()],
    };
    let (mut m, _) = start("new@test.com", None, InviteMode::Onboarding(Some(tmpl)));
    run(m.resume(Reply::MaybeUser(Ok(None))));
    run(m.resume(Reply::AuthUser(Ok(None))));
    let c = run(m.resume(Reply::Created(Ok("kc-9".to_string()))));
    assert!(matches!(c, Command::ListGroups));
    let c = run(m.resume(Reply::Groups(Ok(vec![KeycloakGroup {
        id: "g-1".to_string(),
        name: "team".to_string(),
        path: "/team".to_string(),
    }]))));
    assert!(matches!(c, Command::AddUserToGroup { user_id, group_id } if user_id == "kc-9" && group_id == "g-1"));
    let c = run(m.resume(Reply::Unit(Ok(()))));
    assert!(matches!(c, Command::ListRealmRoles));
    let c = run(m.resume(Reply::Roles(Ok(vec![KeycloakRole {
        id: "r-1".to_string(),
        name: "viewer".to_string(),
        composite: false,
        client_role: false,
        container_id: None,
    }]))));
    match c {
        Command::AssignRealmRoles { user_id, roles } => {
            assert_eq!(user_id, "kc-9");
            assert_eq!(roles.len(), 1);
            assert_eq!(roles[0].name, "viewer");
        }
        other => panic!("unexpected {other:?}"),
    }
    let c = run(m.resume(Reply::Unit(Ok(()))));
    assert!(matches!(c, Command::SendInviteEmail { .. }));
    let c = run(m.resume(Reply::Unit(Ok(()))));
    match c {
        Command::WriteAudit(r) => {
            assert_eq!(r.metadata.len(), 8);
            assert!(matches!(&r.metadata[3].1, MetaValue::OptStr(Some(s)) if s == "staff"));
            assert!(matches!(&r.metadata[4].1, MetaValue::StrList(v) if v == &vec!["team".to_string()]));
            assert!(matches!(&r.metadata[5].1, MetaValue::StrList(v) if v == &vec!["missing".to_string()]));
            assert!(matches!(&r.metadata[6].1, MetaValue::StrList(v) if v == &vec!["viewer".to_string()]));
            assert!(matches!(&r.metadata[7].1, MetaValue::StrList(v) if v == &vec!["ghost".to_string()]));
        }
        other => panic!("unexpected {other:?}"),
    }
}

#[test]
fn invalid_start_finishes_at_once() {
    let (mut m, step) = start("not-an-email", None, InviteMode::Direct);
    assert_eq!(rejection(step), "Invalid email address");
    match m.resume(Reply::MaybeUser(Ok(None))) {
        Step::Finished(Err(AppError::Internal(msg))) => assert_eq!(msg, "unexpected reply"),
        other => panic!("unexpected {other:?}"),
    }
}
