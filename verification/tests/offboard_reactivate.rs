use matrix_identity_admin::error::AppError;
use matrix_identity_admin::models::keycloak::KeycloakUser;
use matrix_identity_admin::models::mas::MasUser;
use matrix_identity_admin::services::offboard_user::Offboarder;
use matrix_identity_admin::services::protocol::{Command, Reply, Step};
use matrix_identity_admin::services::reactivate_user::Reactivator;

fn kc_user(id: &str, username: &str) -> KeycloakUser {
    KeycloakUser {
        id: id.to_string(),
        username: username.to_string(),
        email: None,
        first_name: None,
        last_name: None,
        enabled: true,
        email_verified: true,
        created_timestamp: None,
        required_actions: vec![],
    }
}

fn run<T>(step: Step<T>) -> Command {
    match step {
        Step::Run(c) => c,
        Step::Finished(_) => panic!("expected a command"),
    }
}

#[test]
fn offboard_disables_then_deactivates() {
    let (mut m, step) = Offboarder::start("kc-1", vec![], false, "sub", "admin", "test");
    assert!(matches!(run(step), Command::GetUser { .. }));
    let c = run(m.resume(Reply::User(Ok(kc_user("kc-1", "alice")))));
    assert!(matches!(c, Command::FindAuthUser { .. }));
    let c = run(m.resume(Reply::AuthUser(Ok(None))));
    assert!(matches!(c, Command::LogoutUser { user_id } if user_id == "kc-1"));
    run(m.resume(Reply::Unit(Ok(()))));
    let c = run(m.resume(Reply::Unit(Ok(()))));
    assert!(matches!(c, Command::DisableUser { .. }));
    run(m.resume(Reply::Unit(Ok(()))));
    let c = run(m.resume(Reply::Unit(Ok(()))));
    assert!(matches!(c, Command::FindAuthUser { username } if username == "alice"));
    let c = run(m.resume(Reply::AuthUser(Ok(Some(MasUser {
        id: "mas-1".to_string(),
        username: "alice".to_string(),
        deactivated_at: None,
    })))));
    assert!(matches!(c, Command::DeactivateAuthUser { auth_user_id } if auth_user_id == "mas-1"));
    run(m.resume(Reply::Unit(Ok(()))));
    match m.resume(Reply::Unit(Ok(()))) {
        Step::Finished(Ok(o)) => assert!(!o.has_warnings()),
        _ => panic!("expected success"),
    }
}

#[test]
fn offboard_disable_failure_is_fatal() {
    let (mut m, _) = Offboarder::start("kc-1", vec![], false, "sub", "admin", "test");
    run(m.resume(Reply::User(Ok(kc_user("kc-1", "alice")))));
    run(m.resume(Reply::AuthUser(Ok(None))));
    run(m.resume(Reply::Unit(Err(AppError::Internal("logout".into())))));
    run(m.resume(Reply::Unit(Ok(()))));
    run(m.resume(Reply::Unit(Err(AppError::NotFound("gone".into())))));
    assert!(matches!(
        m.resume(Reply::Unit(Ok(()))),
        Step::Finished(Err(AppError::NotFound(_)))
    ));
}

#[test]
fn reactivate_enables_and_reactivates_mas() {
    let (mut m, step) = Reactivator::start("kc-1", "sub", "admin", "test");
    assert!(matches!(run(step), Command::GetUser { .. }));
    let c = run(m.resume(Reply::User(Ok(kc_user("kc-1", "alice")))));
    assert!(matches!(c, Command::EnableUser { user_id } if user_id == "kc-1"));
    let c = run(m.resume(Reply::Unit(Ok(()))));
    assert!(matches!(c, Command::WriteAudit(r) if r.action == "enable_identity_account_on_reactivate"));
    let c = run(m.resume(Reply::Unit(Ok(()))));
    assert!(matches!(c, Command::FindAuthUser { .. }));
    let c = run(m.resume(Reply::AuthUser(Ok(Some(MasUser {
        id: "mas-1".to_string(),
        username: "alice".to_string(),
        deactivated_at: Some("2026-01-01T00:00:00Z".to_string()),
    })))));
    assert!(matches!(c, Command::ReactivateAuthUser { .. }));
    run(m.resume(Reply::Unit(Err(AppError::Internal("mas".into())))));
    match m.resume(Reply::Unit(Ok(()))) {
        Step::Finished(Ok(o)) => assert_eq!(
            o.warnings,
            vec!["Auth account reactivate failed: Internal error: mas"]
        ),
        _ => panic!("expected a warning"),
    }
}

#[test]
fn reactivate_enable_failure_is_fatal() {
    let (mut m, _) = Reactivator::start("kc-1", "sub", "admin", "test");
    run(m.resume(Reply::User(Ok(kc_user("kc-1", "alice")))));
    let c = run(m.resume(Reply::Unit(Err(AppError::NotFound("gone".into())))));
    assert!(matches!(c, Command::WriteAudit(r) if r.action == "enable_identity_account_on_reactivate"));
    assert!(matches!(
        m.resume(Reply::Unit(Ok(()))),
        Step::Finished(Err(AppError::NotFound(_)))
    ));
}
