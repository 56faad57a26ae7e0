use matrix_identity_admin::error::AppError;
use matrix_identity_admin::models::keycloak::KeycloakUser;
use matrix_identity_admin::models::mas::MasUser;
use matrix_identity_admin::services::delete_user::{DeleteUserResult, Deleter};
use matrix_identity_admin::services::protocol::{Command, Reply, Step};

fn kc_user(id: &str, username: &str) -> KeycloakUser {
    KeycloakUser {
        id: id.to_string(),
        username: username.to_string(),
        email: None,
        first_name: None,
        last_name: None,
        enabled: true,
        email_verified: true,
        created_timestamp: None,
        required_actions: vec![],
    }
}

fn mas_user() -> MasUser {
    MasUser {
        id: "mas-001".to_string(),
        username: "alice".to_string(),
        deactivated_at: None,
    }
}

fn run(step: Step<DeleteUserResult>) -> Command {
    match step {
        Step::Run(c) => c,
        Step::Finished(r) => panic!("expected a command, got {:?}", r.err()),
    }
}

fn start_found() -> Deleter {
    let (mut m, _) = Deleter::start("kc-1", "sub", "admin", "example.com");
    run(m.resume(Reply::User(Ok(kc_user("kc-1", "alice")))));
    m
}

#[test]
fn delete_deactivates_mas_then_deletes_keycloak() {
    let mut m = start_found();
    let c = run(m.resume(Reply::AuthUser(Ok(Some(mas_user())))));
    assert!(matches!(c, Command::DeactivateAuthUser { auth_user_id } if auth_user_id == "mas-001"));
    let c = run(m.resume(Reply::Unit(Ok(()))));
    assert!(matches!(c, Command::WriteAudit(r) if r.action == "deactivate_mas_user"));
    let c = run(m.resume(Reply::Unit(Ok(()))));
    assert!(matches!(c, Command::DeleteUser { user_id } if user_id == "kc-1"));
    let c = run(m.resume(Reply::Unit(Ok(()))));
    assert!(matches!(c, Command::WriteAudit(r) if r.action == "delete_keycloak_user"));
    match m.resume(Reply::Unit(Ok(()))) {
        Step::Finished(Ok(DeleteUserResult::Deleted(o))) => assert!(!o.has_warnings()),
        _ => panic!("expected a clean delete"),
    }
}

#[test]
fn mas_failure_keeps_keycloak_user() {
    let mut m = start_found();
    run(m.resume(Reply::AuthUser(Ok(Some(mas_user())))));
    run(m.resume(Reply::Unit(Err(AppError::Upstream {
        service: "mas".into(),
        message: "HTTP 500".into(),
    }))));
    match m.resume(Reply::Unit(Ok(()))) {
        Step::Finished(Err(AppError::Upstream { service, .. })) => assert_eq!(service, "mas"),
        _ => panic!("expected the MAS error"),
    }
}

#[test]
fn keycloak_failure_after_deactivation_is_partial() {
    let mut m = start_found();
    run(m.resume(Reply::AuthUser(Ok(Some(mas_user())))));
    run(m.resume(Reply::Unit(Ok(()))));
    run(m.resume(Reply::Unit(Ok(()))));
    run(m.resume(Reply::Unit(Err(AppError::NotFound("gone".into())))));
    match m.resume(Reply::Unit(Ok(()))) {
        Step::Finished(Ok(r)) => {
            assert!(matches!(r, DeleteUserResult::PartialFailure(_)));
            assert_eq!(
                r.outcome().warnings,
                vec!["MAS was deactivated, but deleting the Keycloak user failed. Retry delete or reactivate the user before reinviting them."]
            );
        }
        _ => panic!("expected a partial failure"),
    }
}

#[test]
fn keycloak_failure_without_mas_account_is_fatal() {
    let mut m = start_found();
    run(m.resume(Reply::AuthUser(Ok(None))));
    run(m.resume(Reply::Unit(Err(AppError::NotFound("gone".into())))));
    assert!(matches!(
        m.resume(Reply::Unit(Ok(()))),
        Step::Finished(Err(AppError::NotFound(_)))
    ));
}

#[test]
fn mas_lookup_failure_warns_and_deletes() {
    let mut m = start_found();
    let c = run(m.resume(Reply::AuthUser(Err(AppError::Internal("down".into())))));
    assert!(matches!(c, Command::DeleteUser { .. }));
    run(m.resume(Reply::Unit(Ok(()))));
    match m.resume(Reply::Unit(Ok(()))) {
        Step::Finished(Ok(r)) => {
            assert!(matches!(r, DeleteUserResult::Deleted(_)));
            assert_eq!(
                r.outcome().warnings,
                vec!["Deleted the Keycloak user, but MAS lookup failed before cleanup. Check MAS for a leftover account."]
            );
        }
        _ => panic!("expected a delete with a warning"),
    }
}
