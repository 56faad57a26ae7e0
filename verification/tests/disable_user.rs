use matrix_identity_admin::error::AppError;
use matrix_identity_admin::models::audit::AuditResult;
use matrix_identity_admin::models::keycloak::KeycloakUser;
use matrix_identity_admin::models::mas::{MasSession, MasUser};
use matrix_identity_admin::models::workflow::WorkflowOutcome;
use matrix_identity_admin::services::audit_service::MetaValue;
use matrix_identity_admin::services::disable_user::Disabler;
use matrix_identity_admin::services::protocol::{Command, Reply, Step};

fn kc_user(id: &str, username: &str) -> KeycloakUser {
    KeycloakUser {
        id: id.to_string(),
        username: username.to_string(),
        email: Some(format!("{username}@example.com")),
        first_name: None,
        last_name: None,
        enabled: true,
        email_verified: true,
        created_timestamp: None,
        required_actions: vec![],
    }
}

fn session(id: &str, finished: bool) -> MasSession {
    MasSession {
        id: id.to_string(),
        session_type: "compat".to_string(),
        created_at: None,
        last_active_at: None,
        user_agent: None,
        ip_address: None,
        finished_at: if finished {
            Some("2026-01-01T00:00:00Z".to_string())
        } else {
            None
        },
    }
}

fn mas_user() -> MasUser {
    MasUser {
        id: "mas-001".to_string(),
        username: "alice".to_string(),
        deactivated_at: None,
    }
}

fn upstream() -> AppError {
    AppError::Upstream {
        service: "mas".to_string(),
        message: "HTTP 500".to_string(),
    }
}

fn expect_run(step: Step<WorkflowOutcome>) -> Command {
    match step {
        Step::Run(c) => c,
        Step::Finished(r) => panic!("expected a command, got {r:?}"),
    }
}

#[test]
fn disable_revokes_active_sessions_then_disables() {
    let (mut m, step) = Disabler::start("kc-1", "sub", "admin", "example.com");
    assert!(matches!(expect_run(step), Command::GetUser { user_id } if user_id == "kc-1"));
    let c = expect_run(m.resume(Reply::User(Ok(kc_user("kc-1", "alice")))));
    assert!(matches!(c, Command::FindAuthUser { username } if username == "alice"));
    let c = expect_run(m.resume(Reply::AuthUser(Ok(Some(mas_user())))));
    assert!(matches!(c, Command::ListAuthSessions { auth_user_id } if auth_user_id == "mas-001"));
    let c = expect_run(m.resume(Reply::Sessions(Ok(vec![
        session("s1", false),
        session("s2", true),
        session("s3", false),
    ]))));
    assert!(matches!(c, Command::FinishAuthSession { session_id, .. } if session_id == "s1"));
    let c = expect_run(m.resume(Reply::Unit(Err(upstream()))));
    match c {
        Command::WriteAudit(rec) => {
            assert_eq!(rec.action, "revoke_mas_session_on_disable");
            assert_eq!(rec.result, AuditResult::Failure);
            assert_eq!(rec.target_matrix_user_id.as_deref(), Some("@alice:example.com"));
        }
        other => panic!("unexpected {other:?}"),
    }
    let c = expect_run(m.resume(Reply::Unit(Ok(()))));
    assert!(matches!(c, Command::FinishAuthSession { session_id, .. } if session_id == "s3"));
    let c = expect_run(m.resume(Reply::Unit(Ok(()))));
    assert!(matches!(c, Command::WriteAudit(rec) if rec.result == AuditResult::Success));
    let c = expect_run(m.resume(Reply::Unit(Ok(()))));
    assert!(matches!(c, Command::DisableUser { user_id } if user_id == "kc-1"));
    let c = expect_run(m.resume(Reply::Unit(Ok(()))));
    match c {
        Command::WriteAudit(rec) => {
            assert_eq!(rec.action, "disable_keycloak_account");
            assert!(matches!(rec.metadata[2], (ref k, MetaValue::Bool(true)) if k == "mas_sessions_found"));
        }
        other => panic!("unexpected {other:?}"),
    }
    match m.resume(Reply::Unit(Ok(()))) {
        Step::Finished(Ok(o)) => {
            assert_eq!(
                o.warnings,
                vec!["Session s1 (compat) could not be revoked: Upstream API error from mas: HTTP 500"
                    .to_string()]
            );
        }
        other => panic!("unexpected {other:?}"),
    }
}

#[test]
fn disable_without_mas_account_skips_revocation_silently() {
    let (mut m, _) = Disabler::start("kc-1", "sub", "admin", "example.com");
    m.resume(Reply::User(Ok(kc_user("kc-1", "alice"))));
    let c = expect_run(m.resume(Reply::AuthUser(Err(upstream()))));
    assert!(matches!(c, Command::DisableUser { .. }));
    let c = expect_run(m.resume(Reply::Unit(Ok(()))));
    assert!(matches!(c, Command::WriteAudit(rec)
        if matches!(rec.metadata[2], (_, MetaValue::Bool(false)))));
    match m.resume(Reply::Unit(Ok(()))) {
        Step::Finished(Ok(o)) => assert!(!o.has_warnings()),
        other => panic!("unexpected {other:?}"),
    }
}

#[test]
fn disable_failure_is_returned_after_audit() {
    let (mut m, _) = Disabler::start("kc-1", "sub", "admin", "example.com");
    m.resume(Reply::User(Ok(kc_user("kc-1", "alice"))));
    m.resume(Reply::AuthUser(Ok(None)));
    let c = expect_run(m.resume(Reply::Unit(Err(AppError::NotFound("gone".into())))));
    assert!(matches!(c, Command::WriteAudit(rec) if rec.result == AuditResult::Failure));
    match m.resume(Reply::Unit(Ok(()))) {
        Step::Finished(Err(AppError::NotFound(m))) => assert_eq!(m, "gone"),
        other => panic!("unexpected {other:?}"),
    }
}

#[test]
fn disable_audit_failure_is_fatal() {
    let (mut m, _) = Disabler::start("kc-1", "sub", "admin", "example.com");
    m.resume(Reply::User(Ok(kc_user("kc-1", "alice"))));
    m.resume(Reply::AuthUser(Ok(None)));
    m.resume(Reply::Unit(Ok(())));
    match m.resume(Reply::Unit(Err(AppError::Database("locked".into())))) {
        Step::Finished(Err(AppError::Database(m))) => assert_eq!(m, "locked"),
        other => panic!("unexpected {other:?}"),
    }
}

#[test]
fn disable_unknown_user_fails() {
    let (mut m, _) = Disabler::start("kc-404", "sub", "admin", "example.com");
    match m.resume(Reply::User(Err(AppError::NotFound("no user".into())))) {
        Step::Finished(Err(AppError::NotFound(_))) => {}
        other => panic!("unexpected {other:?}"),
    }
}

#[test]
fn disable_rejects_unexpected_reply() {
    let (mut m, _) = Disabler::start("kc-1", "sub", "admin", "example.com");
    match m.resume(Reply::Unit(Ok(()))) {
        Step::Finished(Err(AppError::Internal(msg))) => assert_eq!(msg, "unexpected reply"),
        other => panic!("unexpected {other:?}"),
    }
}
