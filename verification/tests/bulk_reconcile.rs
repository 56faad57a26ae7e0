use matrix_identity_admin::error::AppError;
use matrix_identity_admin::models::keycloak::{KeycloakGroup, KeycloakUser};
use matrix_identity_admin::models::policy_binding::{PolicyBinding, PolicySubject, PolicyTarget};
use matrix_identity_admin::services::bulk_reconcile::{BulkReconciler, BulkSummary};
use matrix_identity_admin::services::protocol::{Command, Reply, Step};

fn user(id: &str, name: &str, enabled: bool) -> KeycloakUser {
    KeycloakUser {
        id: id.to_string(),
        username: name.to_string(),
        email: None,
        first_name: None,
        last_name: None,
        enabled,
        email_verified: true,
        created_timestamp: None,
        required_actions: vec![],
    }
}

fn run(step: Step<BulkSummary>) -> Command {
    match step {
        Step::Run(c) => c,
        Step::Finished(r) => panic!("expected a command, got {:?}", r.err()),
    }
}

fn finished(step: Step<BulkSummary>) -> BulkSummary {
    match step {
        Step::Finished(Ok(s)) => s,
        Step::Finished(Err(e)) => panic!("unexpected error {e:?}"),
        Step::Run(c) => panic!("unexpected command {c:?}"),
    }
}

fn binding() -> PolicyBinding {
    PolicyBinding {
        id: "b1".to_string(),
        subject: PolicySubject::Group("staff".to_string()),
        target: PolicyTarget::Room("!r:test".to_string()),
        power_level: None,
        allow_remove: false,
        created_at: String::new(),
        updated_at: String::new(),
    }
}

#[test]
fn without_synapse_bulk_reconcile_is_not_found() {
    let (_, step) = BulkReconciler::start("sub", "admin", "test", false);
    match step {
        Step::Finished(Err(AppError::NotFound(m))) => {
            assert_eq!(m, "Synapse is not configured — reconciliation is unavailable")
        }
        _ => panic!("expected not found"),
    }
}

#[test]
fn too_many_users_are_refused() {
    let (mut m, step) = BulkReconciler::start("sub", "admin", "test", true);
    assert!(matches!(run(step), Command::CountUsers { query } if query.is_empty()));
    match m.resume(Reply::Count(Ok(1001))) {
        Step::Finished(Err(AppError::Validation(msg))) => {
            assert_eq!(msg, "Bulk reconcile is limited to 1000 users per request.")
        }
        _ => panic!("expected a validation error"),
    }
}

#[test]
fn users_are_counted_once_each() {
    let (mut m, _) = BulkReconciler::start("sub", "admin", "test", true);
    assert!(matches!(run(m.resume(Reply::Count(Ok(3)))), Command::ListBindings));
    let c = run(m.resume(Reply::Bindings(Ok(vec![]))));
    assert!(matches!(c, Command::SearchUsers { max: 100, first: 0, .. }));
    let c = run(m.resume(Reply::Users(Ok(vec![
        user("u1", "alice", true),
        user("u2", "bob", false),
        user("u3", "carol", true),
    ]))));
    assert!(matches!(c, Command::GetUserGroups { user_id } if user_id == "u1"));
    let c = run(m.resume(Reply::Groups(Err(AppError::Internal("x".into())))));
    assert!(matches!(c, Command::GetUserGroups { user_id } if user_id == "u3"));
    let c = run(m.resume(Reply::Groups(Ok(vec![]))));
    assert!(matches!(c, Command::GetUserRoles { user_id } if user_id == "u3"));
    let s = finished(m.resume(Reply::Roles(Err(AppError::Internal("y".into())))));
    assert_eq!(s.users_processed, 1);
    assert_eq!(s.users_skipped, 2);
    assert_eq!(
        s.warnings,
        vec![
            "alice: could not fetch groups — Internal error: x".to_string(),
            "carol: could not fetch roles — Internal error: y".to_string(),
        ]
    );
}

#[test]
fn a_matching_user_is_reconciled() {
    let (mut m, _) = BulkReconciler::start("sub", "admin", "test", true);
    run(m.resume(Reply::Count(Ok(1))));
    run(m.resume(Reply::Bindings(Ok(vec![binding()]))));
    run(m.resume(Reply::Users(Ok(vec![user("u1", "alice", true)]))));
    run(m.resume(Reply::Groups(Ok(vec![KeycloakGroup {
        id: "g".to_string(),
        name: "staff".to_string(),
        path: "/staff".to_string(),
    }]))));
    let c = run(m.resume(Reply::Roles(Ok(vec![]))));
    assert!(matches!(c, Command::GetSpaceChildren { room_id } if room_id == "!r:test"));
    let c = run(m.resume(Reply::RoomIds(Ok(vec![]))));
    assert!(matches!(c, Command::GetRoomMembers { room_id } if room_id == "!r:test"));
    let c = run(m.resume(Reply::RoomIds(Ok(vec![]))));
    assert!(matches!(c, Command::ForceJoin { user_id, room_id } if user_id == "@alice:test" && room_id == "!r:test"));
    let c = run(m.resume(Reply::Unit(Ok(()))));
    assert!(matches!(c, Command::WriteAudit(r) if r.action == "join_room_on_reconcile"));
    let s = finished(m.resume(Reply::Unit(Ok(()))));
    assert_eq!(s.users_processed, 1);
    assert_eq!(s.users_skipped, 0);
    assert!(s.warnings.is_empty());
}

#[test]
fn full_pages_are_followed() {
    let (mut m, _) = BulkReconciler::start("sub", "admin", "test", true);
    run(m.resume(Reply::Count(Ok(150))));
    run(m.resume(Reply::Bindings(Ok(vec![]))));
    let page: Vec<KeycloakUser> = (0..100).map(|i| user(&format!("u{i}"), "x", false)).collect();
    let c = run(m.resume(Reply::Users(Ok(page))));
    assert!(matches!(c, Command::SearchUsers { max: 100, first: 100, .. }));
    let s = finished(m.resume(Reply::Users(Ok(vec![]))));
    assert_eq!(s.users_skipped, 100);
    assert_eq!(s.users_processed, 0);
}
