use matrix_identity_admin::error::AppError;
use matrix_identity_admin::models::audit::AuditResult;
use matrix_identity_admin::models::policy_binding::{PolicyBinding, PolicySubject, PolicyTarget};
use matrix_identity_admin::models::workflow::WorkflowOutcome;
use matrix_identity_admin::services::protocol::{Command, Reply, Step};
use matrix_identity_admin::services::reconcile_membership::{
    user_matches_binding, MembershipPreview, MembershipReconciler, ReconcilePreview,
};

fn binding(subject: PolicySubject, room: &str, allow_remove: bool, power: Option<i64>) -> PolicyBinding {
    PolicyBinding {
        id: "b".to_string(),
        subject,
        target: PolicyTarget::Room(room.to_string()),
        power_level: power,
        allow_remove,
        created_at: String::new(),
        updated_at: String::new(),
    }
}

fn run<T>(step: Step<T>) -> Command {
    match step {
        Step::Run(c) => c,
        Step::Finished(_) => panic!("expected a command"),
    }
}

fn start(bindings: Vec<PolicyBinding>, groups: Vec<&str>) -> (MembershipReconciler, Step<WorkflowOutcome>) {
    MembershipReconciler::start(
        "kc-1".to_string(),
        "@alice:test".to_string(),
        bindings,
        groups.into_iter().map(String::from).collect(),
        vec![],
        "sub".to_string(),
        "admin".to_string(),
    )
}

#[test]
fn matching_user_is_joined_with_power_level() {
    let (mut m, step) = start(vec![binding(PolicySubject::Group("staff".into()), "!r:test", false, Some(50))], vec!["staff"]);
    assert!(matches!(run(step), Command::GetSpaceChildren { .. }));
    run(m.resume(Reply::RoomIds(Ok(vec![]))));
    let c = run(m.resume(Reply::RoomIds(Ok(vec!["@bob:test".to_string()]))));
    assert!(matches!(c, Command::ForceJoin { .. }));
    let c = run(m.resume(Reply::Unit(Ok(()))));
    assert!(matches!(c, Command::WriteAudit(r) if r.result == AuditResult::Success));
    let c = run(m.resume(Reply::Unit(Ok(()))));
    assert!(matches!(c, Command::SetPowerLevel { level: 50, .. }));
    match m.resume(Reply::Unit(Err(AppError::Internal("pl".into())))) {
        Step::Finished(Ok(o)) => assert_eq!(
            o.warnings,
            vec!["Joined @alice:test to !r:test but could not set power level 50: Internal error: pl"]
        ),
        _ => panic!("expected warnings"),
    }
}

#[test]
fn present_matching_user_is_left_alone() {
    let (mut m, _) = start(vec![binding(PolicySubject::Group("staff".into()), "!r:test", true, None)], vec!["staff"]);
    run(m.resume(Reply::RoomIds(Ok(vec![]))));
    match m.resume(Reply::RoomIds(Ok(vec!["@alice:test".to_string()]))) {
        Step::Finished(Ok(o)) => assert!(!o.has_warnings()),
        _ => panic!("expected no action"),
    }
}

#[test]
fn non_matching_user_is_kicked_only_when_allowed() {
    let (mut m, _) = start(vec![binding(PolicySubject::Group("staff".into()), "!r:test", true, None)], vec![]);
    run(m.resume(Reply::RoomIds(Ok(vec![]))));
    let c = run(m.resume(Reply::RoomIds(Ok(vec!["@alice:test".to_string()]))));
    match c {
        Command::Kick { user_id, room_id, reason } => {
            assert_eq!(user_id, "@alice:test");
            assert_eq!(room_id, "!r:test");
            assert_eq!(reason, "Removed: no longer matches group:staff");
        }
        other => panic!("unexpected {other:?}"),
    }
    let (mut m, step) = start(vec![binding(PolicySubject::Group("staff".into()), "!r:test", false, None)], vec![]);
    run(step);
    match m.resume(Reply::RoomIds(Ok(vec![]))) {
        Step::Finished(Ok(o)) => assert!(!o.has_warnings()),
        _ => panic!("expected no kick"),
    }
}

#[test]
fn space_children_are_joined_after_the_space() {
    let mut b = binding(PolicySubject::Role("member".into()), "!space:test", false, None);
    b.target = PolicyTarget::Space("!space:test".to_string());
    let (mut m, _) = MembershipReconciler::start(
        "kc-1".to_string(),
        "@alice:test".to_string(),
        vec![b],
        vec![],
        vec!["member".to_string()],
        "sub".to_string(),
        "admin".to_string(),
    );
    let c = run(m.resume(Reply::RoomIds(Ok(vec!["!child:test".to_string()]))));
    assert!(matches!(c, Command::GetRoomMembers { room_id } if room_id == "!space:test"));
    let c = run(m.resume(Reply::RoomIds(Ok(vec!["@alice:test".to_string()]))));
    assert!(matches!(c, Command::GetRoomMembers { room_id } if room_id == "!child:test"));
}

#[test]
fn user_matches_binding_by_group_or_role() {
    let g = binding(PolicySubject::Group("staff".into()), "!r", false, None);
    let r = binding(PolicySubject::Role("admin".into()), "!r", false, None);
    let groups = vec!["staff".to_string()];
    let roles = vec!["admin".to_string()];
    assert!(user_matches_binding(&g, &groups, &[]));
    assert!(!user_matches_binding(&g, &[], &roles));
    assert!(user_matches_binding(&r, &[], &roles));
}

#[test]
fn preview_classifies_rooms() {
    let bindings = vec![
        binding(PolicySubject::Group("staff".into()), "!join:test", false, None),
        binding(PolicySubject::Group("staff".into()), "!ok:test", false, None),
        binding(PolicySubject::Group("old".into()), "!kick:test", true, None),
    ];
    let (mut m, step) = MembershipPreview::start(
        "@alice:test".to_string(),
        bindings,
        vec!["staff".to_string()],
        vec![],
    );
    run(step);
    run(m.resume(Reply::RoomIds(Ok(vec![]))));
    run(m.resume(Reply::RoomIds(Ok(vec![]))));
    run(m.resume(Reply::RoomIds(Ok(vec![]))));
    run(m.resume(Reply::RoomIds(Ok(vec!["@alice:test".to_string()]))));
    run(m.resume(Reply::RoomIds(Ok(vec![]))));
    let p: ReconcilePreview = match m.resume(Reply::RoomIds(Ok(vec!["@alice:test".to_string()]))) {
        Step::Finished(Ok(p)) => p,
        _ => panic!("expected a preview"),
    };
    assert_eq!(p.joins.len(), 1);
    assert_eq!(p.joins[0].room_id, "!join:test");
    assert_eq!(p.already_correct.len(), 1);
    assert_eq!(p.already_correct[0].room_id, "!ok:test");
    assert_eq!(p.kicks.len(), 1);
    assert_eq!(p.kicks[0].room_id, "!kick:test");
}
