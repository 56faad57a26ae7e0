use matrix_identity_admin::db::policy::{binding_from_row, binding_row};
use matrix_identity_admin::error::AppError;
use matrix_identity_admin::models::group_mapping::GroupMapping;
use matrix_identity_admin::models::policy_binding::{PolicyBinding, PolicySubject, PolicyTarget};
use matrix_identity_admin::models::synapse::{RoomList, RoomListEntry};
use matrix_identity_admin::services::audit_service::MetaValue;
use matrix_identity_admin::services::policy_service::{
    binding_created_record, binding_deleted_record, binding_updated_record,
    effective_bindings_for_user, new_binding, Bootstrapper, RoomCacheRefresher,
};
use matrix_identity_admin::services::protocol::{Command, Reply, Step};

fn binding(id: &str, subject: PolicySubject) -> PolicyBinding {
    PolicyBinding {
        id: id.to_string(),
        subject,
        target: PolicyTarget::Space("!s:test".to_string()),
        power_level: Some(10),
        allow_remove: true,
        created_at: "t0".to_string(),
        updated_at: "t1".to_string(),
    }
}

fn run(step: Step<usize>) -> Command {
    match step {
        Step::Run(c) => c,
        Step::Finished(r) => panic!("expected a command, got {r:?}"),
    }
}

#[test]
fn effective_bindings_keep_matching_ones_in_order() {
    let bs = vec![
        binding("1", PolicySubject::Group("staff".into())),
        binding("2", PolicySubject::Role("admin".into())),
        binding("3", PolicySubject::Group("other".into())),
        binding("4", PolicySubject::Role("viewer".into())),
    ];
    let eff = effective_bindings_for_user(&bs, &["staff".to_string()], &["viewer".to_string()]);
    let ids: Vec<&str> = eff.iter().map(|b| b.id.as_str()).collect();
    assert_eq!(ids, vec!["1", "4"]);
}

#[test]
fn stored_binding_reads_back() {
    for b in [
        binding("1", PolicySubject::Group("staff".into())),
        binding("2", PolicySubject::Role("admin".into())),
    ] {
        let row = binding_row(&b);
        let back = binding_from_row(row);
        assert_eq!(back.id, b.id);
        assert_eq!(back.subject, b.subject);
        assert_eq!(back.target, b.target);
        assert_eq!(back.power_level, b.power_level);
        assert_eq!(back.allow_remove, b.allow_remove);
        assert_eq!(back.created_at, b.created_at);
    }
}

#[test]
fn new_binding_has_uuid_and_single_stamp() {
    let b = new_binding(
        PolicySubject::Group("g".into()),
        PolicyTarget::Room("!r".into()),
        None,
        false,
    );
    assert_eq!(b.id.len(), 36);
    assert_eq!(b.created_at, b.updated_at);
    assert!(!b.created_at.is_empty());
}

#[test]
fn binding_audit_records() {
    let b = binding("b-1", PolicySubject::Role("admin".into()));
    let r = binding_created_record("sub", "admin", &b);
    assert_eq!(r.action, "create_policy_binding");
    assert!(matches!(&r.metadata[1].1, MetaValue::Str(s) if s == "role:admin"));
    assert!(matches!(&r.metadata[2].1, MetaValue::Str(s) if s == "!s:test"));
    let r = binding_updated_record("sub", "admin", "b-1", None, true);
    assert_eq!(r.action, "update_policy_binding");
    assert!(matches!(&r.metadata[1].1, MetaValue::OptInt(None)));
    let r = binding_deleted_record("sub", "admin", "b-1");
    assert_eq!(r.action, "delete_policy_binding");
    assert_eq!(r.metadata.len(), 1);
}

fn entry(id: &str) -> RoomListEntry {
    RoomListEntry {
        room_id: id.to_string(),
        name: Some(format!("name {id}")),
        canonical_alias: None,
        joined_members: None,
    }
}

#[test]
fn refresh_caches_every_room_across_pages() {
    let (mut m, step) = RoomCacheRefresher::start();
    assert!(matches!(run(step), Command::ListRooms { limit: 100, from: None }));
    let c = run(m.resume(Reply::Rooms(Ok(RoomList {
        rooms: vec![entry("!a"), entry("!b")],
        next_batch: Some("tok".to_string()),
        total_rooms: Some(3),
    }))));
    assert!(matches!(c, Command::GetSpaceChildren { room_id } if room_id == "!a"));
    let c = run(m.resume(Reply::RoomIds(Ok(vec!["!child".to_string()]))));
    assert!(matches!(c, Command::UpsertCachedRoom(r) if r.is_space && r.room_id == "!a"));
    run(m.resume(Reply::Unit(Ok(()))));
    let c = run(m.resume(Reply::RoomIds(Err(AppError::Internal("x".into())))));
    assert!(matches!(c, Command::UpsertCachedRoom(r) if !r.is_space && r.room_id == "!b"));
    let c = run(m.resume(Reply::Unit(Ok(()))));
    assert!(matches!(c, Command::ListRooms { from: Some(t), .. } if t == "tok"));
    run(m.resume(Reply::Rooms(Ok(RoomList {
        rooms: vec![entry("!c")],
        next_batch: None,
        total_rooms: Some(3),
    }))));
    run(m.resume(Reply::RoomIds(Ok(vec![]))));
    assert_eq!(m.rooms_cached(), 2);
    match m.resume(Reply::Unit(Ok(()))) {
        Step::Finished(Ok(n)) => assert_eq!(n, 3),
        other => panic!("unexpected {other:?}"),
    }
}

#[test]
fn refresh_stops_on_store_failure() {
    let (mut m, _) = RoomCacheRefresher::start();
    run(m.resume(Reply::Rooms(Ok(RoomList {
        rooms: vec![entry("!a")],
        next_batch: None,
        total_rooms: None,
    }))));
    run(m.resume(Reply::RoomIds(Ok(vec![]))));
    assert!(matches!(
        m.resume(Reply::Unit(Err(AppError::Database("full".into())))),
        Step::Finished(Err(AppError::Database(_)))
    ));
}

fn mapping(g: &str, r: &str) -> GroupMapping {
    GroupMapping {
        keycloak_group: g.to_string(),
        matrix_room_id: r.to_string(),
    }
}

#[test]
fn bootstrap_imports_once_and_counts_successes() {
    let (mut m, step) = Bootstrapper::start(vec![mapping("a", "!1"), mapping("b", "!2")], "GROUP_MAPPINGS");
    assert!(matches!(run(step), Command::HasBootstrapped));
    let c = run(m.resume(Reply::Flag(Ok(false))));
    match c {
        Command::CreateBinding(b) => {
            assert_eq!(b.subject, PolicySubject::Group("a".into()));
            assert_eq!(b.target, PolicyTarget::Room("!1".into()));
            assert_eq!(b.power_level, None);
            assert!(!b.allow_remove);
            assert_eq!(b.id.len(), 36);
        }
        other => panic!("unexpected {other:?}"),
    }
    run(m.resume(Reply::Unit(Err(AppError::Database("dup".into())))));
    let c = run(m.resume(Reply::Unit(Ok(()))));
    assert!(matches!(c, Command::MarkBootstrapped { source, .. } if source == "GROUP_MAPPINGS"));
    match m.resume(Reply::Unit(Ok(()))) {
        Step::Finished(Ok(n)) => assert_eq!(n, 1),
        other => panic!("unexpected {other:?}"),
    }
}

#[test]
fn bootstrap_done_already_creates_nothing() {
    let (mut m, _) = Bootstrapper::start(vec![mapping("a", "!1")], "GROUP_MAPPINGS");
    match m.resume(Reply::Flag(Ok(true))) {
        Step::Finished(Ok(n)) => assert_eq!(n, 0),
        other => panic!("unexpected {other:?}"),
    }
}
