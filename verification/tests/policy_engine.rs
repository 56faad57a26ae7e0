use matrix_identity_admin::models::group_mapping::GroupMapping;
use matrix_identity_admin::models::policy::PolicyEngine;

fn mapping(group: &str, room: &str) -> GroupMapping {
    GroupMapping {
        keycloak_group: group.to_string(),
        matrix_room_id: room.to_string(),
    }
}

#[test]
fn required_rooms_no_groups_returns_empty() {
    let engine = PolicyEngine::new(vec![mapping("staff", "!room1:example.com")]);
    let rooms = engine.required_rooms_for(&[]);
    assert!(rooms.is_empty());
}

#[test]
fn required_rooms_matching_group_returns_room() {
    let engine = PolicyEngine::new(vec![mapping("staff", "!room1:example.com")]);
    let rooms = engine.required_rooms_for(&["staff".to_string()]);
    assert_eq!(rooms, vec!["!room1:example.com"]);
}

#[test]
fn required_rooms_multiple_matches_returns_all() {
    let engine = PolicyEngine::new(vec![
        mapping("staff", "!room1:example.com"),
        mapping("admins", "!room2:example.com"),
    ]);
    let mut rooms = engine.required_rooms_for(&["staff".to_string(), "admins".to_string()]);
    rooms.sort();
    assert_eq!(rooms, vec!["!room1:example.com", "!room2:example.com"]);
}

#[test]
fn required_rooms_no_match_returns_empty() {
    let engine = PolicyEngine::new(vec![mapping("staff", "!room1:example.com")]);
    let rooms = engine.required_rooms_for(&["other-group".to_string()]);
    assert!(rooms.is_empty());
}

#[test]
fn mappings_for_returns_only_relevant_mappings() {
    let engine = PolicyEngine::new(vec![
        mapping("staff", "!room1:example.com"),
        mapping("admins", "!room2:example.com"),
    ]);
    let relevant = engine.mappings_for(&["staff".to_string()]);
    assert_eq!(relevant.len(), 1);
    assert_eq!(relevant[0].keycloak_group, "staff");
    assert_eq!(relevant[0].matrix_room_id, "!room1:example.com");
}

#[test]
fn all_mappings_returns_every_entry() {
    let engine = PolicyEngine::new(vec![
        mapping("staff", "!room1:example.com"),
        mapping("admins", "!room2:example.com"),
    ]);
    assert_eq!(engine.all_mappings().len(), 2);
}

#[test]
fn is_empty_true_when_no_mappings() {
    let engine = PolicyEngine::default();
    assert!(engine.is_empty());
}

#[test]
fn is_empty_false_when_mappings_present() {
    let engine = PolicyEngine::new(vec![mapping("staff", "!room1:example.com")]);
    assert!(!engine.is_empty());
}

#[test]
fn more_groups_keep_required_rooms() {
    let engine = PolicyEngine::new(vec![
        mapping("staff", "!room1:example.com"),
        mapping("admins", "!room2:example.com"),
    ]);
    let fewer = engine.required_rooms_for(&["staff".to_string()]);
    let more = engine.required_rooms_for(&["staff".to_string(), "admins".to_string()]);
    for r in &fewer {
        assert!(more.contains(r));
    }
    assert_eq!(more, vec!["!room1:example.com", "!room2:example.com"]);
}
