use matrix_identity_admin::models::unified::{
    is_valid_matrix_localpart, CorrelationStatus, LifecycleState,
};

#[test]
fn confirmed_display() {
    assert_eq!(CorrelationStatus::Confirmed.to_string(), "Confirmed");
}

#[test]
fn inferred_display() {
    assert_eq!(CorrelationStatus::Inferred.to_string(), "Inferred");
}

#[test]
fn lifecycle_invited_display() {
    assert_eq!(LifecycleState::Invited.to_string(), "Invited");
}

#[test]
fn lifecycle_active_display() {
    assert_eq!(LifecycleState::Active.to_string(), "Active");
}

#[test]
fn lifecycle_disabled_display() {
    assert_eq!(LifecycleState::Disabled.to_string(), "Disabled");
}

#[test]
fn valid_matrix_localparts() {
    assert!(is_valid_matrix_localpart("alice"));
    assert!(is_valid_matrix_localpart("alice.bob"));
    assert!(is_valid_matrix_localpart("alice_bob"));
    assert!(is_valid_matrix_localpart("alice-bob"));
    assert!(is_valid_matrix_localpart("alice=bob"));
    assert!(is_valid_matrix_localpart("alice/bob"));
    assert!(is_valid_matrix_localpart("123"));
}

#[test]
fn invalid_matrix_localparts() {
    assert!(!is_valid_matrix_localpart(""));
    assert!(!is_valid_matrix_localpart("Alice"));
    assert!(!is_valid_matrix_localpart("alice+bob"));
    assert!(!is_valid_matrix_localpart("alice bob"));
    assert!(!is_valid_matrix_localpart("alice@bob"));
    assert!(!is_valid_matrix_localpart("alice:bob"));
}

#[test]
fn lifecycle_css_classes_differ() {
    let a = LifecycleState::Active.css_class();
    let i = LifecycleState::Invited.css_class();
    let d = LifecycleState::Disabled.css_class();
    assert_ne!(a, i);
    assert_ne!(a, d);
    assert_ne!(i, d);
}
