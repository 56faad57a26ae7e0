use matrix_identity_admin::models::unified::LifecycleState;
use matrix_identity_admin::services::user_service::derive_lifecycle_state;

#[test]
fn lifecycle_active_when_enabled_no_actions_no_deactivation() {
    assert_eq!(
        derive_lifecycle_state(true, &[], None),
        LifecycleState::Active
    );
}

#[test]
fn lifecycle_invited_when_enabled_with_required_actions() {
    assert_eq!(
        derive_lifecycle_state(true, &["UPDATE_PASSWORD".to_string()], None),
        LifecycleState::Invited
    );
}

#[test]
fn lifecycle_disabled_when_kc_disabled() {
    assert_eq!(
        derive_lifecycle_state(false, &[], None),
        LifecycleState::Disabled
    );
}

#[test]
fn lifecycle_disabled_when_mas_deactivated() {
    assert_eq!(
        derive_lifecycle_state(true, &[], Some("2026-01-01T00:00:00Z")),
        LifecycleState::Disabled
    );
}

#[test]
fn lifecycle_disabled_takes_precedence_over_invited() {
    assert_eq!(
        derive_lifecycle_state(false, &["VERIFY_EMAIL".to_string()], None),
        LifecycleState::Disabled
    );
}
