use matrix_identity_admin::models::workflow::WorkflowOutcome;

#[test]
fn ok_has_no_warnings() {
    let outcome = WorkflowOutcome::ok();
    assert!(!outcome.has_warnings());
    assert!(outcome.warning_summary().is_empty());
}

#[test]
fn add_warning_accumulates() {
    let mut outcome = WorkflowOutcome::ok();
    outcome.add_warning("first failure");
    outcome.add_warning("second failure");
    assert!(outcome.has_warnings());
    assert_eq!(outcome.warnings.len(), 2);
    assert_eq!(outcome.warning_summary(), "first failure; second failure");
}

#[test]
fn default_outcome_is_ok() {
    let outcome = WorkflowOutcome::default();
    assert!(!outcome.has_warnings());
}
