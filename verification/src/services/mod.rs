pub mod audit_service;
pub mod bulk_reconcile;
pub mod delete_user;
pub mod disable_user;
pub mod identity_mapper;
pub mod invite_user;
pub mod lifecycle_steps;
pub mod offboard_user;
pub mod policy_service;
pub mod protocol;
pub mod reactivate_user;
pub mod reconcile_membership;
pub mod user_service;
