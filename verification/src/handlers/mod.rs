pub mod audit;
pub mod notice;
pub mod delete;
pub mod reactivate;
pub mod reconcile;
pub mod devices;
pub mod sessions;
pub mod invite;
pub mod users;
pub mod policy;
pub mod templates;
pub mod auth;
pub mod bulk_reconcile;
pub mod dashboard;
