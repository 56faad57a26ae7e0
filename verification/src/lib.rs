//! Verified core of an administration console for a Matrix homeserver whose
//! accounts live in Keycloak and Matrix Authentication Service (MAS).

pub mod auth;
pub mod calendar;
pub mod clients;
pub mod config;
pub mod db;
pub mod error;
pub mod handlers;
pub mod models;
pub mod services;
pub mod text;
pub mod utils;
