//! The authenticated admin session.

use vstd::prelude::*;

verus! {

/// Data held in the encrypted session cookie of an authenticated admin.
#[derive(Debug, Clone)]
pub struct AdminSession {
    pub subject: String,
    pub username: String,
    pub email: Option<String>,
    pub roles: Vec<String>,
    /// CSRF token of the session, included in every mutating form.
    pub csrf_token: String,
}

/// An admin whose session cookie was present and valid.
pub struct AuthenticatedAdmin(pub AdminSession);

} // verus!
