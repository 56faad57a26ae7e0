//! Matrix Authentication Service records.

use vstd::prelude::*;

verus! {

/// A MAS user account; `deactivated_at` is set when the account is deactivated.
#[derive(Debug, Clone)]
pub struct MasUser {
    pub id: String,
    pub username: String,
    pub deactivated_at: Option<String>,
}

/// A MAS session (compat or OAuth2); `finished_at` is set once it has ended.
#[derive(Debug, Clone)]
pub struct MasSession {
    pub id: String,
    /// `compat` or `oauth2`: which finish endpoint applies.
    pub session_type: String,
    pub created_at: Option<String>,
    pub last_active_at: Option<String>,
    pub user_agent: Option<String>,
    pub ip_address: Option<String>,
    pub finished_at: Option<String>,
}

/// Sessions listed from MAS, with warnings when one endpoint failed.
pub struct SessionListResult {
    pub sessions: Vec<MasSession>,
    pub warnings: Vec<String>,
}

} // verus!
