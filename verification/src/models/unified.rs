//! The unified view of a user across Keycloak, MAS and Matrix.

use vstd::prelude::*;

verus! {

/// The lifecycle state of an account. Precedence: `Disabled` (Keycloak
/// disabled or MAS deactivated), then `Invited` (pending required actions),
/// then `Active`.
#[derive(Debug, Clone, Copy, PartialEq, Eq, Structural)]
pub enum LifecycleState {
    Invited,
    Active,
    Disabled,
}

impl LifecycleState {
    /// The displayed name of a state.
    pub open spec fn text(self) -> Seq<char> {
        match self {
            LifecycleState::Invited => "Invited"@,
            LifecycleState::Active => "Active"@,
            LifecycleState::Disabled => "Disabled"@,
        }
    }

    /// The CSS class of a state's badge.
    pub open spec fn css(self) -> Seq<char> {
        match self {
            LifecycleState::Invited => "badge-info"@,
            LifecycleState::Active => "badge-ok"@,
            LifecycleState::Disabled => "badge-warning"@,
        }
    }

    /// The CSS class name for the state's badge.
    pub fn css_class(&self) -> (res: &'static str)
        ensures
            res@ == self.css(),
    {
        match self {
            LifecycleState::Invited => "badge-info",
            LifecycleState::Active => "badge-ok",
            LifecycleState::Disabled => "badge-warning",
        }
    }

    /// The displayed name: `Invited`, `Active` or `Disabled`.
    pub fn to_string(&self) -> (res: String)
        ensures
            res@ == self.text(),
    {
        match self {
            LifecycleState::Invited => String::from_str("Invited"),
            LifecycleState::Active => String::from_str("Active"),
            LifecycleState::Disabled => String::from_str("Disabled"),
        }
    }
}

/// Confidence of the Keycloak to MAS to Matrix correlation.
#[derive(Debug, Clone, Copy, PartialEq, Eq, Structural)]
pub enum CorrelationStatus {
    /// Keycloak user and MAS account both found.
    Confirmed,
    /// MAS account not found; the Matrix ID is derived by convention.
    Inferred,
}

impl CorrelationStatus {
    /// The displayed name of a status.
    pub open spec fn text(self) -> Seq<char> {
        match self {
            CorrelationStatus::Confirmed => "Confirmed"@,
            CorrelationStatus::Inferred => "Inferred"@,
        }
    }

    /// The displayed name: `Confirmed` or `Inferred`.
    pub fn to_string(&self) -> (res: String)
        ensures
            res@ == self.text(),
    {
        match self {
            CorrelationStatus::Confirmed => String::from_str("Confirmed"),
            CorrelationStatus::Inferred => String::from_str("Inferred"),
        }
    }
}

/// A user as the identity provider describes it, without provider-specific
/// types.
#[derive(Debug, Clone)]
pub struct CanonicalUser {
    pub id: String,
    pub username: String,
    pub email: Option<String>,
    pub first_name: Option<String>,
    pub last_name: Option<String>,
    pub enabled: bool,
    pub groups: Vec<String>,
    pub roles: Vec<String>,
    pub required_actions: Vec<String>,
}

/// Lightweight summary used in search results.
#[derive(Debug, Clone)]
pub struct UnifiedUserSummary {
    pub keycloak_id: String,
    pub username: String,
    pub email: Option<String>,
    pub enabled: bool,
    pub lifecycle_state: LifecycleState,
    pub inferred_matrix_id: Option<String>,
    pub correlation_status: CorrelationStatus,
}

/// Full detail view of one user across the three upstream systems.
#[derive(Debug, Clone)]
pub struct UnifiedUserDetail {
    pub keycloak_id: String,
    pub username: String,
    pub email: Option<String>,
    pub first_name: Option<String>,
    pub last_name: Option<String>,
    pub enabled: bool,
    pub lifecycle_state: LifecycleState,
    pub groups: Vec<String>,
    pub roles: Vec<String>,
    pub matrix_id: Option<String>,
    pub correlation_status: CorrelationStatus,
    pub sessions: Vec<UnifiedSession>,
}

/// A MAS session as shown in the detail view.
#[derive(Debug, Clone)]
pub struct UnifiedSession {
    pub id: String,
    /// `compat` or `oauth2`.
    pub session_type: String,
    pub created_at: Option<String>,
    pub last_active_at: Option<String>,
    pub user_agent: Option<String>,
    pub ip_address: Option<String>,
    /// `active` or `finished`.
    pub state: String,
}

/// The characters allowed in a Matrix localpart: lower-case ASCII letters,
/// digits and `._=-/`.
pub open spec fn is_localpart_char(c: char) -> bool {
    ('a' <= c && c <= 'z') || ('0' <= c && c <= '9') || c == '.' || c == '_' || c == '='
        || c == '-' || c == '/'
}

/// A valid Matrix localpart: non-empty, of allowed characters only.
pub open spec fn valid_localpart(s: Seq<char>) -> bool {
    s.len() > 0 && forall|i: int| 0 <= i < s.len() ==> is_localpart_char(#[trigger] s[i])
}

/// Whether `s` is a valid Matrix localpart.
pub fn is_valid_matrix_localpart(s: &str) -> (res: bool)
    ensures
        res == valid_localpart(s@),
{
    let n = s.unicode_len();
    if n == 0 {
        return false;
    }
    let mut i: usize = 0;
    while i < n
        invariant
            n == s@.len(),
            i <= n,
            forall|j: int| 0 <= j < i ==> is_localpart_char(#[trigger] s@[j]),
        decreases n - i,
    {
        let c = s.get_char(i);
        if !(('a' <= c && c <= 'z') || ('0' <= c && c <= '9') || c == '.' || c == '_' || c == '='
            || c == '-' || c == '/') {
            return false;
        }
        i = i + 1;
    }
    true
}

} // verus!
