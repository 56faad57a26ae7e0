//! Correlation of an identity provider user with its MAS account and
//! Matrix ID.

use vstd::prelude::*;

use crate::models::unified::{
    is_valid_matrix_localpart, valid_localpart, CanonicalUser, CorrelationStatus,
};
use crate::text::{cat3, opt_view};

verus! {

/// The Matrix user ID `@<username>:<domain>`.
pub open spec fn matrix_user_id(username: Seq<char>, domain: Seq<char>) -> Seq<char> {
    "@"@ + username + ":"@ + domain
}

/// The Matrix ID derived from a username, if the username is a valid
/// localpart.
pub open spec fn derived_matrix_id(username: Seq<char>, domain: Seq<char>) -> Option<Seq<char>> {
    if valid_localpart(username) {
        Some(matrix_user_id(username, domain))
    } else {
        None
    }
}

/// Builds `@<username>:<domain>`.
pub fn format_matrix_user_id(username: &str, domain: &str) -> (res: String)
    ensures
        res@ == matrix_user_id(username@, domain@),
{
    let s = cat3("@", username, ":");
    s.concat(domain)
}

/// The result of correlating a user with its MAS account and Matrix ID.
#[derive(Debug, Clone)]
pub struct MappedIdentity {
    pub canonical: CanonicalUser,
    /// Derived Matrix user ID, `@<username>:<homeserver_domain>`.
    pub inferred_matrix_id: Option<String>,
    pub correlation_status: CorrelationStatus,
}

/// Maps identity provider users to Matrix identities on one homeserver.
pub struct IdentityMapper {
    homeserver_domain: String,
}

impl IdentityMapper {
    /// The homeserver domain of the mapper.
    pub closed spec fn domain(&self) -> Seq<char> {
        self.homeserver_domain@
    }

    /// A mapper for the given homeserver domain.
    pub fn new(homeserver_domain: &str) -> (res: Self)
        ensures
            res.domain() == homeserver_domain@,
    {
        IdentityMapper { homeserver_domain: String::from_str(homeserver_domain) }
    }

    /// The expected Matrix ID of a username, or `None` if the username is
    /// not a valid Matrix localpart.
    pub fn derive_matrix_id(&self, username: &str) -> (res: Option<String>)
        ensures
            opt_view(res) == derived_matrix_id(username@, self.domain()),
    {
        if is_valid_matrix_localpart(username) {
            Some(format_matrix_user_id(username, self.homeserver_domain.as_str()))
        } else {
            None
        }
    }

    /// Correlates a user: `Confirmed` when a MAS account was found,
    /// `Inferred` otherwise. The user is kept unchanged.
    pub fn map(&self, canonical: CanonicalUser, mas_user_id: Option<String>) -> (res:
        MappedIdentity)
        ensures
            res.canonical == canonical,
            opt_view(res.inferred_matrix_id) == derived_matrix_id(canonical.username@, self.domain()),
            res.correlation_status == (if mas_user_id is Some {
                CorrelationStatus::Confirmed
            } else {
                CorrelationStatus::Inferred
            }),
    {
        let inferred_matrix_id = self.derive_matrix_id(canonical.username.as_str());
        let correlation_status = if mas_user_id.is_some() {
            CorrelationStatus::Confirmed
        } else {
            CorrelationStatus::Inferred
        };
        MappedIdentity { canonical, inferred_matrix_id, correlation_status }
    }

    /// Correlates a user without any upstream lookup: always `Inferred`.
    pub fn map_summary_only(&self, canonical: CanonicalUser) -> (res: MappedIdentity)
        ensures
            res.canonical == canonical,
            opt_view(res.inferred_matrix_id) == derived_matrix_id(canonical.username@, self.domain()),
            res.correlation_status == CorrelationStatus::Inferred,
    {
        let inferred_matrix_id = self.derive_matrix_id(canonical.username.as_str());
        MappedIdentity {
            canonical,
            inferred_matrix_id,
            correlation_status: CorrelationStatus::Inferred,
        }
    }
}

} // verus!
