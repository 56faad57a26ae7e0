//! User search and detail: lifecycle state and the assembly of the views
//! from what the identity provider and MAS returned.

use vstd::prelude::*;

use crate::error::AppError;
use crate::models::mas::{MasSession, MasUser};
use crate::models::unified::{
    CanonicalUser, CorrelationStatus, LifecycleState, UnifiedSession, UnifiedUserDetail,
    UnifiedUserSummary,
};
use crate::services::identity_mapper::{derived_matrix_id, IdentityMapper};
use crate::text::{opt_view, reversed};

verus! {

/// Lifecycle state: `Disabled` if the account is disabled or its MAS account
/// deactivated, else `Invited` while required actions are pending, else
/// `Active`.
pub open spec fn lifecycle(enabled: bool, pending_actions: nat, deactivated: bool) -> LifecycleState {
    if !enabled || deactivated {
        LifecycleState::Disabled
    } else if pending_actions > 0 {
        LifecycleState::Invited
    } else {
        LifecycleState::Active
    }
}

/// The lifecycle state of an account from its Keycloak and MAS data.
pub fn derive_lifecycle_state(
    kc_enabled: bool,
    required_actions: &[String],
    mas_deactivated_at: Option<&str>,
) -> (res: LifecycleState)
    ensures
        res == lifecycle(kc_enabled, required_actions@.len(), mas_deactivated_at is Some),
{
    if !kc_enabled || mas_deactivated_at.is_some() {
        LifecycleState::Disabled
    } else if required_actions.len() > 0 {
        LifecycleState::Invited
    } else {
        LifecycleState::Active
    }
}

/// The search summary of a user: its own fields, the derived Matrix ID, the
/// lifecycle state without MAS data, and `Inferred` correlation.
pub open spec fn is_summary_of(s: UnifiedUserSummary, u: CanonicalUser, domain: Seq<char>) -> bool {
    &&& s.keycloak_id == u.id
    &&& s.username == u.username
    &&& s.email == u.email
    &&& s.enabled == u.enabled
    &&& s.lifecycle_state == lifecycle(u.enabled, u.required_actions@.len(), false)
    &&& opt_view(s.inferred_matrix_id) == derived_matrix_id(u.username@, domain)
    &&& s.correlation_status == CorrelationStatus::Inferred
}

/// The detail-view form of a MAS session: `finished` if it has ended, else
/// `active`.
pub open spec fn is_session_view_of(v: UnifiedSession, s: MasSession) -> bool {
    &&& v.id == s.id
    &&& v.session_type == s.session_type
    &&& v.created_at == s.created_at
    &&& v.last_active_at == s.last_active_at
    &&& v.user_agent == s.user_agent
    &&& v.ip_address == s.ip_address
    &&& v.state@ == (if s.finished_at is Some {
        "finished"@
    } else {
        "active"@
    })
}

/// The detail-view form of a MAS session.
pub fn session_view(s: MasSession) -> (res: UnifiedSession)
    ensures
        is_session_view_of(res, s),
{
    let state = if s.finished_at.is_some() {
        String::from_str("finished")
    } else {
        String::from_str("active")
    };
    UnifiedSession {
        id: s.id,
        session_type: s.session_type,
        created_at: s.created_at,
        last_active_at: s.last_active_at,
        user_agent: s.user_agent,
        ip_address: s.ip_address,
        state,
    }
}

/// The MAS user found by a lookup, treating a failed lookup as not found.
pub open spec fn found_mas_user(lookup: Result<Option<MasUser>, AppError>) -> Option<MasUser> {
    match lookup {
        Ok(Some(u)) => Some(u),
        _ => None,
    }
}

/// The sessions of a detail view: those listed when a MAS user was found
/// and listing succeeded, else none.
pub open spec fn listed_sessions(
    mas: Option<MasUser>,
    sessions: Option<Result<Vec<MasSession>, AppError>>,
) -> Seq<MasSession> {
    match (mas, sessions) {
        (Some(_), Some(Ok(v))) => v@,
        _ => Seq::empty(),
    }
}

/// User search and detail over one homeserver.
pub struct UserService {
    mapper: IdentityMapper,
}

impl UserService {
    /// The homeserver domain of the service.
    pub closed spec fn domain(&self) -> Seq<char> {
        self.mapper.domain()
    }

    /// A service for the given homeserver domain.
    pub fn new(homeserver_domain: &str) -> (res: Self)
        ensures
            res.domain() == homeserver_domain@,
    {
        UserService { mapper: IdentityMapper::new(homeserver_domain) }
    }

    /// Search results: one summary per user found, in order, without MAS
    /// lookups.
    pub fn summarize(&self, users: Vec<CanonicalUser>) -> (res: Vec<UnifiedUserSummary>)
        ensures
            res@.len() == users@.len(),
            forall|i: int|
                0 <= i < users@.len() ==> is_summary_of(#[trigger] res@[i], users@[i], self.domain()),
    {
        let mut out: Vec<UnifiedUserSummary> = Vec::new();
        let ghost all = users@;
        let n = users.len();
        let mut rest = reversed(users);
        let mut i: usize = 0;
        while i < n
            invariant
                n == all.len(),
                i <= n,
                rest@.len() == n - i,
                forall|k: int| 0 <= k < n - i ==> #[trigger] rest@[k] == all[n - 1 - k],
                out@.len() == i,
                forall|k: int| 0 <= k < i ==> is_summary_of(#[trigger] out@[k], all[k], self.domain()),
            decreases n - i,
        {
            let u = rest.pop().unwrap();
            let mapped = self.mapper.map_summary_only(u);
            let lifecycle_state = derive_lifecycle_state(
                mapped.canonical.enabled,
                mapped.canonical.required_actions.as_slice(),
                None,
            );
            let c = mapped.canonical;
            out.push(
                UnifiedUserSummary {
                    keycloak_id: c.id,
                    username: c.username,
                    email: c.email,
                    enabled: c.enabled,
                    lifecycle_state,
                    inferred_matrix_id: mapped.inferred_matrix_id,
                    correlation_status: mapped.correlation_status,
                },
            );
            i = i + 1;
        }
        out
    }

    /// The MAS user whose sessions the detail view lists, if the lookup
    /// found one.
    pub fn sessions_to_list(mas_lookup: &Result<Option<MasUser>, AppError>) -> (res: Option<
        String,
    >)
        ensures
            res == (match found_mas_user(*mas_lookup) {
                Some(u) => Some(u.id),
                None => None,
            }),
    {
        match mas_lookup {
            Ok(Some(u)) => Some(u.id.clone()),
            _ => None,
        }
    }

    /// Assembles the detail view of a user. Failed group, role, MAS and
    /// session lookups count as empty or not found; `sessions` is what
    /// listing the found MAS user's sessions returned, if it was listed.
    pub fn assemble_detail(
        &self,
        user: CanonicalUser,
        groups: Result<Vec<String>, AppError>,
        roles: Result<Vec<String>, AppError>,
        mas_lookup: Result<Option<MasUser>, AppError>,
        sessions: Option<Result<Vec<MasSession>, AppError>>,
    ) -> (res: UnifiedUserDetail)
        ensures
            res.keycloak_id == user.id,
            res.username == user.username,
            res.email == user.email,
            res.first_name == user.first_name,
            res.last_name == user.last_name,
            res.enabled == user.enabled,
            res.groups@ == (match groups {
                Ok(g) => g@,
                Err(_) => Seq::empty(),
            }),
            res.roles@ == (match roles {
                Ok(r) => r@,
                Err(_) => Seq::empty(),
            }),
            opt_view(res.matrix_id) == derived_matrix_id(user.username@, self.domain()),
            res.correlation_status == (if found_mas_user(mas_lookup) is Some {
                CorrelationStatus::Confirmed
            } else {
                CorrelationStatus::Inferred
            }),
            res.lifecycle_state == lifecycle(
                user.enabled,
                user.required_actions@.len(),
                match found_mas_user(mas_lookup) {
                    Some(u) => u.deactivated_at is Some,
                    None => false,
                },
            ),
            res.sessions@.len() == listed_sessions(found_mas_user(mas_lookup), sessions).len(),
            forall|i: int|
                0 <= i < res.sessions@.len() ==> is_session_view_of(
                    #[trigger] res.sessions@[i],
                    listed_sessions(found_mas_user(mas_lookup), sessions)[i],
                ),
    {
        let mas_user: Option<MasUser> = match mas_lookup {
            Ok(Some(u)) => Some(u),
            _ => None,
        };
        let mas_user_id: Option<String> = match &mas_user {
            Some(u) => Some(u.id.clone()),
            None => None,
        };
        let deactivated = match &mas_user {
            Some(u) => u.deactivated_at.is_some(),
            None => false,
        };
        let lifecycle_state = if !user.enabled || deactivated {
            LifecycleState::Disabled
        } else if user.required_actions.len() > 0 {
            LifecycleState::Invited
        } else {
            LifecycleState::Active
        };
        let listed: Vec<MasSession> = match (&mas_user, sessions) {
            (Some(_), Some(Ok(v))) => v,
            _ => Vec::new(),
        };
        let ghost listed_all = listed@;
        let n = listed.len();
        let mut rest = reversed(listed);
        let mut session_views: Vec<UnifiedSession> = Vec::new();
        let mut i: usize = 0;
        while i < n
            invariant
                n == listed_all.len(),
                i <= n,
                rest@.len() == n - i,
                forall|k: int| 0 <= k < n - i ==> #[trigger] rest@[k] == listed_all[n - 1 - k],
                session_views@.len() == i,
                forall|k: int|
                    0 <= k < i ==> is_session_view_of(#[trigger] session_views@[k], listed_all[k]),
            decreases n - i,
        {
            let s = rest.pop().unwrap();
            session_views.push(session_view(s));
            i = i + 1;
        }
        let mapped = self.mapper.map(user, mas_user_id);
        let c = mapped.canonical;
        let group_names = match groups {
            Ok(g) => g,
            Err(_) => Vec::new(),
        };
        let role_names = match roles {
            Ok(r) => r,
            Err(_) => Vec::new(),
        };
        UnifiedUserDetail {
            keycloak_id: c.id,
            username: c.username,
            email: c.email,
            first_name: c.first_name,
            last_name: c.last_name,
            enabled: c.enabled,
            lifecycle_state,
            groups: group_names,
            roles: role_names,
            matrix_id: mapped.inferred_matrix_id,
            correlation_status: mapped.correlation_status,
            sessions: session_views,
        }
    }
}

} // verus!
