//! Keycloak admin API records.

use vstd::prelude::*;

verus! {

/// A Keycloak user.
#[derive(Debug, Clone)]
pub struct KeycloakUser {
    pub id: String,
    pub username: String,
    pub email: Option<String>,
    pub first_name: Option<String>,
    pub last_name: Option<String>,
    pub enabled: bool,
    pub email_verified: bool,
    pub created_timestamp: Option<i64>,
    /// Pending required actions; non-empty means onboarding is incomplete.
    pub required_actions: Vec<String>,
}

/// A Keycloak group.
#[derive(Debug, Clone)]
pub struct KeycloakGroup {
    pub id: String,
    pub name: String,
    pub path: String,
}

/// A Keycloak realm or client role.
#[derive(Debug, Clone)]
pub struct KeycloakRole {
    pub id: String,
    pub name: String,
    pub composite: bool,
    pub client_role: bool,
    pub container_id: Option<String>,
}

/// A role by value.
pub struct RoleView {
    pub id: Seq<char>,
    pub name: Seq<char>,
    pub composite: bool,
    pub client_role: bool,
    pub container_id: Option<Seq<char>>,
}

impl KeycloakRole {
    pub open spec fn view(&self) -> RoleView {
        RoleView {
            id: self.id@,
            name: self.name@,
            composite: self.composite,
            client_role: self.client_role,
            container_id: crate::text::opt_view(self.container_id),
        }
    }

    /// A copy of the role.
    pub fn duplicate(&self) -> (res: KeycloakRole)
        ensures
            res.view() == self.view(),
    {
        KeycloakRole {
            id: self.id.clone(),
            name: self.name.clone(),
            composite: self.composite,
            client_role: self.client_role,
            container_id: match &self.container_id {
                Some(c) => Some(c.clone()),
                None => None,
            },
        }
    }
}

} // verus!
