//! Onboarding templates: groups and roles granted to invited users.

use vstd::prelude::*;

verus! {

/// A reusable onboarding configuration assigning Keycloak groups and realm
/// roles when a user is invited.
#[derive(Debug, Clone, PartialEq)]
pub struct OnboardingTemplate {
    pub name: String,
    pub description: String,
    pub groups: Vec<String>,
    pub roles: Vec<String>,
}

} // verus!
