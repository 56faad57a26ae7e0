//! Policy bindings: which Keycloak group or role grants which Matrix room.

use vstd::prelude::*;

use crate::text::cat;

verus! {

/// The subject of a binding: a Keycloak group or role name.
#[derive(Debug, Clone, PartialEq, Eq)]
pub enum PolicySubject {
    Group(String),
    Role(String),
}

impl PolicySubject {
    /// The subject's name, whichever kind it is.
    pub open spec fn name(&self) -> Seq<char> {
        match self {
            PolicySubject::Group(v) => v@,
            PolicySubject::Role(v) => v@,
        }
    }

    /// The subject rendered as `group:<name>` or `role:<name>`.
    pub open spec fn text(&self) -> Seq<char> {
        match self {
            PolicySubject::Group(v) => "group:"@ + v@,
            PolicySubject::Role(v) => "role:"@ + v@,
        }
    }

    /// `group` or `role`.
    pub fn subject_type(&self) -> (res: &str)
        ensures
            res@ == (if self is Group {
                "group"@
            } else {
                "role"@
            }),
    {
        match self {
            PolicySubject::Group(_) => "group",
            PolicySubject::Role(_) => "role",
        }
    }

    /// The group or role name.
    pub fn value(&self) -> (res: &str)
        ensures
            res@ == self.name(),
    {
        match self {
            PolicySubject::Group(v) => v.as_str(),
            PolicySubject::Role(v) => v.as_str(),
        }
    }

    /// The subject as displayed: `group:<name>` or `role:<name>`.
    pub fn to_string(&self) -> (res: String)
        ensures
            res@ == self.text(),
    {
        match self {
            PolicySubject::Group(v) => cat("group:", v.as_str()),
            PolicySubject::Role(v) => cat("role:", v.as_str()),
        }
    }

    /// A copy of the subject.
    pub fn duplicate(&self) -> (res: PolicySubject)
        ensures
            res == *self,
    {
        match self {
            PolicySubject::Group(v) => PolicySubject::Group(v.clone()),
            PolicySubject::Role(v) => PolicySubject::Role(v.clone()),
        }
    }
}

/// The target of a binding: a Matrix room or space ID.
#[derive(Debug, Clone, PartialEq, Eq)]
pub enum PolicyTarget {
    Room(String),
    Space(String),
}

impl PolicyTarget {
    /// The target's room ID, whichever kind it is.
    pub open spec fn id(&self) -> String {
        match self {
            PolicyTarget::Room(v) => *v,
            PolicyTarget::Space(v) => *v,
        }
    }

    /// `room` or `space`.
    pub fn target_type(&self) -> (res: &str)
        ensures
            res@ == (if self is Room {
                "room"@
            } else {
                "space"@
            }),
    {
        match self {
            PolicyTarget::Room(_) => "room",
            PolicyTarget::Space(_) => "space",
        }
    }

    /// The room or space ID.
    pub fn room_id(&self) -> (res: &str)
        ensures
            res@ == self.id()@,
    {
        match self {
            PolicyTarget::Room(id) => id.as_str(),
            PolicyTarget::Space(id) => id.as_str(),
        }
    }

    /// The room or space ID as an owned string.
    pub fn id_string(&self) -> (res: String)
        ensures
            res == self.id(),
    {
        match self {
            PolicyTarget::Room(id) => id.clone(),
            PolicyTarget::Space(id) => id.clone(),
        }
    }

    /// A copy of the target.
    pub fn duplicate(&self) -> (res: PolicyTarget)
        ensures
            res == *self,
    {
        match self {
            PolicyTarget::Room(v) => PolicyTarget::Room(v.clone()),
            PolicyTarget::Space(v) => PolicyTarget::Space(v.clone()),
        }
    }
}

/// A policy binding maps a Keycloak group or role to a Matrix room or space.
#[derive(Debug, Clone)]
pub struct PolicyBinding {
    pub id: String,
    pub subject: PolicySubject,
    pub target: PolicyTarget,
    /// Power level to set after joining, if any.
    pub power_level: Option<i64>,
    /// Whether users who no longer match are removed from the room.
    pub allow_remove: bool,
    pub created_at: String,
    pub updated_at: String,
}

impl PolicyBinding {
    /// A copy of the binding.
    pub fn duplicate(&self) -> (res: PolicyBinding)
        ensures
            res == *self,
    {
        PolicyBinding {
            id: self.id.clone(),
            subject: self.subject.duplicate(),
            target: self.target.duplicate(),
            power_level: self.power_level,
            allow_remove: self.allow_remove,
            created_at: self.created_at.clone(),
            updated_at: self.updated_at.clone(),
        }
    }
}

/// A copy of a vector of bindings.
pub fn copy_bindings(v: &Vec<PolicyBinding>) -> (res: Vec<PolicyBinding>)
    ensures
        res@ == v@,
{
    let mut out: Vec<PolicyBinding> = Vec::new();
    let mut i: usize = 0;
    while i < v.len()
        invariant
            i <= v@.len(),
            out@ == v@.take(i as int),
        decreases v@.len() - i,
    {
        out.push(v[i].duplicate());
        assert(out@ =~= v@.take(i + 1));
        i = i + 1;
    }
    assert(v@.take(v@.len() as int) =~= v@);
    out
}

/// Cached metadata about a Matrix room, shown in the policy page.
#[derive(Debug, Clone)]
pub struct CachedRoom {
    pub room_id: String,
    pub name: Option<String>,
    pub canonical_alias: Option<String>,
    pub parent_space_id: Option<String>,
    pub is_space: bool,
    pub last_seen_at: String,
}

} // verus!
