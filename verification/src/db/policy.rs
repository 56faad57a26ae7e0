//! Rows of the policy tables and their conversion to the models.

use vstd::prelude::*;

use crate::models::policy_binding::{CachedRoom, PolicyBinding, PolicySubject, PolicyTarget};
use crate::text::str_eq;

verus! {

/// A row of the `policy_bindings` table.
#[derive(Debug, Clone)]
pub struct BindingRow {
    pub id: String,
    pub subject_type: String,
    pub subject_value: String,
    pub target_type: String,
    pub target_room_id: String,
    pub power_level: Option<i64>,
    pub allow_remove: bool,
    pub created_at: String,
    pub updated_at: String,
}

/// A row of the `policy_targets_cache` table.
#[derive(Debug, Clone)]
pub struct CachedRoomRow {
    pub room_id: String,
    pub name: Option<String>,
    pub canonical_alias: Option<String>,
    pub parent_space_id: Option<String>,
    pub is_space: bool,
    pub last_seen_at: String,
}

/// The binding of a row: a `role` subject type is a role and anything else
/// a group; a `space` target type is a space and anything else a room.
pub open spec fn row_binding(r: BindingRow) -> PolicyBinding {
    PolicyBinding {
        id: r.id,
        subject: if r.subject_type@ == "role"@ {
            PolicySubject::Role(r.subject_value)
        } else {
            PolicySubject::Group(r.subject_value)
        },
        target: if r.target_type@ == "space"@ {
            PolicyTarget::Space(r.target_room_id)
        } else {
            PolicyTarget::Room(r.target_room_id)
        },
        power_level: r.power_level,
        allow_remove: r.allow_remove,
        created_at: r.created_at,
        updated_at: r.updated_at,
    }
}

/// The binding of a row (see `row_binding`).
pub fn binding_from_row(r: BindingRow) -> (res: PolicyBinding)
    ensures
        res == row_binding(r),
{
    let subject = if str_eq(r.subject_type.as_str(), "role") {
        PolicySubject::Role(r.subject_value)
    } else {
        PolicySubject::Group(r.subject_value)
    };
    let target = if str_eq(r.target_type.as_str(), "space") {
        PolicyTarget::Space(r.target_room_id)
    } else {
        PolicyTarget::Room(r.target_room_id)
    };
    PolicyBinding {
        id: r.id,
        subject,
        target,
        power_level: r.power_level,
        allow_remove: r.allow_remove,
        created_at: r.created_at,
        updated_at: r.updated_at,
    }
}

/// Whether row `r` stores binding `b`: its subject and target types are
/// written as `group` or `role` and `room` or `space`, the other fields as
/// they are.
pub open spec fn stores(r: BindingRow, b: PolicyBinding) -> bool {
    &&& r.id == b.id
    &&& r.subject_type@ == (if b.subject is Group {
        "group"@
    } else {
        "role"@
    })
    &&& r.subject_value == (match b.subject {
        PolicySubject::Group(v) => v,
        PolicySubject::Role(v) => v,
    })
    &&& r.target_type@ == (if b.target is Room {
        "room"@
    } else {
        "space"@
    })
    &&& r.target_room_id == b.target.id()
    &&& r.power_level == b.power_level
    &&& r.allow_remove == b.allow_remove
    &&& r.created_at == b.created_at
    &&& r.updated_at == b.updated_at
}

/// The row storing a binding.
pub fn binding_row(b: &PolicyBinding) -> (res: BindingRow)
    ensures
        stores(res, *b),
{
    BindingRow {
        id: b.id.clone(),
        subject_type: String::from_str(b.subject.subject_type()),
        subject_value: match &b.subject {
            PolicySubject::Group(v) => v.clone(),
            PolicySubject::Role(v) => v.clone(),
        },
        target_type: String::from_str(b.target.target_type()),
        target_room_id: b.target.id_string(),
        power_level: b.power_level,
        allow_remove: b.allow_remove,
        created_at: b.created_at.clone(),
        updated_at: b.updated_at.clone(),
    }
}

/// Reading a stored binding back gives the binding that was written.
pub proof fn law_binding_row_round_trip(r: BindingRow, b: PolicyBinding)
    requires
        stores(r, b),
    ensures
        row_binding(r) == b,
{
    reveal_strlit("group");
    reveal_strlit("role");
    reveal_strlit("room");
    reveal_strlit("space");
    assert("group"@ != "role"@) by {
        assert("group"@.len() != "role"@.len());
    }
    assert("room"@ != "space"@) by {
        assert("room"@.len() != "space"@.len());
    }
}

/// The cached room of a row, field for field.
pub fn cached_room_from_row(r: CachedRoomRow) -> (res: CachedRoom)
    ensures
        res.room_id == r.room_id,
        res.name == r.name,
        res.canonical_alias == r.canonical_alias,
        res.parent_space_id == r.parent_space_id,
        res.is_space == r.is_space,
        res.last_seen_at == r.last_seen_at,
{
    CachedRoom {
        room_id: r.room_id,
        name: r.name,
        canonical_alias: r.canonical_alias,
        parent_space_id: r.parent_space_id,
        is_space: r.is_space,
        last_seen_at: r.last_seen_at,
    }
}

} // verus!
