//! Keycloak group to Matrix room mappings.

use vstd::prelude::*;

verus! {

/// Maps a Keycloak group name to a Matrix room ID.
#[derive(Debug, Clone)]
pub struct GroupMapping {
    pub keycloak_group: String,
    pub matrix_room_id: String,
}

} // verus!
