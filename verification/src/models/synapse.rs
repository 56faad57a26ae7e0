//! Synapse admin API records.

use vstd::prelude::*;

verus! {

/// A Synapse user.
#[derive(Debug, Clone)]
pub struct SynapseUser {
    pub name: String,
    pub displayname: Option<String>,
    pub admin: Option<bool>,
    pub deactivated: Option<bool>,
    pub creation_ts: Option<i64>,
    pub avatar_url: Option<String>,
}

/// A device of a Synapse user.
#[derive(Debug, Clone)]
pub struct SynapseDevice {
    pub device_id: String,
    pub display_name: Option<String>,
    pub last_seen_ip: Option<String>,
    /// Milliseconds since the Unix epoch.
    pub last_seen_ts: Option<i64>,
}

/// The devices of a Synapse user.
#[derive(Debug, Clone)]
pub struct SynapseDeviceList {
    pub devices: Vec<SynapseDevice>,
    pub total: Option<u64>,
}

/// One room of the Synapse admin room list.
#[derive(Debug, Clone)]
pub struct RoomListEntry {
    pub room_id: String,
    pub name: Option<String>,
    pub canonical_alias: Option<String>,
    pub joined_members: Option<i64>,
}

/// A page of the Synapse admin room list.
#[derive(Debug, Clone)]
pub struct RoomList {
    pub rooms: Vec<RoomListEntry>,
    pub next_batch: Option<String>,
    pub total_rooms: Option<i64>,
}

/// Details of one room.
#[derive(Debug, Clone)]
pub struct RoomDetails {
    pub room_id: String,
    pub name: Option<String>,
    pub canonical_alias: Option<String>,
    pub topic: Option<String>,
    pub joined_members: Option<i64>,
    pub is_space: bool,
}

} // verus!
