//! The dashboard: activity counts over three windows and the status card.

use vstd::prelude::*;

use crate::error::AppError;
use crate::handlers::audit::str_views;
use crate::models::keycloak::{KeycloakGroup, KeycloakRole};
use crate::models::mas::MasUser;
use crate::models::synapse::RoomList;

verus! {

/// The query of the dashboard: a notice or error to show.
pub struct DashboardQuery {
    pub notice: Option<String>,
    pub error: Option<String>,
}

/// One day, in seconds.
pub const SECS_24H: i64 = 86400;

/// One week, in seconds.
pub const SECS_7D: i64 = 604800;

/// Thirty days, in seconds.
pub const SECS_30D: i64 = 2592000;

/// The actions counted as invites.
pub fn invite_actions() -> (res: Vec<&'static str>)
    ensures
        str_views(res@) == seq!["invite_user"@],
{
    let v: Vec<&'static str> = vec!["invite_user"];
    assert(str_views(v@) =~= seq!["invite_user"@]);
    v
}

/// The actions counted as lifecycle changes.
pub fn lifecycle_actions() -> (res: Vec<&'static str>)
    ensures
        str_views(res@) == seq![
            "disable_identity_account_on_disable"@,
            "disable_identity_account_on_offboard"@,
            "reactivate_auth_account_on_reactivate"@,
            "delete_keycloak_user"@,
        ],
{
    let v: Vec<&'static str> = vec![
        "disable_identity_account_on_disable",
        "disable_identity_account_on_offboard",
        "reactivate_auth_account_on_reactivate",
        "delete_keycloak_user",
    ];
    assert(str_views(v@) =~= seq![
        "disable_identity_account_on_disable"@,
        "disable_identity_account_on_offboard"@,
        "reactivate_auth_account_on_reactivate"@,
        "delete_keycloak_user"@,
    ]);
    v
}

/// A count, or zero when it could not be taken.
pub open spec fn count_or_zero<T>(r: Result<T, AppError>, zero: T) -> T {
    match r {
        Ok(n) => n,
        Err(_) => zero,
    }
}

/// Counts over the last day, week and thirty days.
pub struct WindowCounts {
    pub day: i64,
    pub week: i64,
    pub month: i64,
}

/// The counts of the three windows; one that could not be taken shows as
/// zero.
pub fn window_counts(
    day: &Result<i64, AppError>,
    week: &Result<i64, AppError>,
    month: &Result<i64, AppError>,
) -> (res: WindowCounts)
    ensures
        res.day == count_or_zero(*day, 0i64),
        res.week == count_or_zero(*week, 0i64),
        res.month == count_or_zero(*month, 0i64),
{
    WindowCounts {
        day: match day {
            Ok(n) => *n,
            Err(_) => 0,
        },
        week: match week {
            Ok(n) => *n,
            Err(_) => 0,
        },
        month: match month {
            Ok(n) => *n,
            Err(_) => 0,
        },
    }
}

/// The number of users, or zero when it could not be taken.
pub fn total_users(r: &Result<u32, AppError>) -> (res: u32)
    ensures
        res == count_or_zero(*r, 0u32),
{
    match r {
        Ok(n) => *n,
        Err(_) => 0,
    }
}

/// The status card: which services answered, and what they counted.
pub struct StatusCard {
    pub keycloak_ok: bool,
    pub mas_ok: bool,
    pub synapse_configured: bool,
    pub user_count: Option<u32>,
    pub group_count: Option<usize>,
    pub role_count: Option<usize>,
    pub room_count: Option<i64>,
}

/// The status card of the health checks' results; `rooms` is absent
/// without a Matrix connector.
pub fn status_card(
    users: &Result<u32, AppError>,
    mas: &Result<Option<MasUser>, AppError>,
    groups: &Result<Vec<KeycloakGroup>, AppError>,
    roles: &Result<Vec<KeycloakRole>, AppError>,
    rooms: &Option<Result<RoomList, AppError>>,
) -> (res: StatusCard)
    ensures
        res.keycloak_ok == (users is Ok),
        res.user_count == match users {
            Ok(n) => Some(*n),
            Err(_) => None::<u32>,
        },
        res.mas_ok == (mas is Ok),
        res.synapse_configured == (rooms is Some),
        res.group_count == match groups {
            Ok(gs) => Some(gs@.len() as usize),
            Err(_) => None::<usize>,
        },
        res.role_count == match roles {
            Ok(rs) => Some(rs@.len() as usize),
            Err(_) => None::<usize>,
        },
        res.room_count == match rooms {
            Some(Ok(r)) => r.total_rooms,
            _ => None::<i64>,
        },
{
    StatusCard {
        keycloak_ok: users.is_ok(),
        mas_ok: mas.is_ok(),
        synapse_configured: rooms.is_some(),
        user_count: match users {
            Ok(n) => Some(*n),
            Err(_) => None,
        },
        group_count: match groups {
            Ok(gs) => Some(gs.len()),
            Err(_) => None,
        },
        role_count: match roles {
            Ok(rs) => Some(rs.len()),
            Err(_) => None,
        },
        room_count: match rooms {
            Some(Ok(r)) => r.total_rooms,
            _ => None,
        },
    }
}

} // verus!
