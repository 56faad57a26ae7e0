//! The vocabulary shared by the workflow state machines: the outside
//! operations a workflow asks for, the replies it is resumed with, and
//! their mathematical views.

use vstd::prelude::*;

use crate::error::AppError;
use crate::models::audit::AuditResult;
use crate::models::keycloak::{KeycloakGroup, KeycloakRole, KeycloakUser, RoleView};
use crate::models::mas::{MasSession, MasUser};
use crate::models::policy_binding::{CachedRoom, PolicyBinding};
use crate::models::synapse::RoomList;
use crate::models::workflow::WorkflowOutcome;
use crate::services::audit_service::{AuditRecord, MetaValue};
use crate::text::{opt_view, views};

verus! {

/// An operation a workflow asks its runner to perform on an upstream
/// service or on the audit log.
#[derive(Debug)]
pub enum Command {
    /// Keycloak: fetch a user by ID.
    GetUser { user_id: String },
    /// Keycloak: find a user by exact email.
    FindUserByEmail { email: String },
    /// Keycloak: count the users matching a search.
    CountUsers { query: String },
    /// Keycloak: one page of the users matching a search, `max` users from
    /// offset `first`.
    SearchUsers { query: String, max: u32, first: u32 },
    /// Keycloak: the groups of a user.
    GetUserGroups { user_id: String },
    /// Keycloak: the realm roles of a user.
    GetUserRoles { user_id: String },
    /// Keycloak: create a user; the reply is its new ID.
    CreateUser { username: String, email: String },
    /// Keycloak: send the required-actions (invite) email.
    SendInviteEmail { user_id: String },
    /// Keycloak: end all sessions of a user.
    LogoutUser { user_id: String },
    /// Keycloak: disable a user.
    DisableUser { user_id: String },
    /// Keycloak: enable a user.
    EnableUser { user_id: String },
    /// Keycloak: delete a user.
    DeleteUser { user_id: String },
    /// Keycloak: list all groups.
    ListGroups,
    /// Keycloak: list all realm roles.
    ListRealmRoles,
    /// Keycloak: add a user to a group.
    AddUserToGroup { user_id: String, group_id: String },
    /// Keycloak: assign realm roles to a user.
    AssignRealmRoles { user_id: String, roles: Vec<KeycloakRole> },
    /// MAS: find a user by username.
    FindAuthUser { username: String },
    /// MAS: list the active sessions of a user.
    ListAuthSessions { auth_user_id: String },
    /// MAS: finish a session of the given type.
    FinishAuthSession { session_id: String, session_type: String },
    /// MAS: deactivate a user.
    DeactivateAuthUser { auth_user_id: String },
    /// MAS: reactivate a user.
    ReactivateAuthUser { auth_user_id: String },
    /// Synapse: the child rooms of a space (none for a plain room).
    GetSpaceChildren { room_id: String },
    /// Synapse: the joined members of a room.
    GetRoomMembers { room_id: String },
    /// Synapse: force-join a user into a room.
    ForceJoin { user_id: String, room_id: String },
    /// Synapse: kick a user from a room with a reason.
    Kick { user_id: String, room_id: String, reason: String },
    /// Synapse: set a user's power level in a room.
    SetPowerLevel { room_id: String, user_id: String, level: i64 },
    /// List every policy binding.
    ListBindings,
    /// Store a new policy binding.
    CreateBinding(PolicyBinding),
    /// Whether the legacy group mappings were imported already.
    HasBootstrapped,
    /// Record that the legacy group mappings were imported from `source`.
    MarkBootstrapped { source: String, at: String },
    /// Synapse: one page of the room list, `limit` rooms from token `from`.
    ListRooms { limit: u32, from: Option<String> },
    /// Insert or update a room of the room cache.
    UpsertCachedRoom(CachedRoom),
    /// Write an entry to the audit log.
    WriteAudit(AuditRecord),
}

/// What performing a command returned.
#[derive(Debug)]
pub enum Reply {
    User(Result<KeycloakUser, AppError>),
    MaybeUser(Result<Option<KeycloakUser>, AppError>),
    Created(Result<String, AppError>),
    Unit(Result<(), AppError>),
    Groups(Result<Vec<KeycloakGroup>, AppError>),
    Roles(Result<Vec<KeycloakRole>, AppError>),
    AuthUser(Result<Option<MasUser>, AppError>),
    Sessions(Result<Vec<MasSession>, AppError>),
    RoomIds(Result<Vec<String>, AppError>),
    Count(Result<u32, AppError>),
    Users(Result<Vec<KeycloakUser>, AppError>),
    Bindings(Result<Vec<PolicyBinding>, AppError>),
    Flag(Result<bool, AppError>),
    Rooms(Result<RoomList, AppError>),
}

/// What a workflow does next: ask for a command, or finish with a result.
#[derive(Debug)]
pub enum Step<T> {
    Run(Command),
    Finished(Result<T, AppError>),
}

/// The view of a metadata value.
#[verifier::ext_equal]
pub enum MetaView {
    Str(Seq<char>),
    OptStr(Option<Seq<char>>),
    OptInt(Option<i64>),
    Bool(bool),
    StrList(Seq<Seq<char>>),
}

/// The view of an audit record.
#[verifier::ext_equal]
pub struct AuditView {
    pub admin_subject: Seq<char>,
    pub admin_username: Seq<char>,
    pub target_keycloak_user_id: Option<Seq<char>>,
    pub target_matrix_user_id: Option<Seq<char>>,
    pub action: Seq<char>,
    pub result: AuditResult,
    pub metadata: Seq<(Seq<char>, MetaView)>,
}

/// The view of a command, by the characters of its strings.
#[verifier::ext_equal]
pub enum CommandView {
    GetUser { user_id: Seq<char> },
    FindUserByEmail { email: Seq<char> },
    CountUsers { query: Seq<char> },
    SearchUsers { query: Seq<char>, max: u32, first: u32 },
    GetUserGroups { user_id: Seq<char> },
    GetUserRoles { user_id: Seq<char> },
    CreateUser { username: Seq<char>, email: Seq<char> },
    SendInviteEmail { user_id: Seq<char> },
    LogoutUser { user_id: Seq<char> },
    DisableUser { user_id: Seq<char> },
    EnableUser { user_id: Seq<char> },
    DeleteUser { user_id: Seq<char> },
    ListGroups,
    ListRealmRoles,
    AddUserToGroup { user_id: Seq<char>, group_id: Seq<char> },
    AssignRealmRoles { user_id: Seq<char>, roles: Seq<RoleView> },
    FindAuthUser { username: Seq<char> },
    ListAuthSessions { auth_user_id: Seq<char> },
    FinishAuthSession { session_id: Seq<char>, session_type: Seq<char> },
    DeactivateAuthUser { auth_user_id: Seq<char> },
    ReactivateAuthUser { auth_user_id: Seq<char> },
    GetSpaceChildren { room_id: Seq<char> },
    GetRoomMembers { room_id: Seq<char> },
    ForceJoin { user_id: Seq<char>, room_id: Seq<char> },
    Kick { user_id: Seq<char>, room_id: Seq<char>, reason: Seq<char> },
    SetPowerLevel { room_id: Seq<char>, user_id: Seq<char>, level: i64 },
    ListBindings,
    CreateBinding(PolicyBinding),
    HasBootstrapped,
    MarkBootstrapped { source: Seq<char>, at: Seq<char> },
    ListRooms { limit: u32, from: Option<Seq<char>> },
    UpsertCachedRoom(CachedRoom),
    WriteAudit(AuditView),
}

impl MetaValue {
    pub open spec fn view(&self) -> MetaView {
        match self {
            MetaValue::Str(s) => MetaView::Str(s@),
            MetaValue::OptStr(s) => MetaView::OptStr(opt_view(*s)),
            MetaValue::OptInt(i) => MetaView::OptInt(*i),
            MetaValue::Bool(b) => MetaView::Bool(*b),
            MetaValue::StrList(v) => MetaView::StrList(views(v@)),
        }
    }
}

/// The views of roles.
pub open spec fn role_views(rs: Seq<KeycloakRole>) -> Seq<RoleView> {
    rs.map_values(|r: KeycloakRole| r.view())
}

/// The views of metadata fields.
pub open spec fn meta_views(m: Seq<(String, MetaValue)>) -> Seq<(Seq<char>, MetaView)> {
    m.map_values(|p: (String, MetaValue)| (p.0@, p.1.view()))
}

impl AuditRecord {
    pub open spec fn view(&self) -> AuditView {
        AuditView {
            admin_subject: self.admin_subject@,
            admin_username: self.admin_username@,
            target_keycloak_user_id: opt_view(self.target_keycloak_user_id),
            target_matrix_user_id: opt_view(self.target_matrix_user_id),
            action: self.action@,
            result: self.result,
            metadata: meta_views(self.metadata@),
        }
    }
}

impl Command {
    pub open spec fn view(&self) -> CommandView {
        match self {
            Command::GetUser { user_id } => CommandView::GetUser { user_id: user_id@ },
            Command::FindUserByEmail { email } => CommandView::FindUserByEmail { email: email@ },
            Command::CountUsers { query } => CommandView::CountUsers { query: query@ },
            Command::SearchUsers { query, max, first } => CommandView::SearchUsers {
                query: query@,
                max: *max,
                first: *first,
            },
            Command::GetUserGroups { user_id } => CommandView::GetUserGroups { user_id: user_id@ },
            Command::GetUserRoles { user_id } => CommandView::GetUserRoles { user_id: user_id@ },
            Command::CreateUser { username, email } => CommandView::CreateUser {
                username: username@,
                email: email@,
            },
            Command::SendInviteEmail { user_id } => CommandView::SendInviteEmail {
                user_id: user_id@,
            },
            Command::LogoutUser { user_id } => CommandView::LogoutUser { user_id: user_id@ },
            Command::DisableUser { user_id } => CommandView::DisableUser { user_id: user_id@ },
            Command::EnableUser { user_id } => CommandView::EnableUser { user_id: user_id@ },
            Command::DeleteUser { user_id } => CommandView::DeleteUser { user_id: user_id@ },
            Command::ListGroups => CommandView::ListGroups,
            Command::ListRealmRoles => CommandView::ListRealmRoles,
            Command::AddUserToGroup { user_id, group_id } => CommandView::AddUserToGroup {
                user_id: user_id@,
                group_id: group_id@,
            },
            Command::AssignRealmRoles { user_id, roles } => CommandView::AssignRealmRoles {
                user_id: user_id@,
                roles: role_views(roles@),
            },
            Command::FindAuthUser { username } => CommandView::FindAuthUser {
                username: username@,
            },
            Command::ListAuthSessions { auth_user_id } => CommandView::ListAuthSessions {
                auth_user_id: auth_user_id@,
            },
            Command::FinishAuthSession { session_id, session_type } =>
                CommandView::FinishAuthSession {
                session_id: session_id@,
                session_type: session_type@,
            },
            Command::DeactivateAuthUser { auth_user_id } => CommandView::DeactivateAuthUser {
                auth_user_id: auth_user_id@,
            },
            Command::ReactivateAuthUser { auth_user_id } => CommandView::ReactivateAuthUser {
                auth_user_id: auth_user_id@,
            },
            Command::GetSpaceChildren { room_id } => CommandView::GetSpaceChildren {
                room_id: room_id@,
            },
            Command::GetRoomMembers { room_id } => CommandView::GetRoomMembers {
                room_id: room_id@,
            },
            Command::ForceJoin { user_id, room_id } => CommandView::ForceJoin {
                user_id: user_id@,
                room_id: room_id@,
            },
            Command::Kick { user_id, room_id, reason } => CommandView::Kick {
                user_id: user_id@,
                room_id: room_id@,
                reason: reason@,
            },
            Command::SetPowerLevel { room_id, user_id, level } => CommandView::SetPowerLevel {
                room_id: room_id@,
                user_id: user_id@,
                level: *level,
            },
            Command::ListBindings => CommandView::ListBindings,
            Command::CreateBinding(b) => CommandView::CreateBinding(*b),
            Command::HasBootstrapped => CommandView::HasBootstrapped,
            Command::MarkBootstrapped { source, at } => CommandView::MarkBootstrapped {
                source: source@,
                at: at@,
            },
            Command::ListRooms { limit, from } => CommandView::ListRooms {
                limit: *limit,
                from: opt_view(*from),
            },
            Command::UpsertCachedRoom(r) => CommandView::UpsertCachedRoom(*r),
            Command::WriteAudit(r) => CommandView::WriteAudit(r.view()),
        }
    }
}

/// The view of a step: the command asked for, or the finishing result.
pub enum StepView<T> {
    Run(CommandView),
    Finished(Result<T, AppError>),
}

impl<T> Step<T> {
    pub open spec fn view(&self) -> StepView<T> {
        match self {
            Step::Run(c) => StepView::Run(c.view()),
            Step::Finished(r) => StepView::Finished(*r),
        }
    }
}

/// The characters of `<prefix><e>` for an error `e`.
pub open spec fn err_msg(prefix: Seq<char>, e: AppError) -> Seq<char> {
    prefix + e.message_view()
}

/// `<prefix><e>` for an error `e`.
pub fn error_message(prefix: &str, e: &AppError) -> (res: String)
    ensures
        res@ == err_msg(prefix@, *e),
{
    let m = e.to_message();
    let s = String::from_str(prefix);
    s.concat(m.as_str())
}

/// The error a workflow finishes with when resumed with a reply it did not
/// ask for.
pub open spec fn is_protocol_error(e: AppError) -> bool {
    e matches AppError::Internal(m) && m@ == "unexpected reply"@
}

/// The protocol error.
pub fn protocol_error() -> (res: AppError)
    ensures
        is_protocol_error(res),
{
    AppError::Internal(String::from_str("unexpected reply"))
}

/// What a workflow step does, by value: ask for a command, finish with a
/// result's view, fail with an error, reject its input with a validation
/// error of the given message, or fail on a reply it did not ask for.
pub enum Expect<V> {
    Run(CommandView),
    Finish(V),
    Fail(AppError),
    Reject(Seq<char>),
    Unexpected,
}

/// Whether `e` is a validation error with the message `m`.
pub open spec fn is_rejection(e: AppError, m: Seq<char>) -> bool {
    e matches AppError::Validation(x) && x@ == m
}

/// Whether a step of a workflow finishing with warnings is the expected one.
pub open spec fn outcome_step_is(s: Step<WorkflowOutcome>, e: Expect<Seq<Seq<char>>>) -> bool {
    match (s, e) {
        (Step::Run(c), Expect::Run(cv)) => c.view() == cv,
        (Step::Finished(Ok(o)), Expect::Finish(w)) => views(o.warnings@) == w,
        (Step::Finished(Err(x)), Expect::Fail(y)) => x == y,
        (Step::Finished(Err(x)), Expect::Unexpected) => is_protocol_error(x),
        _ => false,
    }
}

} // verus!
