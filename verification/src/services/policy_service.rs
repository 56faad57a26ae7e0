//! Policy bindings: which bindings apply to a user, the records a change
//! writes, refreshing the room cache from Synapse, and the one-time import
//! of the legacy group mappings.

use vstd::prelude::*;

use crate::error::AppError;
use crate::models::audit::AuditResult;
use crate::models::group_mapping::GroupMapping;
use crate::models::policy_binding::{CachedRoom, PolicyBinding, PolicySubject, PolicyTarget};
use crate::models::synapse::RoomList;
use crate::services::audit_service::{is_uuid_v4_text, new_uuid_v4, AuditRecord, MetaValue};
use crate::services::protocol::{
    is_protocol_error, meta_views, protocol_error, AuditView, Command, CommandView, Expect,
    MetaView, Reply, Step,
};
use crate::services::reconcile_membership::{binding_matches, user_matches_binding};

verus! {

// ── Which bindings apply ─────────────────────────────────────────────────────

/// The bindings whose subject a user with these groups and roles has, in
/// order. Space targets are not expanded here.
pub open spec fn effective(bs: Seq<PolicyBinding>, groups: Seq<String>, roles: Seq<String>) -> Seq<
    PolicyBinding,
>
    decreases bs.len(),
{
    if bs.len() == 0 {
        Seq::empty()
    } else {
        let rest = effective(bs.drop_last(), groups, roles);
        if binding_matches(bs.last().subject, groups, roles) {
            rest.push(bs.last())
        } else {
            rest
        }
    }
}

/// The bindings that apply to a user with the given groups and roles.
pub fn effective_bindings_for_user<'a>(
    bindings: &'a [PolicyBinding],
    user_groups: &[String],
    user_roles: &[String],
) -> (res: Vec<&'a PolicyBinding>)
    ensures
        res@.map_values(|r: &PolicyBinding| *r) == effective(bindings@, user_groups@, user_roles@),
{
    let mut out: Vec<&'a PolicyBinding> = Vec::new();
    let mut i: usize = 0;
    while i < bindings.len()
        invariant
            i <= bindings@.len(),
            out@.map_values(|r: &PolicyBinding| *r) == effective(
                bindings@.take(i as int),
                user_groups@,
                user_roles@,
            ),
        decreases bindings@.len() - i,
    {
        let b = &bindings[i];
        assert(bindings@.take(i + 1).drop_last() =~= bindings@.take(i as int));
        if user_matches_binding(b, user_groups, user_roles) {
            let ghost before = out@;
            out.push(b);
            assert(out@.map_values(|r: &PolicyBinding| *r) =~= before.map_values(
                |r: &PolicyBinding| *r,
            ).push(*b));
        }
        i = i + 1;
    }
    assert(bindings@.take(bindings@.len() as int) =~= bindings@);
    out
}

// ── Records of binding changes ───────────────────────────────────────────────

/// Calls `chrono::Utc::now` and formats it with `to_rfc3339`. The value is
/// the time of the call, so nothing is stated of it.
#[verifier::external_body]
pub(crate) fn utc_now_rfc3339() -> (res: String) {
    chrono::Utc::now().to_rfc3339()
}

/// A binding with the given fields, created and updated at `now`.
pub fn binding_record(
    id: String,
    subject: PolicySubject,
    target: PolicyTarget,
    power_level: Option<i64>,
    allow_remove: bool,
    now: String,
) -> (res: PolicyBinding)
    ensures
        res.id == id,
        res.subject == subject,
        res.target == target,
        res.power_level == power_level,
        res.allow_remove == allow_remove,
        res.created_at == now,
        res.updated_at == now,
{
    PolicyBinding {
        id,
        subject,
        target,
        power_level,
        allow_remove,
        created_at: now.clone(),
        updated_at: now,
    }
}

/// A new binding: a fresh random id, the given fields, stamped now.
pub fn new_binding(
    subject: PolicySubject,
    target: PolicyTarget,
    power_level: Option<i64>,
    allow_remove: bool,
) -> (res: PolicyBinding)
    ensures
        is_uuid_v4_text(res.id@),
        res.subject == subject,
        res.target == target,
        res.power_level == power_level,
        res.allow_remove == allow_remove,
        res.created_at == res.updated_at,
{
    let id = new_uuid_v4();
    let now = utc_now_rfc3339();
    binding_record(id, subject, target, power_level, allow_remove, now)
}

/// An audit entry of a binding change by an admin; no user is targeted.
pub open spec fn binding_audit(
    actor_subject: Seq<char>,
    actor_username: Seq<char>,
    action: Seq<char>,
    metadata: Seq<(Seq<char>, MetaView)>,
) -> AuditView {
    AuditView {
        admin_subject: actor_subject,
        admin_username: actor_username,
        target_keycloak_user_id: None,
        target_matrix_user_id: None,
        action,
        result: AuditResult::Success,
        metadata,
    }
}

fn binding_record_of(
    actor_subject: &str,
    actor_username: &str,
    action: &str,
    metadata: Vec<(String, MetaValue)>,
) -> (res: AuditRecord)
    ensures
        res.view() == binding_audit(actor_subject@, actor_username@, action@, meta_views(metadata@)),
{
    AuditRecord {
        admin_subject: String::from_str(actor_subject),
        admin_username: String::from_str(actor_username),
        target_keycloak_user_id: None,
        target_matrix_user_id: None,
        action: String::from_str(action),
        result: AuditResult::Success,
        metadata,
    }
}

/// The audit entry of a created binding.
pub open spec fn created_audit(
    actor_subject: Seq<char>,
    actor_username: Seq<char>,
    b: PolicyBinding,
) -> AuditView {
    binding_audit(
        actor_subject,
        actor_username,
        "create_policy_binding"@,
        seq![
            ("binding_id"@, MetaView::Str(b.id@)),
            ("subject"@, MetaView::Str(b.subject.text())),
            ("target_room_id"@, MetaView::Str(b.target.id()@)),
            ("power_level"@, MetaView::OptInt(b.power_level)),
            ("allow_remove"@, MetaView::Bool(b.allow_remove)),
        ],
    )
}

/// The audit entry of a created binding.
pub fn binding_created_record(actor_subject: &str, actor_username: &str, b: &PolicyBinding) -> (res:
    AuditRecord)
    ensures
        res.view() == created_audit(actor_subject@, actor_username@, *b),
{
    let metadata = vec![
        (String::from_str("binding_id"), MetaValue::Str(b.id.clone())),
        (String::from_str("subject"), MetaValue::Str(b.subject.to_string())),
        (String::from_str("target_room_id"), MetaValue::Str(b.target.id_string())),
        (String::from_str("power_level"), MetaValue::OptInt(b.power_level)),
        (String::from_str("allow_remove"), MetaValue::Bool(b.allow_remove)),
    ];
    let rec = binding_record_of(actor_subject, actor_username, "create_policy_binding", metadata);
    assert(rec.view().metadata =~= created_audit(actor_subject@, actor_username@, *b).metadata);
    rec
}

/// The audit entry of an updated binding.
pub open spec fn updated_audit(
    actor_subject: Seq<char>,
    actor_username: Seq<char>,
    id: Seq<char>,
    power_level: Option<i64>,
    allow_remove: bool,
) -> AuditView {
    binding_audit(
        actor_subject,
        actor_username,
        "update_policy_binding"@,
        seq![
            ("binding_id"@, MetaView::Str(id)),
            ("power_level"@, MetaView::OptInt(power_level)),
            ("allow_remove"@, MetaView::Bool(allow_remove)),
        ],
    )
}

/// The audit entry of an updated binding.
pub fn binding_updated_record(
    actor_subject: &str,
    actor_username: &str,
    id: &str,
    power_level: Option<i64>,
    allow_remove: bool,
) -> (res: AuditRecord)
    ensures
        res.view() == updated_audit(actor_subject@, actor_username@, id@, power_level, allow_remove),
{
    let metadata = vec![
        (String::from_str("binding_id"), MetaValue::Str(String::from_str(id))),
        (String::from_str("power_level"), MetaValue::OptInt(power_level)),
        (String::from_str("allow_remove"), MetaValue::Bool(allow_remove)),
    ];
    let rec = binding_record_of(actor_subject, actor_username, "update_policy_binding", metadata);
    assert(rec.view().metadata =~= updated_audit(
        actor_subject@,
        actor_username@,
        id@,
        power_level,
        allow_remove,
    ).metadata);
    rec
}

/// The audit entry of a deleted binding.
pub open spec fn deleted_audit(actor_subject: Seq<char>, actor_username: Seq<char>, id: Seq<char>) -> AuditView {
    binding_audit(
        actor_subject,
        actor_username,
        "delete_policy_binding"@,
        seq![("binding_id"@, MetaView::Str(id))],
    )
}

/// The audit entry of a deleted binding.
pub fn binding_deleted_record(actor_subject: &str, actor_username: &str, id: &str) -> (res: AuditRecord)
    ensures
        res.view() == deleted_audit(actor_subject@, actor_username@, id@),
{
    let metadata = vec![(String::from_str("binding_id"), MetaValue::Str(String::from_str(id)))];
    let rec = binding_record_of(actor_subject, actor_username, "delete_policy_binding", metadata);
    assert(rec.view().metadata =~= deleted_audit(actor_subject@, actor_username@, id@).metadata);
    rec
}


// ── Refreshing the room cache ────────────────────────────────────────────────

/// Rooms asked for per page of the room list.
pub const ROOM_PAGE_SIZE: u32 = 100;

/// The stage of a room cache refresh.
pub enum RefreshStage {
    Listing,
    Checking,
    Upserting,
    Done,
}

/// The state of a room cache refresh, by value.
pub struct RefreshView {
    /// When the refresh started; every cached room is stamped with it.
    pub now: String,
    pub page: Seq<crate::models::synapse::RoomListEntry>,
    pub next_batch: Option<String>,
    /// The room of the page being cached.
    pub index: nat,
    /// The rooms cached so far.
    pub count: nat,
    pub stage: RefreshStage,
}

/// Caches room `i` of the page: first asks whether it is a space; after
/// the page, asks for the next one, or finishes when there is none.
pub open spec fn refresh_at(v: RefreshView, i: nat) -> (RefreshView, Expect<nat>) {
    if i < v.page.len() {
        (
            RefreshView { index: i, stage: RefreshStage::Checking, ..v },
            Expect::Run(CommandView::GetSpaceChildren { room_id: v.page[i as int].room_id@ }),
        )
    } else {
        match v.next_batch {
            Some(t) => (
                RefreshView { stage: RefreshStage::Listing, ..v },
                Expect::Run(CommandView::ListRooms { limit: ROOM_PAGE_SIZE, from: Some(t@) }),
            ),
            None => (RefreshView { stage: RefreshStage::Done, ..v }, Expect::Finish(v.count)),
        }
    }
}

/// The cache entry of a listed room: a space when it has children (a
/// failed lookup counts as none).
pub open spec fn cached_room(
    e: crate::models::synapse::RoomListEntry,
    children: Result<Vec<String>, AppError>,
    now: String,
) -> CachedRoom {
    CachedRoom {
        room_id: e.room_id,
        name: e.name,
        canonical_alias: e.canonical_alias,
        parent_space_id: None,
        is_space: match children {
            Ok(c) => c@.len() > 0,
            Err(_) => false,
        },
        last_seen_at: now,
    }
}

/// How a refresh proceeds from state `v` when resumed with `reply`.
pub open spec fn refresh_next(v: RefreshView, reply: Reply) -> (RefreshView, Expect<nat>) {
    let done = RefreshView { stage: RefreshStage::Done, ..v };
    match (v.stage, reply) {
        (RefreshStage::Listing, Reply::Rooms(Ok(list))) => refresh_at(
            RefreshView { page: list.rooms@, next_batch: list.next_batch, ..v },
            0,
        ),
        (RefreshStage::Listing, Reply::Rooms(Err(e))) => (done, Expect::Fail(e)),
        (RefreshStage::Checking, Reply::RoomIds(r)) => (
            RefreshView { stage: RefreshStage::Upserting, ..v },
            Expect::Run(CommandView::UpsertCachedRoom(cached_room(v.page[v.index as int], r, v.now))),
        ),
        (RefreshStage::Upserting, Reply::Unit(Ok(_))) => refresh_at(
            RefreshView { count: v.count + 1, ..v },
            v.index + 1,
        ),
        (RefreshStage::Upserting, Reply::Unit(Err(e))) => (done, Expect::Fail(e)),
        _ => (done, Expect::Unexpected),
    }
}

/// Whether a step of a counting workflow is the expected one.
pub open spec fn count_step_is(s: Step<usize>, e: Expect<nat>) -> bool {
    match (s, e) {
        (Step::Run(c), Expect::Run(cv)) => c.view() == cv,
        (Step::Finished(Ok(n)), Expect::Finish(m)) => n == m,
        (Step::Finished(Err(x)), Expect::Fail(y)) => x == y,
        (Step::Finished(Err(x)), Expect::Unexpected) => is_protocol_error(x),
        _ => false,
    }
}

/// Whether a reply keeps the count of cached rooms within `usize`.
pub open spec fn refresh_reply_fits(v: RefreshView, reply: Reply) -> bool {
    (v.stage is Upserting && reply matches Reply::Unit(Ok(_))) ==> v.count < usize::MAX
}

/// A refresh of the room cache from the Synapse room list.
pub struct RoomCacheRefresher {
    now: String,
    page: Vec<crate::models::synapse::RoomListEntry>,
    next_batch: Option<String>,
    index: usize,
    count: usize,
    stage: RefreshStage,
}

impl RoomCacheRefresher {
    pub closed spec fn view(&self) -> RefreshView {
        RefreshView {
            now: self.now,
            page: self.page@,
            next_batch: self.next_batch,
            index: self.index as nat,
            count: self.count as nat,
            stage: self.stage,
        }
    }

    /// A room is being cached only while one of the page is left.
    pub closed spec fn wf(&self) -> bool {
        (self.stage is Checking || self.stage is Upserting) ==> self.index < self.page@.len()
    }

    /// The number of rooms cached so far.
    pub fn rooms_cached(&self) -> (res: usize)
        ensures
            res == self.view().count,
    {
        self.count
    }

    fn refresh_at(&mut self, i: usize) -> (res: Step<usize>)
        ensures
            final(self).wf(),
            final(self).view() == refresh_at(old(self).view(), i as nat).0,
            count_step_is(res, refresh_at(old(self).view(), i as nat).1),
    {
        if i < self.page.len() {
            self.index = i;
            self.stage = RefreshStage::Checking;
            Step::Run(Command::GetSpaceChildren { room_id: self.page[i].room_id.clone() })
        } else {
            match &self.next_batch {
                Some(t) => {
                    self.stage = RefreshStage::Listing;
                    Step::Run(Command::ListRooms { limit: 100, from: Some(t.clone()) })
                },
                None => {
                    self.stage = RefreshStage::Done;
                    Step::Finished(Ok(self.count))
                },
            }
        }
    }

    /// Starts a refresh stamped with the current time: the first step lists
    /// the first page of rooms.
    pub fn start() -> (res: (Self, Step<usize>))
        ensures
            res.0.wf(),
            res.0.view().page.len() == 0,
            res.0.view().next_batch is None,
            res.0.view().index == 0,
            res.0.view().count == 0,
            res.0.view().stage is Listing,
            res.1 matches Step::Run(c) && c.view() == (CommandView::ListRooms {
                limit: ROOM_PAGE_SIZE,
                from: None,
            }),
    {
        let m = RoomCacheRefresher {
            now: utc_now_rfc3339(),
            page: Vec::new(),
            next_batch: None,
            index: 0,
            count: 0,
            stage: RefreshStage::Listing,
        };
        (m, Step::Run(Command::ListRooms { limit: 100, from: None }))
    }

    /// Resumes the refresh with the reply to its last command.
    pub fn resume(&mut self, reply: Reply) -> (res: Step<usize>)
        requires
            old(self).wf(),
            refresh_reply_fits(old(self).view(), reply),
        ensures
            final(self).wf(),
            final(self).view() == refresh_next(old(self).view(), reply).0,
            count_step_is(res, refresh_next(old(self).view(), reply).1),
    {
        let ghost was_busy = self.stage is Checking || self.stage is Upserting;
        let mut stage = RefreshStage::Done;
        core::mem::swap(&mut stage, &mut self.stage);
        let n = self.page.len();
        assert(was_busy ==> self.index < n);
        match (stage, reply) {
            (RefreshStage::Listing, Reply::Rooms(Ok(list))) => {
                self.page = list.rooms;
                self.next_batch = list.next_batch;
                self.refresh_at(0)
            },
            (RefreshStage::Listing, Reply::Rooms(Err(e))) => Step::Finished(Err(e)),
            (RefreshStage::Checking, Reply::RoomIds(r)) => {
                let e = &self.page[self.index];
                let is_space = match &r {
                    Ok(c) => c.len() > 0,
                    Err(_) => false,
                };
                let cached = CachedRoom {
                    room_id: e.room_id.clone(),
                    name: match &e.name {
                        Some(n) => Some(n.clone()),
                        None => None,
                    },
                    canonical_alias: match &e.canonical_alias {
                        Some(a) => Some(a.clone()),
                        None => None,
                    },
                    parent_space_id: None,
                    is_space,
                    last_seen_at: self.now.clone(),
                };
                self.stage = RefreshStage::Upserting;
                Step::Run(Command::UpsertCachedRoom(cached))
            },
            (RefreshStage::Upserting, Reply::Unit(Ok(_))) => {
                self.count = self.count + 1;
                let next = self.index + 1;
                self.refresh_at(next)
            },
            (RefreshStage::Upserting, Reply::Unit(Err(e))) => Step::Finished(Err(e)),
            (_, _) => Step::Finished(Err(protocol_error())),
        }
    }
}

// ── Importing the legacy group mappings ──────────────────────────────────────

/// The stage of an import of the legacy group mappings.
pub enum BootstrapStage {
    Checking,
    Creating,
    Marking,
    Done,
}

/// The state of an import, by value.
pub struct BootstrapView {
    pub mappings: Seq<GroupMapping>,
    pub source: Seq<char>,
    /// The ids of the bindings to create, one per mapping.
    pub ids: Seq<String>,
    pub now: String,
    /// The mapping being imported.
    pub index: nat,
    /// The bindings created so far.
    pub count: nat,
    pub stage: BootstrapStage,
}

/// The binding imported from mapping `i`: its group to its room, no power
/// level, never removing.
pub open spec fn imported_binding(v: BootstrapView, i: int) -> PolicyBinding {
    PolicyBinding {
        id: v.ids[i],
        subject: PolicySubject::Group(v.mappings[i].keycloak_group),
        target: PolicyTarget::Room(v.mappings[i].matrix_room_id),
        power_level: None,
        allow_remove: false,
        created_at: v.now,
        updated_at: v.now,
    }
}

/// Imports mapping `i`, or records the import when none is left.
pub open spec fn import_at(v: BootstrapView, i: nat) -> (BootstrapView, Expect<nat>) {
    if i < v.mappings.len() {
        (
            BootstrapView { index: i, stage: BootstrapStage::Creating, ..v },
            Expect::Run(CommandView::CreateBinding(imported_binding(v, i as int))),
        )
    } else {
        (
            BootstrapView { stage: BootstrapStage::Marking, ..v },
            Expect::Run(CommandView::MarkBootstrapped { source: v.source, at: v.now@ }),
        )
    }
}

/// How an import proceeds from state `v` when resumed with `reply`: nothing
/// is imported twice; a binding that cannot be stored is skipped.
pub open spec fn bootstrap_next(v: BootstrapView, reply: Reply) -> (BootstrapView, Expect<nat>) {
    let done = BootstrapView { stage: BootstrapStage::Done, ..v };
    match (v.stage, reply) {
        (BootstrapStage::Checking, Reply::Flag(Ok(true))) => (done, Expect::Finish(0)),
        (BootstrapStage::Checking, Reply::Flag(Ok(false))) => import_at(v, 0),
        (BootstrapStage::Checking, Reply::Flag(Err(e))) => (done, Expect::Fail(e)),
        (BootstrapStage::Creating, Reply::Unit(r)) => import_at(
            BootstrapView {
                count: if r is Ok {
                    v.count + 1
                } else {
                    v.count
                },
                ..v
            },
            v.index + 1,
        ),
        (BootstrapStage::Marking, Reply::Unit(Ok(_))) => (done, Expect::Finish(v.count)),
        (BootstrapStage::Marking, Reply::Unit(Err(e))) => (done, Expect::Fail(e)),
        _ => (done, Expect::Unexpected),
    }
}

/// An import of the legacy group mappings as policy bindings, done once.
pub struct Bootstrapper {
    mappings: Vec<GroupMapping>,
    source: String,
    ids: Vec<String>,
    now: String,
    index: usize,
    count: usize,
    stage: BootstrapStage,
}

impl Bootstrapper {
    pub closed spec fn view(&self) -> BootstrapView {
        BootstrapView {
            mappings: self.mappings@,
            source: self.source@,
            ids: self.ids@,
            now: self.now,
            index: self.index as nat,
            count: self.count as nat,
            stage: self.stage,
        }
    }

    /// There is an id per mapping, and at most one binding per mapping
    /// imported so far.
    pub closed spec fn wf(&self) -> bool {
        &&& self.ids@.len() == self.mappings@.len()
        &&& self.stage is Checking ==> self.count == 0
        &&& self.stage is Creating ==> self.count <= self.index < self.mappings@.len()
        &&& !(self.stage is Creating) ==> self.count <= self.mappings@.len()
    }

    fn import_at(&mut self, i: usize) -> (res: Step<usize>)
        requires
            old(self).ids@.len() == old(self).mappings@.len(),
            old(self).count <= i,
            old(self).count <= old(self).mappings@.len(),
        ensures
            final(self).wf(),
            final(self).view() == import_at(old(self).view(), i as nat).0,
            count_step_is(res, import_at(old(self).view(), i as nat).1),
    {
        if i < self.mappings.len() {
            self.index = i;
            self.stage = BootstrapStage::Creating;
            let m = &self.mappings[i];
            let now = self.now.clone();
            let b = binding_record(
                self.ids[i].clone(),
                PolicySubject::Group(m.keycloak_group.clone()),
                PolicyTarget::Room(m.matrix_room_id.clone()),
                None,
                false,
                now,
            );
            Step::Run(Command::CreateBinding(b))
        } else {
            self.stage = BootstrapStage::Marking;
            Step::Run(
                Command::MarkBootstrapped { source: self.source.clone(), at: self.now.clone() },
            )
        }
    }

    /// Starts importing `mappings` from `source`, with a fresh id per
    /// mapping and the current time: the first step asks whether an import
    /// was done already.
    pub fn start(mappings: Vec<GroupMapping>, source: &str) -> (res: (Self, Step<usize>))
        ensures
            res.0.wf(),
            res.0.view().mappings == mappings@,
            res.0.view().source == source@,
            res.0.view().ids.len() == mappings@.len(),
            forall|i: int|
                0 <= i < mappings@.len() ==> is_uuid_v4_text(#[trigger] res.0.view().ids[i]@),
            res.0.view().index == 0,
            res.0.view().count == 0,
            res.0.view().stage is Checking,
            res.1 matches Step::Run(c) && c.view() == CommandView::HasBootstrapped,
    {
        let mut ids: Vec<String> = Vec::new();
        let mut i: usize = 0;
        while i < mappings.len()
            invariant
                i <= mappings@.len(),
                ids@.len() == i,
                forall|k: int| 0 <= k < i ==> is_uuid_v4_text(#[trigger] ids@[k]@),
            decreases mappings@.len() - i,
        {
            ids.push(new_uuid_v4());
            i = i + 1;
        }
        let m = Bootstrapper {
            mappings,
            source: String::from_str(source),
            ids,
            now: utc_now_rfc3339(),
            index: 0,
            count: 0,
            stage: BootstrapStage::Checking,
        };
        (m, Step::Run(Command::HasBootstrapped))
    }

    /// Resumes the import with the reply to its last command.
    pub fn resume(&mut self, reply: Reply) -> (res: Step<usize>)
        requires
            old(self).wf(),
        ensures
            final(self).wf(),
            final(self).view() == bootstrap_next(old(self).view(), reply).0,
            count_step_is(res, bootstrap_next(old(self).view(), reply).1),
    {
        let ghost was_checking = self.stage is Checking;
        let ghost was_creating = self.stage is Creating;
        let mut stage = BootstrapStage::Done;
        core::mem::swap(&mut stage, &mut self.stage);
        let n = self.mappings.len();
        assert(was_checking ==> self.count == 0);
        assert(was_creating ==> self.count <= self.index < n);
        match (stage, reply) {
            (BootstrapStage::Checking, Reply::Flag(Ok(done))) => {
                if done {
                    Step::Finished(Ok(0))
                } else {
                    self.import_at(0)
                }
            },
            (BootstrapStage::Checking, Reply::Flag(Err(e))) => Step::Finished(Err(e)),
            (BootstrapStage::Creating, Reply::Unit(r)) => {
                if r.is_ok() {
                    self.count = self.count + 1;
                }
                let next = self.index + 1;
                self.import_at(next)
            },
            (BootstrapStage::Marking, Reply::Unit(Ok(_))) => Step::Finished(Ok(self.count)),
            (BootstrapStage::Marking, Reply::Unit(Err(e))) => Step::Finished(Err(e)),
            (_, _) => Step::Finished(Err(protocol_error())),
        }
    }
}

} // verus!
