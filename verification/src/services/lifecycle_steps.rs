//! Steps shared by the lifecycle workflows (disable, offboard, reactivate),
//! each a small state machine composed by the workflows.

use vstd::prelude::*;

use crate::error::AppError;
use crate::models::audit::AuditResult;
use crate::models::mas::MasSession;
use crate::models::policy_binding::PolicyBinding;
use crate::models::workflow::WorkflowOutcome;
use crate::services::audit_service::{AuditRecord, MetaValue};
use crate::services::protocol::{
    error_message, err_msg, is_protocol_error, outcome_step_is, protocol_error, AuditView, Command,
    CommandView, Expect, MetaView, Reply, Step,
};
use crate::services::reconcile_membership::{
    children_warnings, copy_strings, expand_targets, expanded,
};
use crate::text::{cat, cat3, contains_str, rev, reversed, seq_has_str, views};

verus! {

// ── An outside call followed by its audit entry ─────────────────────────────

/// The result of an audited call: what the call returned and what writing
/// its audit entry returned.
pub struct CallResult {
    pub call: Result<(), AppError>,
    pub audit: Result<(), AppError>,
}

/// The phase of an audited call.
pub enum CallPhase {
    Calling,
    Auditing(Result<(), AppError>),
    Done,
}

/// The state of an audited call, by value.
#[verifier::ext_equal]
pub struct CallView {
    /// The audit entry to write, with its result not yet decided.
    pub audit: AuditView,
    pub phase: CallPhase,
}

/// The audit view with the result that a call's outcome gives it.
pub open spec fn with_result(a: AuditView, r: Result<(), AppError>) -> AuditView {
    AuditView {
        result: if r is Ok {
            AuditResult::Success
        } else {
            AuditResult::Failure
        },
        ..a
    }
}

/// How an audited call proceeds: the call's reply leads to writing the
/// audit entry with the call's result; the audit reply finishes it.
pub open spec fn call_next(v: CallView, reply: Reply) -> (CallView, Expect<CallResult>) {
    match (v.phase, reply) {
        (CallPhase::Calling, Reply::Unit(r)) => (
            CallView { phase: CallPhase::Auditing(r), ..v },
            Expect::Run(CommandView::WriteAudit(with_result(v.audit, r))),
        ),
        (CallPhase::Auditing(r), Reply::Unit(a)) => (
            CallView { phase: CallPhase::Done, ..v },
            Expect::Finish(CallResult { call: r, audit: a }),
        ),
        _ => (CallView { phase: CallPhase::Done, ..v }, Expect::Unexpected),
    }
}

/// Whether a step of an audited call is the expected one.
pub open spec fn call_step_is(s: Step<CallResult>, e: Expect<CallResult>) -> bool {
    match (s, e) {
        (Step::Run(c), Expect::Run(cv)) => c.view() == cv,
        (Step::Finished(Ok(r)), Expect::Finish(x)) => r == x,
        (Step::Finished(Err(x)), Expect::Unexpected) => is_protocol_error(x),
        _ => false,
    }
}

/// An outside call whose outcome is written to the audit log.
pub struct AuditedCall {
    audit: AuditRecord,
    phase: CallPhase,
}

impl AuditedCall {
    pub closed spec fn view(&self) -> CallView {
        CallView { audit: self.audit.view(), phase: self.phase }
    }

    /// A call about to be made, whose outcome goes into `audit`.
    pub fn new(audit: AuditRecord) -> (res: Self)
        ensures
            res.view() == (CallView { audit: audit.view(), phase: CallPhase::Calling }),
    {
        AuditedCall { audit, phase: CallPhase::Calling }
    }

    /// Resumes the call with the reply to its last command.
    pub fn resume(&mut self, reply: Reply) -> (res: Step<CallResult>)
        ensures
            final(self).view() == call_next(old(self).view(), reply).0,
            call_step_is(res, call_next(old(self).view(), reply).1),
    {
        let mut phase = CallPhase::Done;
        core::mem::swap(&mut phase, &mut self.phase);
        match (phase, reply) {
            (CallPhase::Calling, Reply::Unit(r)) => {
                let mut rec = AuditRecord {
                    admin_subject: String::new(),
                    admin_username: String::new(),
                    target_keycloak_user_id: None,
                    target_matrix_user_id: None,
                    action: String::new(),
                    result: AuditResult::Success,
                    metadata: Vec::new(),
                };
                core::mem::swap(&mut rec, &mut self.audit);
                let kept = rec.result;
                rec.result = AuditResult::of(&r);
                let mut copy = copy_record(&rec);
                copy.result = kept;
                self.audit = copy;
                self.phase = CallPhase::Auditing(r);
                Step::Run(Command::WriteAudit(rec))
            },
            (CallPhase::Auditing(r), Reply::Unit(a)) => {
                Step::Finished(Ok(CallResult { call: r, audit: a }))
            },
            (_, _) => Step::Finished(Err(protocol_error())),
        }
    }
}

/// A copy of a metadata value.
pub fn copy_meta(m: &MetaValue) -> (res: MetaValue)
    ensures
        res.view() == m.view(),
{
    match m {
        MetaValue::Str(s) => MetaValue::Str(s.clone()),
        MetaValue::OptStr(s) => MetaValue::OptStr(
            match s {
                Some(x) => Some(x.clone()),
                None => None,
            },
        ),
        MetaValue::OptInt(i) => MetaValue::OptInt(*i),
        MetaValue::Bool(b) => MetaValue::Bool(*b),
        MetaValue::StrList(v) => MetaValue::StrList(copy_strings(v)),
    }
}

/// A copy of an audit record.
pub fn copy_record(r: &AuditRecord) -> (res: AuditRecord)
    ensures
        res.view() == r.view(),
{
    let mut metadata: Vec<(String, MetaValue)> = Vec::new();
    let mut i: usize = 0;
    while i < r.metadata.len()
        invariant
            i <= r.metadata@.len(),
            crate::services::protocol::meta_views(metadata@)
                == crate::services::protocol::meta_views(r.metadata@.take(i as int)),
        decreases r.metadata@.len() - i,
    {
        let pair = &r.metadata[i];
        let ghost before = metadata@;
        let item = (pair.0.clone(), copy_meta(&pair.1));
        metadata.push(item);
        assert(r.metadata@.take(i + 1) =~= r.metadata@.take(i as int).push(*pair));
        assert(crate::services::protocol::meta_views(metadata@) =~= crate::services::protocol::meta_views(before).push((pair.0@, pair.1.view())));
        assert(crate::services::protocol::meta_views(r.metadata@.take(i + 1)) =~= crate::services::protocol::meta_views(r.metadata@.take(i as int)).push((pair.0@, pair.1.view())));
        i = i + 1;
    }
    assert(r.metadata@.take(r.metadata@.len() as int) =~= r.metadata@);
    AuditRecord {
        admin_subject: r.admin_subject.clone(),
        admin_username: r.admin_username.clone(),
        target_keycloak_user_id: match &r.target_keycloak_user_id {
            Some(x) => Some(x.clone()),
            None => None,
        },
        target_matrix_user_id: match &r.target_matrix_user_id {
            Some(x) => Some(x.clone()),
            None => None,
        },
        action: r.action.clone(),
        result: r.result,
        metadata,
    }
}


// ── Revoking all active MAS sessions ─────────────────────────────────────────

/// The sessions of a list that have not finished, in order.
pub open spec fn active_sessions(ss: Seq<MasSession>) -> Seq<MasSession>
    decreases ss.len(),
{
    if ss.len() == 0 {
        Seq::empty()
    } else {
        let rest = active_sessions(ss.drop_last());
        if ss.last().finished_at is None {
            rest.push(ss.last())
        } else {
            rest
        }
    }
}

/// The phase of a session revocation.
pub enum RevokePhase {
    LookingUp,
    Listing,
    Finishing,
    Auditing(Result<(), AppError>),
    Done,
}

/// The state of a session revocation, by value.
#[verifier::ext_equal]
pub struct RevokeView {
    pub context: Seq<char>,
    pub keycloak_id: Seq<char>,
    pub username: Seq<char>,
    pub matrix_user_id: Seq<char>,
    pub admin_subject: Seq<char>,
    pub admin_username: Seq<char>,
    pub sessions: Seq<MasSession>,
    pub next: nat,
    pub phase: RevokePhase,
    pub warnings: Seq<Seq<char>>,
}

/// The audit entry of a session revocation attempt.
pub open spec fn revoke_audit(v: RevokeView, r: Result<(), AppError>) -> AuditView {
    let s = v.sessions[v.next as int];
    AuditView {
        admin_subject: v.admin_subject,
        admin_username: v.admin_username,
        target_keycloak_user_id: Some(v.keycloak_id),
        target_matrix_user_id: Some(v.matrix_user_id),
        action: "revoke_auth_session_on_"@ + v.context,
        result: if r is Ok {
            AuditResult::Success
        } else {
            AuditResult::Failure
        },
        metadata: seq![
            ("session_id"@, MetaView::Str(s.id@)),
            ("session_type"@, MetaView::Str(s.session_type@)),
        ],
    }
}

/// Revokes session `i` of the list, or finishes when none is left.
pub open spec fn revoke_at(v: RevokeView, i: nat) -> (RevokeView, Expect<Seq<Seq<char>>>) {
    if i < v.sessions.len() {
        (
            RevokeView { next: i, phase: RevokePhase::Finishing, ..v },
            Expect::Run(
                CommandView::FinishAuthSession {
                    session_id: v.sessions[i as int].id@,
                    session_type: v.sessions[i as int].session_type@,
                },
            ),
        )
    } else {
        (RevokeView { phase: RevokePhase::Done, ..v }, Expect::Finish(v.warnings))
    }
}

/// How a session revocation proceeds. A failed or empty user lookup or a
/// failed listing ends it (with a warning on failure); each active session
/// is finished and audit-logged, a failure adding a warning.
pub open spec fn revoke_next(v: RevokeView, reply: Reply) -> (RevokeView, Expect<Seq<Seq<char>>>) {
    match (v.phase, reply) {
        (RevokePhase::LookingUp, Reply::AuthUser(r)) => match r {
            Ok(None) => (RevokeView { phase: RevokePhase::Done, ..v }, Expect::Finish(v.warnings)),
            Err(e) => {
                let w = v.warnings.push(err_msg("Auth user lookup failed: "@, e));
                (RevokeView { phase: RevokePhase::Done, warnings: w, ..v }, Expect::Finish(w))
            },
            Ok(Some(u)) => (
                RevokeView { phase: RevokePhase::Listing, ..v },
                Expect::Run(CommandView::ListAuthSessions { auth_user_id: u.id@ }),
            ),
        },
        (RevokePhase::Listing, Reply::Sessions(r)) => match r {
            Err(e) => {
                let w = v.warnings.push(err_msg("Auth session list failed: "@, e));
                (RevokeView { phase: RevokePhase::Done, warnings: w, ..v }, Expect::Finish(w))
            },
            Ok(ss) => revoke_at(RevokeView { sessions: active_sessions(ss@), ..v }, 0),
        },
        (RevokePhase::Finishing, Reply::Unit(r)) => (
            RevokeView { phase: RevokePhase::Auditing(r), ..v },
            Expect::Run(CommandView::WriteAudit(revoke_audit(v, r))),
        ),
        (RevokePhase::Auditing(r), Reply::Unit(_)) => {
            let s = v.sessions[v.next as int];
            let w = match r {
                Ok(_) => v.warnings,
                Err(e) => v.warnings.push(
                    err_msg(
                        "Session "@ + s.id@ + " ("@ + s.session_type@ + ") could not be revoked: "@,
                        e,
                    ),
                ),
            };
            revoke_at(RevokeView { warnings: w, ..v }, v.next + 1)
        },
        _ => (RevokeView { phase: RevokePhase::Done, ..v }, Expect::Unexpected),
    }
}

/// Revokes all active MAS sessions of a user, audit-logging each attempt as
/// `revoke_auth_session_on_<context>`. Nothing here is fatal.
pub struct SessionRevoker {
    context: String,
    keycloak_id: String,
    username: String,
    matrix_user_id: String,
    admin_subject: String,
    admin_username: String,
    sessions: Vec<MasSession>,
    next: usize,
    phase: RevokePhase,
    warnings: Vec<String>,
}

/// The active sessions of a list, in order, by moving them out of it.
pub fn keep_active(ss: Vec<MasSession>) -> (res: Vec<MasSession>)
    ensures
        res@ == active_sessions(ss@),
{
    let ghost all = ss@;
    let n = ss.len();
    let mut rest = reversed(ss);
    let mut out: Vec<MasSession> = Vec::new();
    let mut i: usize = 0;
    while i < n
        invariant
            n == all.len(),
            i <= n,
            rest@.len() == n - i,
            forall|k: int| 0 <= k < n - i ==> #[trigger] rest@[k] == all[n - 1 - k],
            out@ == active_sessions(all.take(i as int)),
        decreases n - i,
    {
        let s = rest.pop().unwrap();
        assert(all.take(i + 1).drop_last() =~= all.take(i as int));
        assert(all.take(i + 1).last() == s);
        if s.finished_at.is_none() {
            out.push(s);
        }
        i = i + 1;
    }
    assert(all.take(n as int) =~= all);
    out
}

impl SessionRevoker {
    pub closed spec fn view(&self) -> RevokeView {
        RevokeView {
            context: self.context@,
            keycloak_id: self.keycloak_id@,
            username: self.username@,
            matrix_user_id: self.matrix_user_id@,
            admin_subject: self.admin_subject@,
            admin_username: self.admin_username@,
            sessions: self.sessions@,
            next: self.next as nat,
            phase: self.phase,
            warnings: views(self.warnings@),
        }
    }

    pub closed spec fn wf(&self) -> bool {
        (self.phase is Finishing || self.phase is Auditing) ==> self.next < self.sessions@.len()
    }

    fn take_warnings(&mut self) -> (res: Vec<String>)
        ensures
            final(self).view() == old(self).view(),
            final(self).wf() == old(self).wf(),
            views(res@) == old(self).view().warnings,
    {
        copy_strings(&self.warnings)
    }

    fn revoke_at(&mut self, i: usize) -> (res: Step<WorkflowOutcome>)
        ensures
            final(self).wf(),
            final(self).view() == revoke_at(old(self).view(), i as nat).0,
            outcome_step_is(res, revoke_at(old(self).view(), i as nat).1),
    {
        if i < self.sessions.len() {
            self.next = i;
            self.phase = RevokePhase::Finishing;
            Step::Run(
                Command::FinishAuthSession {
                    session_id: self.sessions[i].id.clone(),
                    session_type: self.sessions[i].session_type.clone(),
                },
            )
        } else {
            self.phase = RevokePhase::Done;
            Step::Finished(Ok(WorkflowOutcome { warnings: self.take_warnings() }))
        }
    }

    fn warn(&mut self, msg: String)
        ensures
            final(self).view() == (RevokeView {
                warnings: old(self).view().warnings.push(msg@),
                ..old(self).view()
            }),
            final(self).wf() == old(self).wf(),
    {
        let ghost before = views(self.warnings@);
        self.warnings.push(msg);
        assert(views(self.warnings@) =~= before.push(msg@));
    }

    /// Starts revoking the sessions of the MAS user named `username`.
    pub fn start(
        context: &str,
        keycloak_id: &str,
        username: &str,
        matrix_user_id: &str,
        admin_subject: &str,
        admin_username: &str,
    ) -> (res: (Self, Step<WorkflowOutcome>))
        ensures
            res.0.wf(),
            res.0.view() == (RevokeView {
                context: context@,
                keycloak_id: keycloak_id@,
                username: username@,
                matrix_user_id: matrix_user_id@,
                admin_subject: admin_subject@,
                admin_username: admin_username@,
                sessions: Seq::empty(),
                next: 0,
                phase: RevokePhase::LookingUp,
                warnings: Seq::empty(),
            }),
            res.1 matches Step::Run(c) && c.view() == (CommandView::FindAuthUser {
                username: username@,
            }),
    {
        let m = SessionRevoker {
            context: String::from_str(context),
            keycloak_id: String::from_str(keycloak_id),
            username: String::from_str(username),
            matrix_user_id: String::from_str(matrix_user_id),
            admin_subject: String::from_str(admin_subject),
            admin_username: String::from_str(admin_username),
            sessions: Vec::new(),
            next: 0,
            phase: RevokePhase::LookingUp,
            warnings: Vec::new(),
        };
        assert(views(m.warnings@) =~= Seq::<Seq<char>>::empty());
        (m, Step::Run(Command::FindAuthUser { username: String::from_str(username) }))
    }

    /// Resumes the revocation with the reply to its last command.
    pub fn resume(&mut self, reply: Reply) -> (res: Step<WorkflowOutcome>)
        requires
            old(self).wf(),
        ensures
            final(self).wf(),
            final(self).view() == revoke_next(old(self).view(), reply).0,
            outcome_step_is(res, revoke_next(old(self).view(), reply).1),
    {
        let mut phase = RevokePhase::Done;
        core::mem::swap(&mut phase, &mut self.phase);
        match (phase, reply) {
            (RevokePhase::LookingUp, Reply::AuthUser(r)) => match r {
                Ok(None) => Step::Finished(Ok(WorkflowOutcome { warnings: self.take_warnings() })),
                Err(e) => {
                    self.warn(error_message("Auth user lookup failed: ", &e));
                    Step::Finished(Ok(WorkflowOutcome { warnings: self.take_warnings() }))
                },
                Ok(Some(u)) => {
                    self.phase = RevokePhase::Listing;
                    Step::Run(Command::ListAuthSessions { auth_user_id: u.id })
                },
            },
            (RevokePhase::Listing, Reply::Sessions(r)) => match r {
                Err(e) => {
                    self.warn(error_message("Auth session list failed: ", &e));
                    Step::Finished(Ok(WorkflowOutcome { warnings: self.take_warnings() }))
                },
                Ok(ss) => {
                    self.sessions = keep_active(ss);
                    self.revoke_at(0)
                },
            },
            (RevokePhase::Finishing, Reply::Unit(r)) => {
                let s = &self.sessions[self.next];
                let metadata = vec![
                    (String::from_str("session_id"), MetaValue::Str(s.id.clone())),
                    (String::from_str("session_type"), MetaValue::Str(s.session_type.clone())),
                ];
                let rec = AuditRecord {
                    admin_subject: self.admin_subject.clone(),
                    admin_username: self.admin_username.clone(),
                    target_keycloak_user_id: Some(self.keycloak_id.clone()),
                    target_matrix_user_id: Some(self.matrix_user_id.clone()),
                    action: cat("revoke_auth_session_on_", self.context.as_str()),
                    result: AuditResult::of(&r),
                    metadata,
                };
                assert(rec.view().metadata =~= revoke_audit(old(self).view(), r).metadata);
                self.phase = RevokePhase::Auditing(r);
                Step::Run(Command::WriteAudit(rec))
            },
            (RevokePhase::Auditing(r), Reply::Unit(_)) => {
                if let Err(e) = r {
                    let s = &self.sessions[self.next];
                    let p = cat3("Session ", s.id.as_str(), " (");
                    let p = p.concat(s.session_type.as_str());
                    let p = p.concat(") could not be revoked: ");
                    self.warn(error_message(p.as_str(), &e));
                }
                let n = self.sessions.len();
                self.revoke_at(self.next + 1)
            },
            (_, _) => Step::Finished(Err(protocol_error())),
        }
    }
}


// ── Kicking a user from every mapped room ────────────────────────────────────

/// Whether binding `i` is the first to name its room.
pub open spec fn first_of_room(bs: Seq<PolicyBinding>, i: int) -> bool {
    forall|j: int| 0 <= j < i ==> (#[trigger] bs[j]).target.id()@ != bs[i].target.id()@
}

/// The first binding at or after `i` that is the first to name its room,
/// or the number of bindings when there is none.
pub open spec fn next_unique(bs: Seq<PolicyBinding>, i: nat) -> nat
    decreases bs.len() - i,
{
    if i >= bs.len() {
        bs.len()
    } else if first_of_room(bs, i as int) {
        i
    } else {
        next_unique(bs, i + 1)
    }
}

proof fn lemma_next_unique_bounds(bs: Seq<PolicyBinding>, i: nat)
    ensures
        i <= bs.len() ==> i <= next_unique(bs, i) <= bs.len(),
        next_unique(bs, i) < bs.len() ==> first_of_room(bs, next_unique(bs, i) as int),
    decreases bs.len() - i,
{
    if i < bs.len() && !first_of_room(bs, i as int) {
        lemma_next_unique_bounds(bs, i + 1);
    }
}

/// The phase of an eviction.
pub enum EvictPhase {
    Children,
    Members,
    Kicking,
    Auditing(Result<(), AppError>),
    Done,
}

/// The state of an eviction, by value.
#[verifier::ext_equal]
pub struct EvictView {
    pub context: Seq<char>,
    pub keycloak_id: Seq<char>,
    pub matrix_user_id: Seq<char>,
    pub admin_subject: Seq<char>,
    pub admin_username: Seq<char>,
    pub bindings: Seq<PolicyBinding>,
    pub binding: nat,
    pub order: Seq<String>,
    pub next: nat,
    pub phase: EvictPhase,
    pub warnings: Seq<Seq<char>>,
}

/// Starts on the first binding at or after `i` naming a room not named
/// before, or finishes.
pub open spec fn evict_open(v: EvictView, i: nat) -> (EvictView, Expect<Seq<Seq<char>>>) {
    let j = next_unique(v.bindings, i);
    if j < v.bindings.len() {
        (
            EvictView { binding: j, phase: EvictPhase::Children, ..v },
            Expect::Run(CommandView::GetSpaceChildren { room_id: v.bindings[j as int].target.id()@ }),
        )
    } else {
        (EvictView { phase: EvictPhase::Done, ..v }, Expect::Finish(v.warnings))
    }
}

/// Moves the eviction to the next target room or binding.
pub open spec fn evict_advance(v: EvictView) -> (EvictView, Expect<Seq<Seq<char>>>) {
    if v.next + 1 < v.order.len() {
        (
            EvictView { next: v.next + 1, phase: EvictPhase::Members, ..v },
            Expect::Run(CommandView::GetRoomMembers { room_id: v.order[v.next + 1int]@ }),
        )
    } else {
        evict_open(v, v.binding + 1)
    }
}

/// The audit entry of a kick.
pub open spec fn evict_audit(v: EvictView, r: Result<(), AppError>) -> AuditView {
    AuditView {
        admin_subject: v.admin_subject,
        admin_username: v.admin_username,
        target_keycloak_user_id: Some(v.keycloak_id),
        target_matrix_user_id: Some(v.matrix_user_id),
        action: "kick_room_on_"@ + v.context,
        result: if r is Ok {
            AuditResult::Success
        } else {
            AuditResult::Failure
        },
        metadata: seq![
            ("room_id"@, MetaView::Str(v.order[v.next as int]@)),
            ("subject"@, MetaView::Str(v.bindings[v.binding as int].subject.text())),
        ],
    }
}

/// How an eviction proceeds: each distinct mapped room is expanded, and the
/// user is kicked from each target room they are in, children first, with
/// reason `Offboarded`; each kick is audit-logged and failures add warnings.
pub open spec fn evict_next(v: EvictView, reply: Reply) -> (EvictView, Expect<Seq<Seq<char>>>) {
    match (v.phase, reply) {
        (EvictPhase::Children, Reply::RoomIds(r)) => {
            let room = v.bindings[v.binding as int].target.id();
            let order = rev(expanded(room, r));
            (
                EvictView {
                    order,
                    next: 0,
                    phase: EvictPhase::Members,
                    warnings: v.warnings + children_warnings(room@, r),
                    ..v
                },
                Expect::Run(CommandView::GetRoomMembers { room_id: order[0]@ }),
            )
        },
        (EvictPhase::Members, Reply::RoomIds(r)) => {
            let t = v.order[v.next as int];
            match r {
                Err(e) => evict_advance(
                    EvictView {
                        warnings: v.warnings.push(
                            err_msg("Could not fetch members of "@ + t@ + ": "@, e),
                        ),
                        ..v
                    },
                ),
                Ok(m) => if seq_has_str(m@, v.matrix_user_id) {
                    (
                        EvictView { phase: EvictPhase::Kicking, ..v },
                        Expect::Run(
                            CommandView::Kick {
                                user_id: v.matrix_user_id,
                                room_id: t@,
                                reason: "Offboarded"@,
                            },
                        ),
                    )
                } else {
                    evict_advance(v)
                },
            }
        },
        (EvictPhase::Kicking, Reply::Unit(r)) => (
            EvictView { phase: EvictPhase::Auditing(r), ..v },
            Expect::Run(CommandView::WriteAudit(evict_audit(v, r))),
        ),
        (EvictPhase::Auditing(r), Reply::Unit(_)) => {
            let t = v.order[v.next as int];
            match r {
                Ok(_) => evict_advance(v),
                Err(e) => evict_advance(
                    EvictView {
                        warnings: v.warnings.push(
                            err_msg("Could not kick "@ + v.matrix_user_id + " from "@ + t@ + ": "@, e),
                        ),
                        ..v
                    },
                ),
            }
        },
        _ => (EvictView { phase: EvictPhase::Done, ..v }, Expect::Unexpected),
    }
}

/// Kicks a user from every room named by a binding, whatever their groups,
/// audit-logging each kick as `kick_room_on_<context>`. Nothing here is
/// fatal.
pub struct RoomEvictor {
    context: String,
    keycloak_id: String,
    matrix_user_id: String,
    admin_subject: String,
    admin_username: String,
    bindings: Vec<PolicyBinding>,
    binding: usize,
    order: Vec<String>,
    next: usize,
    phase: EvictPhase,
    warnings: Vec<String>,
}

impl RoomEvictor {
    pub closed spec fn view(&self) -> EvictView {
        EvictView {
            context: self.context@,
            keycloak_id: self.keycloak_id@,
            matrix_user_id: self.matrix_user_id@,
            admin_subject: self.admin_subject@,
            admin_username: self.admin_username@,
            bindings: self.bindings@,
            binding: self.binding as nat,
            order: self.order@,
            next: self.next as nat,
            phase: self.phase,
            warnings: views(self.warnings@),
        }
    }

    pub closed spec fn wf(&self) -> bool {
        &&& !(self.phase is Done) ==> self.binding < self.bindings@.len()
        &&& (self.phase is Members || self.phase is Kicking || self.phase is Auditing)
            ==> self.next < self.order@.len()
    }

    fn warn(&mut self, msg: String)
        ensures
            final(self).view() == (EvictView {
                warnings: old(self).view().warnings.push(msg@),
                ..old(self).view()
            }),
            final(self).wf() == old(self).wf(),
    {
        let ghost before = views(self.warnings@);
        self.warnings.push(msg);
        assert(views(self.warnings@) =~= before.push(msg@));
    }

    fn room_named_before(&self, i: usize) -> (res: bool)
        requires
            i < self.bindings@.len(),
        ensures
            res == !first_of_room(self.bindings@, i as int),
    {
        let room = self.bindings[i].target.room_id();
        let mut j: usize = 0;
        while j < i
            invariant
                i < self.bindings@.len(),
                j <= i,
                room@ == self.bindings@[i as int].target.id()@,
                forall|k: int| 0 <= k < j ==> (#[trigger] self.bindings@[k]).target.id()@ != room@,
            decreases i - j,
        {
            if crate::text::str_eq(self.bindings[j].target.room_id(), room) {
                return true;
            }
            j = j + 1;
        }
        false
    }

    fn open(&mut self, i: usize) -> (res: Step<WorkflowOutcome>)
        requires
            i <= old(self).bindings@.len(),
        ensures
            final(self).wf(),
            final(self).view() == evict_open(old(self).view(), i as nat).0,
            outcome_step_is(res, evict_open(old(self).view(), i as nat).1),
        decreases old(self).bindings@.len() - i,
    {
        proof {
            lemma_next_unique_bounds(self.bindings@, i as nat);
        }
        if i < self.bindings.len() {
            if self.room_named_before(i) {
                proof {
                    lemma_next_unique_bounds(self.bindings@, (i + 1) as nat);
                }
                return self.open(i + 1);
            }
            self.binding = i;
            self.phase = EvictPhase::Children;
            let room_id = self.bindings[i].target.id_string();
            Step::Run(Command::GetSpaceChildren { room_id })
        } else {
            self.phase = EvictPhase::Done;
            Step::Finished(Ok(WorkflowOutcome { warnings: copy_strings(&self.warnings) }))
        }
    }

    fn advance(&mut self) -> (res: Step<WorkflowOutcome>)
        requires
            old(self).binding < old(self).bindings@.len(),
            old(self).next < old(self).order@.len(),
        ensures
            final(self).wf(),
            final(self).view() == evict_advance(old(self).view()).0,
            outcome_step_is(res, evict_advance(old(self).view()).1),
    {
        let len = self.order.len();
        let nb = self.bindings.len();
        if self.next + 1 < len {
            self.next = self.next + 1;
            self.phase = EvictPhase::Members;
            let room_id = self.order[self.next].clone();
            Step::Run(Command::GetRoomMembers { room_id })
        } else {
            self.open(self.binding + 1)
        }
    }

    /// Starts evicting the user from the rooms of the bindings.
    pub fn start(
        context: &str,
        keycloak_id: &str,
        matrix_user_id: &str,
        bindings: Vec<PolicyBinding>,
        admin_subject: &str,
        admin_username: &str,
    ) -> (res: (Self, Step<WorkflowOutcome>))
        ensures
            res.0.wf(),
            ({
                let v0 = EvictView {
                    context: context@,
                    keycloak_id: keycloak_id@,
                    matrix_user_id: matrix_user_id@,
                    admin_subject: admin_subject@,
                    admin_username: admin_username@,
                    bindings: bindings@,
                    binding: 0,
                    order: Seq::empty(),
                    next: 0,
                    phase: EvictPhase::Children,
                    warnings: Seq::empty(),
                };
                &&& res.0.view() == evict_open(v0, 0).0
                &&& outcome_step_is(res.1, evict_open(v0, 0).1)
            }),
    {
        let mut m = RoomEvictor {
            context: String::from_str(context),
            keycloak_id: String::from_str(keycloak_id),
            matrix_user_id: String::from_str(matrix_user_id),
            admin_subject: String::from_str(admin_subject),
            admin_username: String::from_str(admin_username),
            bindings,
            binding: 0,
            order: Vec::new(),
            next: 0,
            phase: EvictPhase::Children,
            warnings: Vec::new(),
        };
        assert(views(m.warnings@) =~= Seq::<Seq<char>>::empty());
        let step = m.open(0);
        (m, step)
    }

    /// Resumes the eviction with the reply to its last command.
    pub fn resume(&mut self, reply: Reply) -> (res: Step<WorkflowOutcome>)
        requires
            old(self).wf(),
        ensures
            final(self).wf(),
            final(self).view() == evict_next(old(self).view(), reply).0,
            outcome_step_is(res, evict_next(old(self).view(), reply).1),
    {
        let mut phase = EvictPhase::Done;
        core::mem::swap(&mut phase, &mut self.phase);
        let ghost v = old(self).view();
        match (phase, reply) {
            (EvictPhase::Children, Reply::RoomIds(r)) => {
                let room = self.bindings[self.binding].target.id_string();
                let targets = expand_targets(room, r, &mut self.warnings);
                self.order = reversed(targets);
                self.next = 0;
                self.phase = EvictPhase::Members;
                let room_id = self.order[0].clone();
                Step::Run(Command::GetRoomMembers { room_id })
            },
            (EvictPhase::Members, Reply::RoomIds(r)) => match r {
                Err(e) => {
                    let p = cat("Could not fetch members of ", self.order[self.next].as_str());
                    let p = p.concat(": ");
                    self.warn(error_message(p.as_str(), &e));
                    self.advance()
                },
                Ok(members) => {
                    if contains_str(members.as_slice(), self.matrix_user_id.as_str()) {
                        self.phase = EvictPhase::Kicking;
                        Step::Run(
                            Command::Kick {
                                user_id: self.matrix_user_id.clone(),
                                room_id: self.order[self.next].clone(),
                                reason: String::from_str("Offboarded"),
                            },
                        )
                    } else {
                        self.advance()
                    }
                },
            },
            (EvictPhase::Kicking, Reply::Unit(r)) => {
                let subject = self.bindings[self.binding].subject.to_string();
                let metadata = vec![
                    (String::from_str("room_id"), MetaValue::Str(self.order[self.next].clone())),
                    (String::from_str("subject"), MetaValue::Str(subject)),
                ];
                let rec = AuditRecord {
                    admin_subject: self.admin_subject.clone(),
                    admin_username: self.admin_username.clone(),
                    target_keycloak_user_id: Some(self.keycloak_id.clone()),
                    target_matrix_user_id: Some(self.matrix_user_id.clone()),
                    action: cat("kick_room_on_", self.context.as_str()),
                    result: AuditResult::of(&r),
                    metadata,
                };
                assert(rec.view().metadata =~= evict_audit(v, r).metadata);
                self.phase = EvictPhase::Auditing(r);
                Step::Run(Command::WriteAudit(rec))
            },
            (EvictPhase::Auditing(r), Reply::Unit(_)) => {
                if let Err(e) = r {
                    let p = cat3("Could not kick ", self.matrix_user_id.as_str(), " from ");
                    let p = p.concat(self.order[self.next].as_str());
                    let p = p.concat(": ");
                    self.warn(error_message(p.as_str(), &e));
                }
                self.advance()
            },
            (_, _) => Step::Finished(Err(protocol_error())),
        }
    }
}

} // verus!

verus! {

/// The result of an audited call whose audit entry and call must both
/// succeed: a failed audit write first, then a failed call.
pub open spec fn settled(cr: CallResult) -> Result<(), AppError> {
    match (cr.audit, cr.call) {
        (Err(a), _) => Err(a),
        (Ok(_), Err(x)) => Err(x),
        (Ok(_), Ok(_)) => Ok(()),
    }
}

/// The result of an audited call whose audit entry and call must both
/// succeed (see `settled`).
pub fn settle(cr: CallResult) -> (res: Result<(), AppError>)
    ensures
        res == settled(cr),
{
    match (cr.audit, cr.call) {
        (Err(a), _) => Err(a),
        (Ok(_), Err(x)) => Err(x),
        (Ok(_), Ok(_)) => Ok(()),
    }
}

} // verus!

verus! {

/// An audited call records what the call did: the audit entry written after
/// the call is the prepared one with result `success` exactly when the call
/// succeeded, and the call's outcome is then reported unchanged together
/// with the audit write's.
pub proof fn law_audit_records_call_outcome(v: CallView, r: Result<(), AppError>, a: Result<(), AppError>)
    requires
        v.phase is Calling,
    ensures
        call_next(v, Reply::Unit(r)).1 matches Expect::Run(CommandView::WriteAudit(entry)) && {
            &&& entry.action == v.audit.action
            &&& entry.metadata == v.audit.metadata
            &&& entry.target_keycloak_user_id == v.audit.target_keycloak_user_id
            &&& (entry.result == AuditResult::Success <==> r is Ok)
        },
        call_next(call_next(v, Reply::Unit(r)).0, Reply::Unit(a)).1 == Expect::<CallResult>::Finish(
            CallResult { call: r, audit: a },
        ),
{
}

} // verus!

verus! {

/// Whether an eviction is working inside a binding's target rooms.
pub open spec fn evicting_rooms(p: EvictPhase) -> bool {
    p is Members || p is Kicking || p is Auditing
}

/// Whether binding `j` names a room that an earlier binding already names.
pub open spec fn room_named_before(bs: Seq<PolicyBinding>, j: int) -> bool {
    exists|k: int| 0 <= k < j && bs[k].target.id()@ == bs[j].target.id()@
}

proof fn lemma_next_unique_skips(bs: Seq<PolicyBinding>, i: nat)
    requires
        i <= bs.len(),
    ensures
        i <= next_unique(bs, i) <= bs.len(),
        forall|j: int| i <= j < next_unique(bs, i) ==> room_named_before(bs, j),
        next_unique(bs, i) < bs.len() ==> !room_named_before(bs, next_unique(bs, i) as int),
    decreases bs.len() - i,
{
    if i < bs.len() {
        if first_of_room(bs, i as int) {
            if room_named_before(bs, i as int) {
                let k = choose|k: int| 0 <= k < i && bs[k].target.id()@ == bs[i as int].target.id()@;
                assert(bs[k].target.id()@ != bs[i as int].target.id()@);
            }
        } else {
            lemma_next_unique_skips(bs, i + 1);
        }
    }
}

/// An eviction visits every room named by a binding. From a state inside a
/// binding's target rooms, a step either stays on the same room, moves to
/// the next target room (asking for its members), or, only from the last
/// target room, moves to the next binding whose room no earlier binding
/// named (passing over only bindings whose room was named before), or
/// finishes when none is left. A member list that shows the user leads to
/// a kick from that room. When a binding's children are listed, all its
/// expanded rooms are visited, children first.
pub proof fn law_evict_visits_every_room(v: EvictView, reply: Reply)
    requires
        v.binding < v.bindings.len(),
        evicting_rooms(v.phase) ==> v.next < v.order.len(),
    ensures
        ({
            let (n, e) = evict_next(v, reply);
            evicting_rooms(v.phase) ==> {
                ||| e is Unexpected
                ||| (n.binding == v.binding && n.order == v.order && n.next == v.next
                    && evicting_rooms(n.phase))
                ||| (v.next + 1 < v.order.len() && n.binding == v.binding && n.order == v.order
                    && n.next == v.next + 1 && n.phase is Members && e
                    == Expect::<Seq<Seq<char>>>::Run(
                    CommandView::GetRoomMembers { room_id: v.order[v.next + 1int]@ },
                ))
                ||| (v.next + 1 == v.order.len() && v.binding < n.binding < v.bindings.len()
                    && n.phase is Children && !room_named_before(v.bindings, n.binding as int)
                    && (forall|j: int|
                    v.binding < j < n.binding ==> room_named_before(v.bindings, j)) && e
                    == Expect::<Seq<Seq<char>>>::Run(
                    CommandView::GetSpaceChildren {
                        room_id: v.bindings[n.binding as int].target.id()@,
                    },
                ))
                ||| (v.next + 1 == v.order.len() && n.phase is Done && e is Finish && (forall|
                    j: int,
                |
                    v.binding < j < v.bindings.len() ==> room_named_before(v.bindings, j)))
            }
        }),
        ({
            let (n, e) = evict_next(v, reply);
            match (v.phase, reply) {
                (EvictPhase::Members, Reply::RoomIds(Ok(m))) => seq_has_str(m@, v.matrix_user_id)
                    ==> e == Expect::<Seq<Seq<char>>>::Run(
                    CommandView::Kick {
                        user_id: v.matrix_user_id,
                        room_id: v.order[v.next as int]@,
                        reason: "Offboarded"@,
                    },
                ),
                (EvictPhase::Children, Reply::RoomIds(r)) => {
                    let rooms = expanded(v.bindings[v.binding as int].target.id(), r);
                    &&& n.binding == v.binding && n.next == 0 && n.phase is Members
                    &&& n.order.len() == rooms.len()
                    &&& forall|k: int|
                        0 <= k < rooms.len() ==> n.order[k] == rooms[rooms.len() - 1 - k]
                },
                _ => true,
            }
        }),
{
    lemma_next_unique_skips(v.bindings, v.binding + 1);
    match (v.phase, reply) {
        (EvictPhase::Children, Reply::RoomIds(r)) => {
            let rooms = expanded(v.bindings[v.binding as int].target.id(), r);
            assert(rooms.len() > 0);
        },
        _ => {},
    }
}

} // verus!
