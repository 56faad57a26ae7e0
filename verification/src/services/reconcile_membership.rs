//! Reconciliation of a user's Matrix room memberships against the policy
//! bindings, as a state machine: each step names the next outside
//! operation, and the runner resumes it with that operation's result.
//!
//! For each binding, in order, the binding's room is expanded (a space
//! becomes the space followed by its children). A user who matches the
//! binding's subject is force-joined to each target room they are not in,
//! in order, with the binding's power level set after a successful join.
//! When the binding allows removal and the user does not match, the user is
//! kicked from each target room they are in, children first. Every join and
//! kick is audit-logged; per-room failures become warnings.

use vstd::prelude::*;

use crate::error::AppError;
use crate::models::audit::AuditResult;
use crate::models::policy_binding::{PolicyBinding, PolicySubject};
use crate::models::workflow::WorkflowOutcome;
use crate::services::audit_service::{AuditRecord, MetaValue};
use crate::services::protocol::{
    error_message, err_msg, outcome_step_is, protocol_error, AuditView, Command, CommandView,
    Expect, MetaView, Reply, Step,
};
use crate::text::{
    cat, contains_str, i64_to_decimal, rev, reversed, seq_has_str, signed_decimal, views,
};

verus! {

/// Whether a user with the given groups and roles matches a binding's
/// subject.
pub open spec fn binding_matches(subject: PolicySubject, groups: Seq<String>, roles: Seq<String>) -> bool {
    match subject {
        PolicySubject::Group(g) => seq_has_str(groups, g@),
        PolicySubject::Role(r) => seq_has_str(roles, r@),
    }
}

/// Whether a user with the given groups and roles matches the binding.
pub fn user_matches_binding(binding: &PolicyBinding, groups: &[String], roles: &[String]) -> (res:
    bool)
    ensures
        res == binding_matches(binding.subject, groups@, roles@),
{
    match &binding.subject {
        PolicySubject::Group(g) => contains_str(groups, g.as_str()),
        PolicySubject::Role(r) => contains_str(roles, r.as_str()),
    }
}

/// The rooms a binding's room expands to: the space followed by its
/// children when it has any, else just the room (also when the children
/// could not be listed).
pub open spec fn expanded(room: String, children: Result<Vec<String>, AppError>) -> Seq<String> {
    match children {
        Ok(c) => if c@.len() > 0 {
            seq![room] + c@
        } else {
            seq![room]
        },
        Err(_) => seq![room],
    }
}

/// The warning for a failed listing of space children.
pub open spec fn children_warning(room: Seq<char>, e: AppError) -> Seq<char> {
    err_msg("Could not check space children for "@ + room + ": "@, e)
}

/// The warnings a listing of space children adds.
pub open spec fn children_warnings(room: Seq<char>, children: Result<Vec<String>, AppError>) -> Seq<
    Seq<char>,
> {
    match children {
        Ok(_) => Seq::empty(),
        Err(e) => seq![children_warning(room, e)],
    }
}

/// Expands a binding's room into its target rooms, adding a warning when
/// the children could not be listed.
pub fn expand_targets(
    room_id: String,
    children: Result<Vec<String>, AppError>,
    warnings: &mut Vec<String>,
) -> (res: Vec<String>)
    ensures
        res@ == expanded(room_id, children),
        views(final(warnings)@) == views(old(warnings)@) + children_warnings(room_id@, children),
{
    match children {
        Ok(c) => {
            if c.len() > 0 {
                let mut targets = vec![room_id];
                let ghost first = targets@;
                let mut c = c;
                targets.append(&mut c);
                assert(targets@ =~= expanded(room_id, children));
                targets
            } else {
                vec![room_id]
            }
        },
        Err(e) => {
            let ghost before = views(warnings@);
            let prefix = cat("Could not check space children for ", room_id.as_str());
            let prefix = prefix.concat(": ");
            warnings.push(error_message(prefix.as_str(), &e));
            assert(views(warnings@) =~= before + children_warnings(room_id@, children));
            vec![room_id]
        },
    }
}

/// Whether users are being joined to or kicked from the current targets.
#[derive(Debug, Clone, Copy, PartialEq, Eq, Structural)]
pub enum Mode {
    Join,
    Kick,
}

/// The reply the reconciler waits for.
#[derive(Debug)]
pub enum Wait {
    Children,
    Members,
    Joined,
    JoinAudit(Result<(), AppError>),
    PowerLevel(i64),
    Kicked,
    KickAudit(Result<(), AppError>),
    Done,
}

/// The state of a reconciliation, by value.
#[verifier::ext_equal]
pub struct ReconcileView {
    pub keycloak_id: Seq<char>,
    pub matrix_user_id: Seq<char>,
    pub bindings: Seq<PolicyBinding>,
    pub groups: Seq<String>,
    pub roles: Seq<String>,
    pub actor_subject: Seq<char>,
    pub actor_username: Seq<char>,
    /// Index of the binding being processed.
    pub binding: nat,
    /// Target rooms of the binding, in processing order.
    pub order: Seq<String>,
    /// Index in `order` of the room being processed.
    pub next: nat,
    pub mode: Mode,
    pub wait: Wait,
    pub warnings: Seq<Seq<char>>,
}

/// Starts processing binding `i`, or finishes when none is left.
pub open spec fn open_binding(v: ReconcileView, i: nat) -> (ReconcileView, Expect<Seq<Seq<char>>>) {
    if i < v.bindings.len() {
        (
            ReconcileView { binding: i, wait: Wait::Children, ..v },
            Expect::Run(CommandView::GetSpaceChildren { room_id: v.bindings[i as int].target.id()@ }),
        )
    } else {
        (ReconcileView { wait: Wait::Done, ..v }, Expect::Finish(v.warnings))
    }
}

/// Moves on to the next target room, or to the next binding.
pub open spec fn advance(v: ReconcileView) -> (ReconcileView, Expect<Seq<Seq<char>>>) {
    if v.next + 1 < v.order.len() {
        (
            ReconcileView { next: v.next + 1, wait: Wait::Members, ..v },
            Expect::Run(CommandView::GetRoomMembers { room_id: v.order[v.next + 1int]@ }),
        )
    } else {
        open_binding(v, v.binding + 1)
    }
}

/// The audit record of a join or kick on `room`.
pub open spec fn room_audit(
    v: ReconcileView,
    action: Seq<char>,
    r: Result<(), AppError>,
    room: String,
) -> AuditView {
    AuditView {
        admin_subject: v.actor_subject,
        admin_username: v.actor_username,
        target_keycloak_user_id: Some(v.keycloak_id),
        target_matrix_user_id: Some(v.matrix_user_id),
        action,
        result: if r is Ok {
            AuditResult::Success
        } else {
            AuditResult::Failure
        },
        metadata: seq![
            ("room_id"@, MetaView::Str(room@)),
            ("subject"@, MetaView::Str(v.bindings[v.binding as int].subject.text())),
        ],
    }
}

/// The warning a failed audit write adds.
pub open spec fn audit_warnings(a: Result<(), AppError>) -> Seq<Seq<char>> {
    match a {
        Ok(_) => Seq::empty(),
        Err(e) => seq![err_msg("Audit log write failed: "@, e)],
    }
}

/// How a reconciliation proceeds from state `v` when resumed with `reply`.
pub open spec fn reconcile_next(v: ReconcileView, reply: Reply) -> (ReconcileView, Expect<Seq<Seq<char>>>) {
    let user = v.matrix_user_id;
    match (v.wait, reply) {
        (Wait::Children, Reply::RoomIds(r)) => {
            let b = v.bindings[v.binding as int];
            let targets = expanded(b.target.id(), r);
            let w = v.warnings + children_warnings(b.target.id()@, r);
            if binding_matches(b.subject, v.groups, v.roles) {
                (
                    ReconcileView {
                        order: targets,
                        next: 0,
                        mode: Mode::Join,
                        wait: Wait::Members,
                        warnings: w,
                        ..v
                    },
                    Expect::Run(CommandView::GetRoomMembers { room_id: targets[0]@ }),
                )
            } else if b.allow_remove {
                (
                    ReconcileView {
                        order: rev(targets),
                        next: 0,
                        mode: Mode::Kick,
                        wait: Wait::Members,
                        warnings: w,
                        ..v
                    },
                    Expect::Run(CommandView::GetRoomMembers { room_id: rev(targets)[0]@ }),
                )
            } else {
                open_binding(ReconcileView { warnings: w, ..v }, v.binding + 1)
            }
        },
        (Wait::Members, Reply::RoomIds(r)) => {
            let t = v.order[v.next as int];
            match r {
                Err(e) => advance(
                    ReconcileView {
                        warnings: v.warnings.push(
                            err_msg("Could not fetch members of "@ + t@ + ": "@, e),
                        ),
                        ..v
                    },
                ),
                Ok(m) => {
                    let present = seq_has_str(m@, user);
                    if v.mode == Mode::Join {
                        if present {
                            advance(v)
                        } else {
                            (
                                ReconcileView { wait: Wait::Joined, ..v },
                                Expect::Run(CommandView::ForceJoin { user_id: user, room_id: t@ }),
                            )
                        }
                    } else {
                        if !present {
                            advance(v)
                        } else {
                            (
                                ReconcileView { wait: Wait::Kicked, ..v },
                                Expect::Run(
                                    CommandView::Kick {
                                        user_id: user,
                                        room_id: t@,
                                        reason: "Removed: no longer matches "@
                                            + v.bindings[v.binding as int].subject.text(),
                                    },
                                ),
                            )
                        }
                    }
                },
            }
        },
        (Wait::Joined, Reply::Unit(r)) => (
            ReconcileView { wait: Wait::JoinAudit(r), ..v },
            Expect::Run(
                CommandView::WriteAudit(
                    room_audit(v, "join_room_on_reconcile"@, r, v.order[v.next as int]),
                ),
            ),
        ),
        (Wait::JoinAudit(jr), Reply::Unit(a)) => {
            let t = v.order[v.next as int];
            let w = v.warnings + audit_warnings(a);
            match jr {
                Err(e) => advance(
                    ReconcileView {
                        warnings: w.push(
                            err_msg("Could not join "@ + user + " to "@ + t@ + ": "@, e),
                        ),
                        ..v
                    },
                ),
                Ok(_) => match v.bindings[v.binding as int].power_level {
                    Some(l) => (
                        ReconcileView { wait: Wait::PowerLevel(l), warnings: w, ..v },
                        Expect::Run(
                            CommandView::SetPowerLevel { room_id: t@, user_id: user, level: l },
                        ),
                    ),
                    None => advance(ReconcileView { warnings: w, ..v }),
                },
            }
        },
        (Wait::PowerLevel(l), Reply::Unit(r)) => {
            let t = v.order[v.next as int];
            match r {
                Ok(_) => advance(v),
                Err(e) => advance(
                    ReconcileView {
                        warnings: v.warnings.push(
                            err_msg(
                                "Joined "@ + user + " to "@ + t@ + " but could not set power level "@
                                    + signed_decimal(l as int) + ": "@,
                                e,
                            ),
                        ),
                        ..v
                    },
                ),
            }
        },
        (Wait::Kicked, Reply::Unit(r)) => (
            ReconcileView { wait: Wait::KickAudit(r), ..v },
            Expect::Run(
                CommandView::WriteAudit(
                    room_audit(v, "kick_room_on_reconcile"@, r, v.order[v.next as int]),
                ),
            ),
        ),
        (Wait::KickAudit(kr), Reply::Unit(a)) => {
            let t = v.order[v.next as int];
            let w = v.warnings + audit_warnings(a);
            match kr {
                Err(e) => advance(
                    ReconcileView {
                        warnings: w.push(
                            err_msg("Could not kick "@ + user + " from "@ + t@ + ": "@, e),
                        ),
                        ..v
                    },
                ),
                Ok(_) => advance(ReconcileView { warnings: w, ..v }),
            }
        },
        _ => (ReconcileView { wait: Wait::Done, ..v }, Expect::Unexpected),
    }
}

/// A reconciliation of one user's room memberships.
pub struct MembershipReconciler {
    keycloak_id: String,
    matrix_user_id: String,
    bindings: Vec<PolicyBinding>,
    groups: Vec<String>,
    roles: Vec<String>,
    actor_subject: String,
    actor_username: String,
    binding: usize,
    order: Vec<String>,
    next: usize,
    mode: Mode,
    wait: Wait,
    warnings: Vec<String>,
}


impl MembershipReconciler {
    /// The state of the reconciliation.
    pub closed spec fn view(&self) -> ReconcileView {
        ReconcileView {
            keycloak_id: self.keycloak_id@,
            matrix_user_id: self.matrix_user_id@,
            bindings: self.bindings@,
            groups: self.groups@,
            roles: self.roles@,
            actor_subject: self.actor_subject@,
            actor_username: self.actor_username@,
            binding: self.binding as nat,
            order: self.order@,
            next: self.next as nat,
            mode: self.mode,
            wait: self.wait,
            warnings: views(self.warnings@),
        }
    }

    /// The indices of the state are in range for what it waits for.
    pub closed spec fn wf(&self) -> bool {
        &&& !(self.wait is Done) ==> self.binding < self.bindings@.len()
        &&& (self.wait is Members || self.wait is Joined || self.wait is JoinAudit
            || self.wait is PowerLevel || self.wait is Kicked || self.wait is KickAudit)
            ==> self.next < self.order@.len()
    }

    fn finish_ok(&mut self) -> (res: Step<WorkflowOutcome>)
        ensures
            final(self).view() == (ReconcileView { wait: Wait::Done, ..old(self).view() }),
            res matches Step::Finished(Ok(o)) && views(o.warnings@) == old(self).view().warnings,
    {
        self.wait = Wait::Done;
        let mut w: Vec<String> = Vec::new();
        core::mem::swap(&mut w, &mut self.warnings);
        let copy = copy_strings(&w);
        self.warnings = w;
        Step::Finished(Ok(WorkflowOutcome { warnings: copy }))
    }

    fn open_binding(&mut self, i: usize) -> (res: Step<WorkflowOutcome>)
        requires
            i <= old(self).bindings@.len(),
        ensures
            final(self).wf(),
            (final(self).view(), ()) == (open_binding(old(self).view(), i as nat).0, ()),
            outcome_step_is(res, open_binding(old(self).view(), i as nat).1),
    {
        if i < self.bindings.len() {
            self.binding = i;
            self.wait = Wait::Children;
            let room_id = self.bindings[i].target.id_string();
            Step::Run(Command::GetSpaceChildren { room_id })
        } else {
            self.finish_ok()
        }
    }

    fn advance(&mut self) -> (res: Step<WorkflowOutcome>)
        requires
            old(self).binding < old(self).bindings@.len(),
            old(self).next < old(self).order@.len(),
        ensures
            final(self).wf(),
            final(self).view() == advance(old(self).view()).0,
            outcome_step_is(res, advance(old(self).view()).1),
    {
        let len = self.order.len();
        let nb = self.bindings.len();
        if self.next + 1 < len {
            self.next = self.next + 1;
            self.wait = Wait::Members;
            let room_id = self.order[self.next].clone();
            Step::Run(Command::GetRoomMembers { room_id })
        } else {
            self.open_binding(self.binding + 1)
        }
    }

    fn warn(&mut self, msg: String)
        ensures
            final(self).view() == (ReconcileView {
                warnings: old(self).view().warnings.push(msg@),
                ..old(self).view()
            }),
            final(self).wf() == old(self).wf(),
    {
        let ghost before = views(self.warnings@);
        self.warnings.push(msg);
        assert(views(self.warnings@) =~= before.push(msg@));
    }

    fn room_audit_record(&self, action: &str, r: &Result<(), AppError>) -> (res: AuditRecord)
        requires
            self.binding < self.bindings@.len(),
            self.next < self.order@.len(),
        ensures
            res.view() == room_audit(self.view(), action@, *r, self.order@[self.next as int]),
    {
        let subject = self.bindings[self.binding].subject.to_string();
        let metadata = vec![
            (String::from_str("room_id"), MetaValue::Str(self.order[self.next].clone())),
            (String::from_str("subject"), MetaValue::Str(subject)),
        ];
        let rec = AuditRecord {
            admin_subject: self.actor_subject.clone(),
            admin_username: self.actor_username.clone(),
            target_keycloak_user_id: Some(self.keycloak_id.clone()),
            target_matrix_user_id: Some(self.matrix_user_id.clone()),
            action: String::from_str(action),
            result: AuditResult::of(r),
            metadata,
        };
        assert(rec.view().metadata =~= room_audit(
            self.view(),
            action@,
            *r,
            self.order@[self.next as int],
        ).metadata);
        rec
    }

    /// Starts the reconciliation of one user's memberships against the
    /// bindings, given the user's groups and roles.
    pub fn start(
        keycloak_id: String,
        matrix_user_id: String,
        bindings: Vec<PolicyBinding>,
        groups: Vec<String>,
        roles: Vec<String>,
        actor_subject: String,
        actor_username: String,
    ) -> (res: (Self, Step<WorkflowOutcome>))
        ensures
            res.0.wf(),
            ({
                let v0 = ReconcileView {
                    keycloak_id: keycloak_id@,
                    matrix_user_id: matrix_user_id@,
                    bindings: bindings@,
                    groups: groups@,
                    roles: roles@,
                    actor_subject: actor_subject@,
                    actor_username: actor_username@,
                    binding: 0,
                    order: Seq::empty(),
                    next: 0,
                    mode: Mode::Join,
                    wait: Wait::Children,
                    warnings: Seq::empty(),
                };
                &&& res.0.view() == open_binding(v0, 0).0
                &&& outcome_step_is(res.1, open_binding(v0, 0).1)
            }),
    {
        let mut m = MembershipReconciler {
            keycloak_id,
            matrix_user_id,
            bindings,
            groups,
            roles,
            actor_subject,
            actor_username,
            binding: 0,
            order: Vec::new(),
            next: 0,
            mode: Mode::Join,
            wait: Wait::Children,
            warnings: Vec::new(),
        };
        assert(views(m.warnings@) =~= Seq::<Seq<char>>::empty());
        let step = m.open_binding(0);
        (m, step)
    }

    /// Resumes the reconciliation with the reply to the command it asked
    /// for last.
    pub fn resume(&mut self, reply: Reply) -> (res: Step<WorkflowOutcome>)
        requires
            old(self).wf(),
        ensures
            final(self).wf(),
            final(self).view() == reconcile_next(old(self).view(), reply).0,
            outcome_step_is(res, reconcile_next(old(self).view(), reply).1),
    {
        let mut wait = Wait::Done;
        core::mem::swap(&mut wait, &mut self.wait);
        let ghost v = old(self).view();
        assert(self.view() == ReconcileView { wait: Wait::Done, ..v });
        match (wait, reply) {
            (Wait::Children, Reply::RoomIds(r)) => {
                let room = self.bindings[self.binding].target.id_string();
                let matches = user_matches_binding(
                    &self.bindings[self.binding],
                    self.groups.as_slice(),
                    self.roles.as_slice(),
                );
                let allow_remove = self.bindings[self.binding].allow_remove;
                let targets = expand_targets(room, r, &mut self.warnings);
                if matches {
                    self.order = targets;
                    self.next = 0;
                    self.mode = Mode::Join;
                    self.wait = Wait::Members;
                    let room_id = self.order[0].clone();
                    Step::Run(Command::GetRoomMembers { room_id })
                } else if allow_remove {
                    self.order = reversed(targets);
                    self.next = 0;
                    self.mode = Mode::Kick;
                    self.wait = Wait::Members;
                    let room_id = self.order[0].clone();
                    Step::Run(Command::GetRoomMembers { room_id })
                } else {
                    let nb = self.bindings.len();
                    assert(self.binding < nb);
                    self.open_binding(self.binding + 1)
                }
            },
            (Wait::Members, Reply::RoomIds(r)) => {
                match r {
                    Err(e) => {
                        let prefix = cat("Could not fetch members of ", self.order[self.next].as_str());
                        let prefix = prefix.concat(": ");
                        let msg = error_message(prefix.as_str(), &e);
                        self.warn(msg);
                        self.advance()
                    },
                    Ok(members) => {
                        let present = contains_str(members.as_slice(), self.matrix_user_id.as_str());
                        if self.mode == Mode::Join {
                            if present {
                                self.advance()
                            } else {
                                self.wait = Wait::Joined;
                                Step::Run(
                                    Command::ForceJoin {
                                        user_id: self.matrix_user_id.clone(),
                                        room_id: self.order[self.next].clone(),
                                    },
                                )
                            }
                        } else {
                            if !present {
                                self.advance()
                            } else {
                                self.wait = Wait::Kicked;
                                let subject = self.bindings[self.binding].subject.to_string();
                                let reason = cat("Removed: no longer matches ", subject.as_str());
                                Step::Run(
                                    Command::Kick {
                                        user_id: self.matrix_user_id.clone(),
                                        room_id: self.order[self.next].clone(),
                                        reason,
                                    },
                                )
                            }
                        }
                    },
                }
            },
            (Wait::Joined, Reply::Unit(r)) => {
                let rec = self.room_audit_record("join_room_on_reconcile", &r);
                self.wait = Wait::JoinAudit(r);
                Step::Run(Command::WriteAudit(rec))
            },
            (Wait::JoinAudit(jr), Reply::Unit(a)) => {
                if let Err(e) = &a {
                    self.warn(error_message("Audit log write failed: ", e));
                }
                assert(self.view() == ReconcileView {
                    wait: Wait::Done,
                    warnings: v.warnings + audit_warnings(a),
                    ..v
                });
                match jr {
                    Err(e) => {
                        let p = cat3_owned("Could not join ", self.matrix_user_id.as_str(), " to ");
                        let p = p.concat(self.order[self.next].as_str());
                        let p = p.concat(": ");
                        self.warn(error_message(p.as_str(), &e));
                        self.advance()
                    },
                    Ok(_) => match self.bindings[self.binding].power_level {
                        Some(l) => {
                            self.wait = Wait::PowerLevel(l);
                            Step::Run(
                                Command::SetPowerLevel {
                                    room_id: self.order[self.next].clone(),
                                    user_id: self.matrix_user_id.clone(),
                                    level: l,
                                },
                            )
                        },
                        None => self.advance(),
                    },
                }
            },
            (Wait::PowerLevel(l), Reply::Unit(r)) => {
                match r {
                    Ok(_) => self.advance(),
                    Err(e) => {
                        let p = cat3_owned("Joined ", self.matrix_user_id.as_str(), " to ");
                        let p = p.concat(self.order[self.next].as_str());
                        let p = p.concat(" but could not set power level ");
                        let p = p.concat(i64_to_decimal(l).as_str());
                        let p = p.concat(": ");
                        self.warn(error_message(p.as_str(), &e));
                        self.advance()
                    },
                }
            },
            (Wait::Kicked, Reply::Unit(r)) => {
                let rec = self.room_audit_record("kick_room_on_reconcile", &r);
                self.wait = Wait::KickAudit(r);
                Step::Run(Command::WriteAudit(rec))
            },
            (Wait::KickAudit(kr), Reply::Unit(a)) => {
                if let Err(e) = &a {
                    self.warn(error_message("Audit log write failed: ", e));
                }
                assert(self.view() == ReconcileView {
                    wait: Wait::Done,
                    warnings: v.warnings + audit_warnings(a),
                    ..v
                });
                match kr {
                    Err(e) => {
                        let p = cat3_owned("Could not kick ", self.matrix_user_id.as_str(), " from ");
                        let p = p.concat(self.order[self.next].as_str());
                        let p = p.concat(": ");
                        self.warn(error_message(p.as_str(), &e));
                        self.advance()
                    },
                    Ok(_) => self.advance(),
                }
            },
            (_, _) => Step::Finished(Err(protocol_error())),
        }
    }
}

/// A copy of a vector of strings.
pub fn copy_strings(v: &Vec<String>) -> (res: Vec<String>)
    ensures
        res@ == v@,
{
    let mut out: Vec<String> = Vec::new();
    let mut i: usize = 0;
    while i < v.len()
        invariant
            i <= v@.len(),
            out@ == v@.take(i as int),
        decreases v@.len() - i,
    {
        out.push(v[i].clone());
        assert(out@ =~= v@.take(i + 1));
        i = i + 1;
    }
    assert(v@.take(v@.len() as int) =~= v@);
    out
}

fn cat3_owned(a: &str, b: &str, c: &str) -> (res: String)
    ensures
        res@ == a@ + b@ + c@,
{
    crate::text::cat3(a, b, c)
}


/// A room action of a preview: the room, the binding's subject and its
/// power level.
#[derive(Debug)]
pub struct RoomAction {
    pub room_id: String,
    pub subject: String,
    pub power_level: Option<i64>,
}

/// What a reconciliation would do, computed without changing anything.
#[derive(Debug)]
pub struct ReconcilePreview {
    pub joins: Vec<RoomAction>,
    pub kicks: Vec<RoomAction>,
    pub already_correct: Vec<RoomAction>,
    pub warnings: Vec<String>,
}

/// A room action, by value.
pub struct RoomActionView {
    pub room_id: Seq<char>,
    pub subject: Seq<char>,
    pub power_level: Option<i64>,
}

impl RoomAction {
    pub open spec fn view(&self) -> RoomActionView {
        RoomActionView {
            room_id: self.room_id@,
            subject: self.subject@,
            power_level: self.power_level,
        }
    }
}

/// The views of room actions.
pub open spec fn action_views(v: Seq<RoomAction>) -> Seq<RoomActionView> {
    v.map_values(|a: RoomAction| a.view())
}

/// The state of a preview, by value.
#[verifier::ext_equal]
pub struct PreviewView {
    pub matrix_user_id: String,
    pub bindings: Seq<PolicyBinding>,
    pub groups: Seq<String>,
    pub roles: Seq<String>,
    pub binding: nat,
    pub order: Seq<String>,
    pub next: nat,
    /// Waiting for space children (`true`) or room members (`false`).
    pub awaiting_children: bool,
    pub done: bool,
    pub joins: Seq<RoomActionView>,
    pub kicks: Seq<RoomActionView>,
    pub already_correct: Seq<RoomActionView>,
    pub warnings: Seq<Seq<char>>,
}

/// The finished preview, by value: joins, kicks, rooms already correct,
/// warnings.
pub struct PreviewResult {
    pub joins: Seq<RoomActionView>,
    pub kicks: Seq<RoomActionView>,
    pub already_correct: Seq<RoomActionView>,
    pub warnings: Seq<Seq<char>>,
}

/// Whether a preview step is the expected one.
pub open spec fn preview_step_is(s: Step<ReconcilePreview>, e: Expect<PreviewResult>) -> bool {
    match (s, e) {
        (Step::Run(c), Expect::Run(cv)) => c.view() == cv,
        (Step::Finished(Ok(p)), Expect::Finish(r)) => action_views(p.joins@) == r.joins
            && action_views(p.kicks@) == r.kicks && action_views(p.already_correct@)
            == r.already_correct && views(p.warnings@) == r.warnings,
        (Step::Finished(Err(x)), Expect::Unexpected) => crate::services::protocol::is_protocol_error(
            x,
        ),
        _ => false,
    }
}

/// Starts previewing binding `i`, or finishes when none is left.
pub open spec fn preview_open(v: PreviewView, i: nat) -> (PreviewView, Expect<PreviewResult>) {
    if i < v.bindings.len() {
        (
            PreviewView { binding: i, awaiting_children: true, ..v },
            Expect::Run(CommandView::GetSpaceChildren { room_id: v.bindings[i as int].target.id()@ }),
        )
    } else {
        (
            PreviewView { done: true, ..v },
            Expect::Finish(
                PreviewResult {
                    joins: v.joins,
                    kicks: v.kicks,
                    already_correct: v.already_correct,
                    warnings: v.warnings,
                },
            ),
        )
    }
}

/// Moves the preview to the next target room or binding.
pub open spec fn preview_advance(v: PreviewView) -> (PreviewView, Expect<PreviewResult>) {
    if v.next + 1 < v.order.len() {
        (
            PreviewView { next: v.next + 1, ..v },
            Expect::Run(CommandView::GetRoomMembers { room_id: v.order[v.next + 1int]@ }),
        )
    } else {
        preview_open(v, v.binding + 1)
    }
}

/// How a preview proceeds from state `v` when resumed with `reply`: every
/// target room is classified as a join (the user matches and is not in
/// it), a kick (removal allowed, the user does not match and is in it), or
/// already correct (the user matches and is in it).
pub open spec fn preview_next(v: PreviewView, reply: Reply) -> (PreviewView, Expect<PreviewResult>) {
    if v.done {
        (v, Expect::Unexpected)
    } else {
        match reply {
            Reply::RoomIds(r) => if v.awaiting_children {
                let b = v.bindings[v.binding as int];
                let targets = expanded(b.target.id(), r);
                (
                    PreviewView {
                        order: targets,
                        next: 0,
                        awaiting_children: false,
                        warnings: v.warnings + children_warnings(b.target.id()@, r),
                        ..v
                    },
                    Expect::Run(CommandView::GetRoomMembers { room_id: targets[0]@ }),
                )
            } else {
                let b = v.bindings[v.binding as int];
                let t = v.order[v.next as int];
                match r {
                    Err(e) => preview_advance(
                        PreviewView {
                            warnings: v.warnings.push(
                                err_msg("Could not fetch members of "@ + t@ + ": "@, e),
                            ),
                            ..v
                        },
                    ),
                    Ok(m) => {
                        let present = seq_has_str(m@, v.matrix_user_id@);
                        let matches = binding_matches(b.subject, v.groups, v.roles);
                        let a = RoomActionView {
                            room_id: t@,
                            subject: b.subject.text(),
                            power_level: b.power_level,
                        };
                        if matches && !present {
                            preview_advance(PreviewView { joins: v.joins.push(a), ..v })
                        } else if b.allow_remove && !matches && present {
                            preview_advance(PreviewView { kicks: v.kicks.push(a), ..v })
                        } else if matches && present {
                            preview_advance(
                                PreviewView { already_correct: v.already_correct.push(a), ..v },
                            )
                        } else {
                            preview_advance(v)
                        }
                    },
                }
            },
            _ => (PreviewView { done: true, ..v }, Expect::Unexpected),
        }
    }
}

/// A dry run of a reconciliation: reads room memberships and reports what
/// would change, writing nothing.
pub struct MembershipPreview {
    matrix_user_id: String,
    bindings: Vec<PolicyBinding>,
    groups: Vec<String>,
    roles: Vec<String>,
    binding: usize,
    order: Vec<String>,
    next: usize,
    awaiting_children: bool,
    done: bool,
    joins: Vec<RoomAction>,
    kicks: Vec<RoomAction>,
    already_correct: Vec<RoomAction>,
    warnings: Vec<String>,
}

impl MembershipPreview {
    /// The state of the preview.
    pub closed spec fn view(&self) -> PreviewView {
        PreviewView {
            matrix_user_id: self.matrix_user_id,
            bindings: self.bindings@,
            groups: self.groups@,
            roles: self.roles@,
            binding: self.binding as nat,
            order: self.order@,
            next: self.next as nat,
            awaiting_children: self.awaiting_children,
            done: self.done,
            joins: action_views(self.joins@),
            kicks: action_views(self.kicks@),
            already_correct: action_views(self.already_correct@),
            warnings: views(self.warnings@),
        }
    }

    /// The indices of the state are in range.
    pub closed spec fn wf(&self) -> bool {
        &&& !self.done ==> self.binding < self.bindings@.len()
        &&& (!self.done && !self.awaiting_children) ==> self.next < self.order@.len()
    }

    fn take_result(&mut self) -> (res: ReconcilePreview)
        ensures
            final(self).view() == (PreviewView { done: true, ..old(self).view() }),
            action_views(res.joins@) == old(self).view().joins,
            action_views(res.kicks@) == old(self).view().kicks,
            action_views(res.already_correct@) == old(self).view().already_correct,
            views(res.warnings@) == old(self).view().warnings,
    {
        self.done = true;
        let joins = copy_actions(&self.joins);
        let kicks = copy_actions(&self.kicks);
        let already_correct = copy_actions(&self.already_correct);
        let warnings = copy_strings(&self.warnings);
        ReconcilePreview { joins, kicks, already_correct, warnings }
    }

    fn open(&mut self, i: usize) -> (res: Step<ReconcilePreview>)
        requires
            i <= old(self).bindings@.len(),
            !old(self).done,
        ensures
            final(self).wf(),
            final(self).view() == preview_open(old(self).view(), i as nat).0,
            preview_step_is(res, preview_open(old(self).view(), i as nat).1),
    {
        if i < self.bindings.len() {
            self.binding = i;
            self.awaiting_children = true;
            let room_id = self.bindings[i].target.id_string();
            Step::Run(Command::GetSpaceChildren { room_id })
        } else {
            Step::Finished(Ok(self.take_result()))
        }
    }

    fn advance(&mut self) -> (res: Step<ReconcilePreview>)
        requires
            old(self).wf(),
            !old(self).done,
            !old(self).awaiting_children,
        ensures
            final(self).wf(),
            final(self).view() == preview_advance(old(self).view()).0,
            preview_step_is(res, preview_advance(old(self).view()).1),
    {
        let len = self.order.len();
        let nb = self.bindings.len();
        if self.next + 1 < len {
            self.next = self.next + 1;
            let room_id = self.order[self.next].clone();
            Step::Run(Command::GetRoomMembers { room_id })
        } else {
            self.open(self.binding + 1)
        }
    }

    /// Starts a preview for one user against the bindings.
    pub fn start(
        matrix_user_id: String,
        bindings: Vec<PolicyBinding>,
        groups: Vec<String>,
        roles: Vec<String>,
    ) -> (res: (Self, Step<ReconcilePreview>))
        ensures
            res.0.wf(),
            ({
                let v0 = PreviewView {
                    matrix_user_id,
                    bindings: bindings@,
                    groups: groups@,
                    roles: roles@,
                    binding: 0,
                    order: Seq::empty(),
                    next: 0,
                    awaiting_children: true,
                    done: false,
                    joins: Seq::empty(),
                    kicks: Seq::empty(),
                    already_correct: Seq::empty(),
                    warnings: Seq::empty(),
                };
                &&& res.0.view() == preview_open(v0, 0).0
                &&& preview_step_is(res.1, preview_open(v0, 0).1)
            }),
    {
        let mut p = MembershipPreview {
            matrix_user_id,
            bindings,
            groups,
            roles,
            binding: 0,
            order: Vec::new(),
            next: 0,
            awaiting_children: true,
            done: false,
            joins: Vec::new(),
            kicks: Vec::new(),
            already_correct: Vec::new(),
            warnings: Vec::new(),
        };
        assert(views(p.warnings@) =~= Seq::<Seq<char>>::empty());
        assert(action_views(p.joins@) =~= Seq::<RoomActionView>::empty());
        assert(action_views(p.kicks@) =~= Seq::<RoomActionView>::empty());
        assert(action_views(p.already_correct@) =~= Seq::<RoomActionView>::empty());
        let step = p.open(0);
        (p, step)
    }

    /// Resumes the preview with the reply to the command it asked for last.
    pub fn resume(&mut self, reply: Reply) -> (res: Step<ReconcilePreview>)
        requires
            old(self).wf(),
        ensures
            final(self).wf(),
            final(self).view() == preview_next(old(self).view(), reply).0,
            preview_step_is(res, preview_next(old(self).view(), reply).1),
    {
        if self.done {
            return Step::Finished(Err(protocol_error()));
        }
        match reply {
            Reply::RoomIds(r) => {
                if self.awaiting_children {
                    let room = self.bindings[self.binding].target.id_string();
                    let targets = expand_targets(room, r, &mut self.warnings);
                    self.order = targets;
                    self.next = 0;
                    self.awaiting_children = false;
                    let room_id = self.order[0].clone();
                    Step::Run(Command::GetRoomMembers { room_id })
                } else {
                    match r {
                        Err(e) => {
                            let prefix = cat(
                                "Could not fetch members of ",
                                self.order[self.next].as_str(),
                            );
                            let prefix = prefix.concat(": ");
                            let msg = error_message(prefix.as_str(), &e);
                            let ghost before = views(self.warnings@);
                            self.warnings.push(msg);
                            assert(views(self.warnings@) =~= before.push(msg@));
                            self.advance()
                        },
                        Ok(members) => {
                            let present = contains_str(
                                members.as_slice(),
                                self.matrix_user_id.as_str(),
                            );
                            let b = &self.bindings[self.binding];
                            let matches = user_matches_binding(
                                b,
                                self.groups.as_slice(),
                                self.roles.as_slice(),
                            );
                            let action = RoomAction {
                                room_id: self.order[self.next].clone(),
                                subject: b.subject.to_string(),
                                power_level: b.power_level,
                            };
                            let allow_remove = b.allow_remove;
                            if matches && !present {
                                let ghost before = action_views(self.joins@);
                                self.joins.push(action);
                                assert(action_views(self.joins@) =~= before.push(action.view()));
                            } else if allow_remove && !matches && present {
                                let ghost before = action_views(self.kicks@);
                                self.kicks.push(action);
                                assert(action_views(self.kicks@) =~= before.push(action.view()));
                            } else if matches && present {
                                let ghost before = action_views(self.already_correct@);
                                self.already_correct.push(action);
                                assert(action_views(self.already_correct@) =~= before.push(
                                    action.view(),
                                ));
                            }
                            self.advance()
                        },
                    }
                }
            },
            _ => {
                self.done = true;
                Step::Finished(Err(protocol_error()))
            },
        }
    }
}

/// A copy of a vector of room actions.
fn copy_actions(v: &Vec<RoomAction>) -> (res: Vec<RoomAction>)
    ensures
        action_views(res@) == action_views(v@),
{
    let mut out: Vec<RoomAction> = Vec::new();
    let mut i: usize = 0;
    while i < v.len()
        invariant
            i <= v@.len(),
            action_views(out@) == action_views(v@.take(i as int)),
        decreases v@.len() - i,
    {
        let a = &v[i];
        let c = RoomAction {
            room_id: a.room_id.clone(),
            subject: a.subject.clone(),
            power_level: a.power_level,
        };
        let ghost before = action_views(out@);
        out.push(c);
        assert(action_views(out@) =~= before.push(a.view()));
        assert(action_views(v@.take(i + 1)) =~= action_views(v@.take(i as int)).push(a.view()));
        i = i + 1;
    }
    assert(v@.take(v@.len() as int) =~= v@);
    out
}

} // verus!

verus! {

/// Whether the reconciler is working inside a binding's rooms.
pub open spec fn in_rooms(w: Wait) -> bool {
    !(w is Children) && !(w is Done)
}

/// What holds of every state a reconciliation reaches: while a binding is
/// processed it exists; while its rooms are visited, joining means the
/// user matches it, and kicking means the user does not match and the
/// binding allows removal.
pub open spec fn reconcile_ok(v: ReconcileView) -> bool {
    &&& (v.wait is Children || in_rooms(v.wait)) ==> v.binding < v.bindings.len()
    &&& in_rooms(v.wait) ==> {
        let b = v.bindings[v.binding as int];
        &&& v.next < v.order.len()
        &&& v.mode == Mode::Join ==> binding_matches(b.subject, v.groups, v.roles)
        &&& v.mode == Mode::Kick ==> !binding_matches(b.subject, v.groups, v.roles)
            && b.allow_remove
    }
}

/// A reconciliation starts in a state of `reconcile_ok`.
pub proof fn lemma_reconcile_start_ok(v: ReconcileView)
    requires
        v.wait is Children || v.wait is Done,
    ensures
        reconcile_ok(open_binding(v, 0).0),
{
}

/// Membership safety of reconciliation. Every step keeps `reconcile_ok`;
/// a user is force-joined only to a room of a binding the user matches, and
/// only when the member list just fetched for that room lacks the user; a
/// user is kicked only from a room of a binding the user does not match
/// and that allows removal, and only when the member list just fetched
/// shows the user in it. No other step joins or kicks.
pub proof fn law_reconcile_membership_safety(v: ReconcileView, reply: Reply)
    requires
        reconcile_ok(v),
    ensures
        reconcile_ok(reconcile_next(v, reply).0),
        reconcile_next(v, reply).1 matches Expect::Run(CommandView::ForceJoin { user_id, room_id })
            ==> {
            let b = v.bindings[v.binding as int];
            &&& binding_matches(b.subject, v.groups, v.roles)
            &&& user_id == v.matrix_user_id
            &&& room_id == v.order[v.next as int]@
            &&& reply matches Reply::RoomIds(Ok(m)) && !seq_has_str(m@, user_id)
        },
        reconcile_next(v, reply).1 matches Expect::Run(CommandView::Kick { user_id, room_id, .. })
            ==> {
            let b = v.bindings[v.binding as int];
            &&& !binding_matches(b.subject, v.groups, v.roles)
            &&& b.allow_remove
            &&& user_id == v.matrix_user_id
            &&& room_id == v.order[v.next as int]@
            &&& reply matches Reply::RoomIds(Ok(m)) && seq_has_str(m@, user_id)
        },
{
    match (v.wait, reply) {
        (Wait::Children, Reply::RoomIds(r)) => {
            let b = v.bindings[v.binding as int];
            let targets = expanded(b.target.id(), r);
            assert(targets.len() > 0);
            assert(rev(targets).len() > 0);
        },
        _ => {},
    }
}

/// Warnings only accumulate: every step keeps the warnings gathered so far
/// as a prefix of the new ones.
pub proof fn law_reconcile_warnings_accumulate(v: ReconcileView, reply: Reply)
    requires
        reconcile_ok(v),
    ensures
        v.warnings.is_prefix_of(reconcile_next(v, reply).0.warnings),
{
    let n = reconcile_next(v, reply).0;
    match (v.wait, reply) {
        (Wait::Children, Reply::RoomIds(r)) => {
            let b = v.bindings[v.binding as int];
            assert(v.warnings.is_prefix_of(v.warnings + children_warnings(b.target.id()@, r)));
        },
        (Wait::JoinAudit(_), Reply::Unit(a)) => {
            assert(v.warnings.is_prefix_of(v.warnings + audit_warnings(a)));
        },
        (Wait::KickAudit(_), Reply::Unit(a)) => {
            assert(v.warnings.is_prefix_of(v.warnings + audit_warnings(a)));
        },
        _ => {},
    }
}

} // verus!

verus! {

/// Reconciliation visits every target room of a binding it acts on, in
/// order, and acts on each as its member list demands. From a state inside
/// a binding's rooms, a step either stays on the same room, moves to the
/// next target room of the same binding (asking for its members), or, only
/// from the last target room, moves on to the next binding (or finishes
/// after the last one). Once a member list is fetched, a user missing from a
/// room of a matched binding is force-joined to it, and a user present in a
/// room of a removable unmatched binding is kicked from it. When a binding's
/// children are listed, a matched binding is joined over all its expanded
/// rooms starting with the first, a removable unmatched one is left over
/// the same rooms (children first), and any other binding is passed over.
pub proof fn law_reconcile_visits_every_target(v: ReconcileView, reply: Reply)
    requires
        reconcile_ok(v),
    ensures
        ({
            let (n, e) = reconcile_next(v, reply);
            in_rooms(v.wait) ==> {
                ||| e is Unexpected
                ||| (n.binding == v.binding && n.order == v.order && n.next == v.next && n.mode
                    == v.mode && in_rooms(n.wait))
                ||| (v.next + 1 < v.order.len() && n.binding == v.binding && n.order == v.order
                    && n.next == v.next + 1 && n.mode == v.mode && n.wait is Members && e
                    == Expect::<Seq<Seq<char>>>::Run(
                    CommandView::GetRoomMembers { room_id: v.order[v.next + 1int]@ },
                ))
                ||| (v.next + 1 == v.order.len() && v.binding + 1 < v.bindings.len() && n.binding
                    == v.binding + 1 && n.wait is Children && e == Expect::<Seq<Seq<char>>>::Run(
                    CommandView::GetSpaceChildren {
                        room_id: v.bindings[v.binding + 1int].target.id()@,
                    },
                ))
                ||| (v.next + 1 == v.order.len() && v.binding + 1 == v.bindings.len()
                    && n.wait is Done && e is Finish)
            }
        }),
        ({
            let (n, e) = reconcile_next(v, reply);
            match (v.wait, reply) {
                (Wait::Members, Reply::RoomIds(Ok(m))) => {
                    let t = v.order[v.next as int];
                    &&& (v.mode == Mode::Join && !seq_has_str(m@, v.matrix_user_id)) ==> e
                        == Expect::<Seq<Seq<char>>>::Run(
                        CommandView::ForceJoin { user_id: v.matrix_user_id, room_id: t@ },
                    )
                    &&& (v.mode == Mode::Kick && seq_has_str(m@, v.matrix_user_id)) ==> (e
                        matches Expect::Run(CommandView::Kick { user_id, room_id, .. })
                        && user_id == v.matrix_user_id && room_id == t@)
                },
                _ => true,
            }
        }),
        ({
            let (n, e) = reconcile_next(v, reply);
            match (v.wait, reply) {
                (Wait::Children, Reply::RoomIds(r)) => {
                    let b = v.bindings[v.binding as int];
                    let rooms = expanded(b.target.id(), r);
                    if binding_matches(b.subject, v.groups, v.roles) {
                        &&& n.binding == v.binding && n.mode == Mode::Join && n.next == 0
                        &&& n.wait is Members && n.order == rooms
                        &&& e == Expect::<Seq<Seq<char>>>::Run(
                            CommandView::GetRoomMembers { room_id: rooms[0]@ },
                        )
                    } else if b.allow_remove {
                        &&& n.binding == v.binding && n.mode == Mode::Kick && n.next == 0
                        &&& n.wait is Members && n.order.len() == rooms.len()
                        &&& forall|k: int|
                            0 <= k < rooms.len() ==> n.order[k] == rooms[rooms.len() - 1 - k]
                    } else {
                        ||| (v.binding + 1 < v.bindings.len() && n.binding == v.binding + 1
                            && n.wait is Children)
                        ||| (v.binding + 1 == v.bindings.len() && n.wait is Done && e is Finish)
                    }
                },
                _ => true,
            }
        }),
{
    match (v.wait, reply) {
        (Wait::Children, Reply::RoomIds(r)) => {
            let b = v.bindings[v.binding as int];
            let targets = expanded(b.target.id(), r);
            assert(targets.len() > 0);
        },
        _ => {},
    }
}

} // verus!

verus! {

/// A preview classifies a room as a reconciliation would act on it. When a
/// member list of a target room comes back, the room is listed as a join
/// exactly when the user matches the binding and is not in the room, as a
/// kick exactly when the binding allows removal, the user does not match it
/// and is in the room, and as already correct exactly when the user matches
/// and is in it; the entry added names that room, the binding's subject and
/// power level. Earlier entries are kept, and the preview then moves to
/// the next target room, or from the last one to the next binding.
pub proof fn law_preview_classifies_like_reconcile(v: PreviewView, reply: Reply)
    requires
        !v.done,
        !v.awaiting_children,
        v.binding < v.bindings.len(),
        v.next < v.order.len(),
    ensures
        ({
            let n = preview_next(v, reply).0;
            match reply {
                Reply::RoomIds(Ok(m)) => {
                    let b = v.bindings[v.binding as int];
                    let present = seq_has_str(m@, v.matrix_user_id@);
                    let matches = binding_matches(b.subject, v.groups, v.roles);
                    let a = RoomActionView {
                        room_id: v.order[v.next as int]@,
                        subject: b.subject.text(),
                        power_level: b.power_level,
                    };
                    &&& n.joins == (if matches && !present {
                        v.joins.push(a)
                    } else {
                        v.joins
                    })
                    &&& n.kicks == (if b.allow_remove && !matches && present {
                        v.kicks.push(a)
                    } else {
                        v.kicks
                    })
                    &&& n.already_correct == (if matches && present {
                        v.already_correct.push(a)
                    } else {
                        v.already_correct
                    })
                },
                _ => {
                    &&& n.joins == v.joins
                    &&& n.kicks == v.kicks
                    &&& n.already_correct == v.already_correct
                },
            }
        }),
        ({
            let (n, e) = preview_next(v, reply);
            reply is RoomIds ==> {
                ||| (v.next + 1 < v.order.len() && n.binding == v.binding && n.order == v.order
                    && n.next == v.next + 1 && !n.awaiting_children && !n.done && e
                    == Expect::<PreviewResult>::Run(
                    CommandView::GetRoomMembers { room_id: v.order[v.next + 1int]@ },
                ))
                ||| (v.next + 1 == v.order.len() && v.binding + 1 < v.bindings.len() && n.binding
                    == v.binding + 1 && n.awaiting_children && !n.done)
                ||| (v.next + 1 == v.order.len() && v.binding + 1 == v.bindings.len() && n.done
                    && e is Finish)
            }
        }),
{
}

} // verus!
