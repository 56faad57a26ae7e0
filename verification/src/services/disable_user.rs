//! Disabling a user: every active MAS session is revoked (a failed revoke
//! only warns, but its audit entry must be written), then the identity
//! account is disabled (fatal, audit-logged). A failed or empty MAS lookup,
//! or a failed session listing, skips revocation without a warning.

use vstd::prelude::*;

use crate::models::audit::AuditResult;
use crate::models::mas::MasSession;
use crate::models::workflow::WorkflowOutcome;
use crate::services::audit_service::{AuditRecord, MetaValue};
use crate::services::identity_mapper::{format_matrix_user_id, matrix_user_id};
use crate::services::lifecycle_steps::{
    active_sessions, call_next, keep_active, AuditedCall, CallPhase, CallView,
};
use crate::services::protocol::{
    error_message, err_msg, meta_views, outcome_step_is, protocol_error, AuditView, Command,
    CommandView, Expect, MetaView, Reply, Step,
};
use crate::services::reconcile_membership::copy_strings;
use crate::text::{cat3, views};

verus! {

/// The stage of a disable, by value.
#[verifier::ext_equal]
pub enum DisableStageView {
    GettingUser,
    LookingUpAuth,
    Listing,
    Revoking(CallView),
    Disabling(CallView),
    Done,
}

/// The state of a disable, by value.
#[verifier::ext_equal]
pub struct DisableView {
    pub keycloak_id: Seq<char>,
    pub admin_subject: Seq<char>,
    pub admin_username: Seq<char>,
    pub homeserver_domain: Seq<char>,
    pub username: Seq<char>,
    pub matrix_user_id: Seq<char>,
    /// Whether the MAS user was found.
    pub auth_found: bool,
    /// The active sessions to revoke, in order.
    pub sessions: Seq<MasSession>,
    /// The session being revoked.
    pub next: nat,
    pub stage: DisableStageView,
    pub warnings: Seq<Seq<char>>,
}

/// An audit entry of a disable step, with a placeholder result.
pub open spec fn disable_audit(
    v: DisableView,
    action: Seq<char>,
    metadata: Seq<(Seq<char>, MetaView)>,
) -> AuditView {
    AuditView {
        admin_subject: v.admin_subject,
        admin_username: v.admin_username,
        target_keycloak_user_id: Some(v.keycloak_id),
        target_matrix_user_id: Some(v.matrix_user_id),
        action,
        result: AuditResult::Success,
        metadata,
    }
}

/// Disables the identity account: the last step.
pub open spec fn disable_account(v: DisableView) -> (DisableView, Expect<Seq<Seq<char>>>) {
    (
        DisableView {
            stage: DisableStageView::Disabling(
                CallView {
                    audit: disable_audit(
                        v,
                        "disable_keycloak_account"@,
                        seq![
                            ("keycloak_user_id"@, MetaView::Str(v.keycloak_id)),
                            ("username"@, MetaView::Str(v.username)),
                            ("mas_sessions_found"@, MetaView::Bool(v.auth_found)),
                        ],
                    ),
                    phase: CallPhase::Calling,
                },
            ),
            ..v
        },
        Expect::Run(CommandView::DisableUser { user_id: v.keycloak_id }),
    )
}

/// Revokes session `i`, or disables the account when none is left.
pub open spec fn disable_at(v: DisableView, i: nat) -> (DisableView, Expect<Seq<Seq<char>>>) {
    if i < v.sessions.len() {
        let s = v.sessions[i as int];
        (
            DisableView {
                next: i,
                stage: DisableStageView::Revoking(
                    CallView {
                        audit: disable_audit(
                            v,
                            "revoke_mas_session_on_disable"@,
                            seq![
                                ("session_id"@, MetaView::Str(s.id@)),
                                ("session_type"@, MetaView::Str(s.session_type@)),
                            ],
                        ),
                        phase: CallPhase::Calling,
                    },
                ),
                ..v
            },
            Expect::Run(
                CommandView::FinishAuthSession { session_id: s.id@, session_type: s.session_type@ },
            ),
        )
    } else {
        disable_account(v)
    }
}

/// The warning of a session that could not be revoked.
pub open spec fn revoke_warning(s: MasSession, e: crate::error::AppError) -> Seq<char> {
    err_msg("Session "@ + s.id@ + " ("@ + s.session_type@ + ") could not be revoked: "@, e)
}

/// How a disable proceeds from state `v` when resumed with `reply`.
pub open spec fn disable_next(v: DisableView, reply: Reply) -> (DisableView, Expect<Seq<Seq<char>>>) {
    let done = DisableView { stage: DisableStageView::Done, ..v };
    match v.stage {
        DisableStageView::GettingUser => match reply {
            Reply::User(Ok(u)) => (
                DisableView {
                    username: u.username@,
                    matrix_user_id: matrix_user_id(u.username@, v.homeserver_domain),
                    stage: DisableStageView::LookingUpAuth,
                    ..v
                },
                Expect::Run(CommandView::FindAuthUser { username: u.username@ }),
            ),
            Reply::User(Err(e)) => (done, Expect::Fail(e)),
            _ => (done, Expect::Unexpected),
        },
        DisableStageView::LookingUpAuth => match reply {
            Reply::AuthUser(Ok(Some(u))) => (
                DisableView { auth_found: true, stage: DisableStageView::Listing, ..v },
                Expect::Run(CommandView::ListAuthSessions { auth_user_id: u.id@ }),
            ),
            Reply::AuthUser(_) => disable_account(v),
            _ => (done, Expect::Unexpected),
        },
        DisableStageView::Listing => match reply {
            Reply::Sessions(Ok(ss)) => disable_at(
                DisableView { sessions: active_sessions(ss@), ..v },
                0,
            ),
            Reply::Sessions(Err(_)) => disable_account(v),
            _ => (done, Expect::Unexpected),
        },
        DisableStageView::Revoking(cv) => {
            let (cv2, e) = call_next(cv, reply);
            match e {
                Expect::Run(c) => (
                    DisableView { stage: DisableStageView::Revoking(cv2), ..v },
                    Expect::Run(c),
                ),
                Expect::Finish(cr) => match cr.audit {
                    Err(a) => (done, Expect::Fail(a)),
                    Ok(_) => {
                        let w = match cr.call {
                            Ok(_) => v.warnings,
                            Err(x) => v.warnings.push(revoke_warning(v.sessions[v.next as int], x)),
                        };
                        disable_at(DisableView { warnings: w, ..v }, v.next + 1)
                    },
                },
                _ => (done, Expect::Unexpected),
            }
        },
        DisableStageView::Disabling(cv) => {
            let (cv2, e) = call_next(cv, reply);
            match e {
                Expect::Run(c) => (
                    DisableView { stage: DisableStageView::Disabling(cv2), ..v },
                    Expect::Run(c),
                ),
                Expect::Finish(cr) => match (cr.audit, cr.call) {
                    (Err(a), _) => (done, Expect::Fail(a)),
                    (Ok(_), Err(x)) => (done, Expect::Fail(x)),
                    (Ok(_), Ok(_)) => (done, Expect::Finish(v.warnings)),
                },
                _ => (done, Expect::Unexpected),
            }
        },
        DisableStageView::Done => (v, Expect::Unexpected),
    }
}

/// The stage of a disable.
pub enum DisableStage {
    GettingUser,
    LookingUpAuth,
    Listing,
    Revoking(AuditedCall),
    Disabling(AuditedCall),
    Done,
}

/// A disable of one user across Keycloak and MAS.
pub struct Disabler {
    keycloak_id: String,
    admin_subject: String,
    admin_username: String,
    homeserver_domain: String,
    username: String,
    matrix_user_id: String,
    auth_found: bool,
    sessions: Vec<MasSession>,
    next: usize,
    stage: DisableStage,
    warnings: Vec<String>,
}

impl Disabler {
    pub closed spec fn view(&self) -> DisableView {
        DisableView {
            keycloak_id: self.keycloak_id@,
            admin_subject: self.admin_subject@,
            admin_username: self.admin_username@,
            homeserver_domain: self.homeserver_domain@,
            username: self.username@,
            matrix_user_id: self.matrix_user_id@,
            auth_found: self.auth_found,
            sessions: self.sessions@,
            next: self.next as nat,
            stage: match self.stage {
                DisableStage::GettingUser => DisableStageView::GettingUser,
                DisableStage::LookingUpAuth => DisableStageView::LookingUpAuth,
                DisableStage::Listing => DisableStageView::Listing,
                DisableStage::Revoking(m) => DisableStageView::Revoking(m.view()),
                DisableStage::Disabling(m) => DisableStageView::Disabling(m.view()),
                DisableStage::Done => DisableStageView::Done,
            },
            warnings: views(self.warnings@),
        }
    }

    /// A session is being revoked only while one is left.
    pub closed spec fn wf(&self) -> bool {
        self.stage is Revoking ==> self.next < self.sessions@.len()
    }

    fn audit_base(&self, action: &str, metadata: Vec<(String, MetaValue)>) -> (res: AuditRecord)
        ensures
            res.view() == disable_audit(self.view(), action@, meta_views(metadata@)),
    {
        AuditRecord {
            admin_subject: self.admin_subject.clone(),
            admin_username: self.admin_username.clone(),
            target_keycloak_user_id: Some(self.keycloak_id.clone()),
            target_matrix_user_id: Some(self.matrix_user_id.clone()),
            action: String::from_str(action),
            result: AuditResult::Success,
            metadata,
        }
    }

    fn disable_account(&mut self) -> (res: Step<WorkflowOutcome>)
        ensures
            final(self).wf(),
            final(self).view() == disable_account(old(self).view()).0,
            outcome_step_is(res, disable_account(old(self).view()).1),
    {
        let meta = vec![
            (String::from_str("keycloak_user_id"), MetaValue::Str(self.keycloak_id.clone())),
            (String::from_str("username"), MetaValue::Str(self.username.clone())),
            (String::from_str("mas_sessions_found"), MetaValue::Bool(self.auth_found)),
        ];
        let rec = self.audit_base("disable_keycloak_account", meta);
        self.stage = DisableStage::Disabling(AuditedCall::new(rec));
        Step::Run(Command::DisableUser { user_id: self.keycloak_id.clone() })
    }

    fn disable_at(&mut self, i: usize) -> (res: Step<WorkflowOutcome>)
        ensures
            final(self).wf(),
            final(self).view() == disable_at(old(self).view(), i as nat).0,
            outcome_step_is(res, disable_at(old(self).view(), i as nat).1),
    {
        if i < self.sessions.len() {
            self.next = i;
            let meta = vec![
                (String::from_str("session_id"), MetaValue::Str(self.sessions[i].id.clone())),
                (
                    String::from_str("session_type"),
                    MetaValue::Str(self.sessions[i].session_type.clone()),
                ),
            ];
            let rec = self.audit_base("revoke_mas_session_on_disable", meta);
            self.stage = DisableStage::Revoking(AuditedCall::new(rec));
            Step::Run(
                Command::FinishAuthSession {
                    session_id: self.sessions[i].id.clone(),
                    session_type: self.sessions[i].session_type.clone(),
                },
            )
        } else {
            self.disable_account()
        }
    }

    fn warn(&mut self, msg: String)
        ensures
            final(self).view() == (DisableView {
                warnings: old(self).view().warnings.push(msg@),
                ..old(self).view()
            }),
            final(self).wf() == old(self).wf(),
    {
        let ghost before = views(self.warnings@);
        self.warnings.push(msg);
        assert(views(self.warnings@) =~= before.push(msg@));
    }

    /// Starts disabling the Keycloak user `keycloak_id`: the first step
    /// fetches the user.
    pub fn start(
        keycloak_id: &str,
        admin_subject: &str,
        admin_username: &str,
        homeserver_domain: &str,
    ) -> (res: (Self, Step<WorkflowOutcome>))
        ensures
            res.0.wf(),
            res.0.view() == (DisableView {
                keycloak_id: keycloak_id@,
                admin_subject: admin_subject@,
                admin_username: admin_username@,
                homeserver_domain: homeserver_domain@,
                username: Seq::empty(),
                matrix_user_id: Seq::empty(),
                auth_found: false,
                sessions: Seq::empty(),
                next: 0,
                stage: DisableStageView::GettingUser,
                warnings: Seq::empty(),
            }),
            res.1 matches Step::Run(c) && c.view() == (CommandView::GetUser {
                user_id: keycloak_id@,
            }),
    {
        let m = Disabler {
            keycloak_id: String::from_str(keycloak_id),
            admin_subject: String::from_str(admin_subject),
            admin_username: String::from_str(admin_username),
            homeserver_domain: String::from_str(homeserver_domain),
            username: String::new(),
            matrix_user_id: String::new(),
            auth_found: false,
            sessions: Vec::new(),
            next: 0,
            stage: DisableStage::GettingUser,
            warnings: Vec::new(),
        };
        assert(views(m.warnings@) =~= Seq::<Seq<char>>::empty());
        (m, Step::Run(Command::GetUser { user_id: String::from_str(keycloak_id) }))
    }

    /// Resumes the disable with the reply to its last command.
    pub fn resume(&mut self, reply: Reply) -> (res: Step<WorkflowOutcome>)
        requires
            old(self).wf(),
        ensures
            final(self).wf(),
            final(self).view() == disable_next(old(self).view(), reply).0,
            outcome_step_is(res, disable_next(old(self).view(), reply).1),
    {
        let ghost revoking = self.stage is Revoking;
        let mut stage = DisableStage::Done;
        core::mem::swap(&mut stage, &mut self.stage);
        assert(revoking ==> self.next < self.sessions@.len());
        match stage {
            DisableStage::GettingUser => match reply {
                Reply::User(Ok(u)) => {
                    self.matrix_user_id = format_matrix_user_id(
                        u.username.as_str(),
                        self.homeserver_domain.as_str(),
                    );
                    self.username = u.username;
                    self.stage = DisableStage::LookingUpAuth;
                    Step::Run(Command::FindAuthUser { username: self.username.clone() })
                },
                Reply::User(Err(e)) => Step::Finished(Err(e)),
                _ => Step::Finished(Err(protocol_error())),
            },
            DisableStage::LookingUpAuth => match reply {
                Reply::AuthUser(Ok(Some(u))) => {
                    self.auth_found = true;
                    self.stage = DisableStage::Listing;
                    Step::Run(Command::ListAuthSessions { auth_user_id: u.id })
                },
                Reply::AuthUser(_) => self.disable_account(),
                _ => Step::Finished(Err(protocol_error())),
            },
            DisableStage::Listing => match reply {
                Reply::Sessions(Ok(ss)) => {
                    self.sessions = keep_active(ss);
                    self.disable_at(0)
                },
                Reply::Sessions(Err(_)) => self.disable_account(),
                _ => Step::Finished(Err(protocol_error())),
            },
            DisableStage::Revoking(mut m) => {
                let step = m.resume(reply);
                match step {
                    Step::Run(c) => {
                        self.stage = DisableStage::Revoking(m);
                        Step::Run(c)
                    },
                    Step::Finished(Ok(cr)) => match cr.audit {
                        Err(a) => Step::Finished(Err(a)),
                        Ok(_) => {
                            if let Err(e) = &cr.call {
                                let s = &self.sessions[self.next];
                                let p = cat3("Session ", s.id.as_str(), " (");
                                let p = p.concat(s.session_type.as_str());
                                let p = p.concat(") could not be revoked: ");
                                self.warn(error_message(p.as_str(), e));
                            }
                            let n = self.sessions.len();
                            self.disable_at(self.next + 1)
                        },
                    },
                    Step::Finished(Err(e)) => Step::Finished(Err(e)),
                }
            },
            DisableStage::Disabling(mut m) => {
                let step = m.resume(reply);
                match step {
                    Step::Run(c) => {
                        self.stage = DisableStage::Disabling(m);
                        Step::Run(c)
                    },
                    Step::Finished(Ok(cr)) => match (cr.audit, cr.call) {
                        (Err(a), _) => Step::Finished(Err(a)),
                        (Ok(_), Err(x)) => Step::Finished(Err(x)),
                        (Ok(_), Ok(_)) => Step::Finished(
                            Ok(WorkflowOutcome { warnings: copy_strings(&self.warnings) }),
                        ),
                    },
                    Step::Finished(Err(e)) => Step::Finished(Err(e)),
                }
            },
            DisableStage::Done => Step::Finished(Err(protocol_error())),
        }
    }
}

} // verus!

verus! {

/// The account is disabled only after every active session was handled:
/// the step that asks to disable the Keycloak user comes after the user
/// lookup found no MAS account, after the session listing, or after the
/// revocation of the last session.
pub proof fn law_disable_after_all_sessions(v: DisableView, reply: Reply)
    ensures
        disable_next(v, reply).1 matches Expect::Run(CommandView::DisableUser { user_id }) ==> {
            &&& user_id == v.keycloak_id
            &&& match v.stage {
                DisableStageView::Revoking(_) => v.next + 1 >= v.sessions.len(),
                DisableStageView::Listing => reply matches Reply::Sessions(Ok(ss))
                    ==> active_sessions(ss@).len() == 0,
                DisableStageView::LookingUpAuth => !(reply matches Reply::AuthUser(Ok(Some(_)))),
                _ => false,
            }
        },
{
}

} // verus!
