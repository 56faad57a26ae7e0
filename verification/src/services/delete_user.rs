//! Deleting a user: the MAS account is deactivated first (fatal once found,
//! so the Keycloak record survives a failure and the admin can retry), then
//! the Keycloak user is deleted. A failed delete after a deactivation is a
//! partial failure with recovery guidance; without one it is fatal.

use vstd::prelude::*;

use crate::error::AppError;
use crate::models::audit::AuditResult;
use crate::models::workflow::WorkflowOutcome;
use crate::services::audit_service::{AuditRecord, MetaValue};
use crate::services::identity_mapper::{format_matrix_user_id, matrix_user_id};
use crate::services::lifecycle_steps::{call_next, AuditedCall, CallPhase, CallView};
use crate::services::protocol::{
    is_protocol_error, meta_views, protocol_error, AuditView, Command, CommandView, Expect,
    MetaView, Reply, Step,
};
use crate::services::reconcile_membership::copy_strings;
use crate::text::views;

verus! {

/// How a delete completed.
pub enum DeleteUserResult {
    /// The Keycloak user was removed.
    Deleted(WorkflowOutcome),
    /// MAS was deactivated but the Keycloak delete failed: the admin must
    /// retry or reactivate.
    PartialFailure(WorkflowOutcome),
}

impl DeleteUserResult {
    /// The outcome of either completion.
    pub open spec fn outcome_spec(&self) -> WorkflowOutcome {
        match self {
            DeleteUserResult::Deleted(o) => *o,
            DeleteUserResult::PartialFailure(o) => *o,
        }
    }

    /// The workflow warnings collected while deleting the user.
    pub fn outcome(&self) -> (res: &WorkflowOutcome)
        ensures
            *res == self.outcome_spec(),
    {
        match self {
            DeleteUserResult::Deleted(o) => o,
            DeleteUserResult::PartialFailure(o) => o,
        }
    }
}

/// The warning added when the MAS lookup fails.
pub open spec fn lookup_failed_warning() -> Seq<char> {
    "Deleted the Keycloak user, but MAS lookup failed before cleanup. Check MAS for a leftover account."@
}

/// The warning of a partial failure.
pub open spec fn partial_failure_warning() -> Seq<char> {
    "MAS was deactivated, but deleting the Keycloak user failed. Retry delete or reactivate the user before reinviting them."@
}

/// The stage of a delete, by value.
#[verifier::ext_equal]
pub enum DeleteStageView {
    GettingUser,
    LookingUpAuth,
    Deactivating(CallView),
    Deleting(CallView),
    Done,
}

/// The state of a delete, by value.
#[verifier::ext_equal]
pub struct DeleteView {
    pub keycloak_id: Seq<char>,
    pub admin_subject: Seq<char>,
    pub admin_username: Seq<char>,
    pub homeserver_domain: Seq<char>,
    pub username: Seq<char>,
    pub matrix_user_id: Seq<char>,
    /// Whether a MAS user was found (and so deactivated before the delete).
    pub auth_found: bool,
    pub stage: DeleteStageView,
    pub warnings: Seq<Seq<char>>,
}

/// How a delete finished, by value: whether it was a partial failure, and
/// its warnings.
pub type DeleteFinish = (bool, Seq<Seq<char>>);

/// An audit entry of a delete step, with a placeholder result.
pub open spec fn delete_audit(
    v: DeleteView,
    action: Seq<char>,
    metadata: Seq<(Seq<char>, MetaView)>,
) -> AuditView {
    AuditView {
        admin_subject: v.admin_subject,
        admin_username: v.admin_username,
        target_keycloak_user_id: Some(v.keycloak_id),
        target_matrix_user_id: Some(v.matrix_user_id),
        action,
        result: AuditResult::Success,
        metadata,
    }
}

/// Deletes the Keycloak user: the last step.
pub open spec fn delete_account(v: DeleteView) -> (DeleteView, Expect<DeleteFinish>) {
    (
        DeleteView {
            stage: DeleteStageView::Deleting(
                CallView {
                    audit: delete_audit(
                        v,
                        "delete_keycloak_user"@,
                        seq![
                            ("keycloak_user_id"@, MetaView::Str(v.keycloak_id)),
                            ("username"@, MetaView::Str(v.username)),
                            ("mas_deactivated"@, MetaView::Bool(v.auth_found)),
                        ],
                    ),
                    phase: CallPhase::Calling,
                },
            ),
            ..v
        },
        Expect::Run(CommandView::DeleteUser { user_id: v.keycloak_id }),
    )
}

/// How a delete proceeds from state `v` when resumed with `reply`.
pub open spec fn delete_next(v: DeleteView, reply: Reply) -> (DeleteView, Expect<DeleteFinish>) {
    let done = DeleteView { stage: DeleteStageView::Done, ..v };
    match v.stage {
        DeleteStageView::GettingUser => match reply {
            Reply::User(Ok(u)) => (
                DeleteView {
                    username: u.username@,
                    matrix_user_id: matrix_user_id(u.username@, v.homeserver_domain),
                    stage: DeleteStageView::LookingUpAuth,
                    ..v
                },
                Expect::Run(CommandView::FindAuthUser { username: u.username@ }),
            ),
            Reply::User(Err(e)) => (done, Expect::Fail(e)),
            _ => (done, Expect::Unexpected),
        },
        DeleteStageView::LookingUpAuth => match reply {
            Reply::AuthUser(Ok(Some(u))) => (
                DeleteView {
                    auth_found: true,
                    stage: DeleteStageView::Deactivating(
                        CallView {
                            audit: delete_audit(
                                v,
                                "deactivate_mas_user"@,
                                seq![
                                    ("keycloak_user_id"@, MetaView::Str(v.keycloak_id)),
                                    ("mas_user_id"@, MetaView::Str(u.id@)),
                                    ("username"@, MetaView::Str(v.username)),
                                ],
                            ),
                            phase: CallPhase::Calling,
                        },
                    ),
                    ..v
                },
                Expect::Run(CommandView::DeactivateAuthUser { auth_user_id: u.id@ }),
            ),
            Reply::AuthUser(Ok(None)) => delete_account(v),
            Reply::AuthUser(Err(_)) => delete_account(
                DeleteView { warnings: v.warnings.push(lookup_failed_warning()), ..v },
            ),
            _ => (done, Expect::Unexpected),
        },
        DeleteStageView::Deactivating(cv) => {
            let (cv2, e) = call_next(cv, reply);
            match e {
                Expect::Run(c) => (
                    DeleteView { stage: DeleteStageView::Deactivating(cv2), ..v },
                    Expect::Run(c),
                ),
                Expect::Finish(cr) => match (cr.audit, cr.call) {
                    (Err(a), _) => (done, Expect::Fail(a)),
                    (Ok(_), Err(x)) => (done, Expect::Fail(x)),
                    (Ok(_), Ok(_)) => delete_account(v),
                },
                _ => (done, Expect::Unexpected),
            }
        },
        DeleteStageView::Deleting(cv) => {
            let (cv2, e) = call_next(cv, reply);
            match e {
                Expect::Run(c) => (
                    DeleteView { stage: DeleteStageView::Deleting(cv2), ..v },
                    Expect::Run(c),
                ),
                Expect::Finish(cr) => match (cr.audit, cr.call) {
                    (Err(a), _) => (done, Expect::Fail(a)),
                    (Ok(_), Err(x)) => if v.auth_found {
                        let w = v.warnings.push(partial_failure_warning());
                        (DeleteView { warnings: w, ..done }, Expect::Finish((true, w)))
                    } else {
                        (done, Expect::Fail(x))
                    },
                    (Ok(_), Ok(_)) => (done, Expect::Finish((false, v.warnings))),
                },
                _ => (done, Expect::Unexpected),
            }
        },
        DeleteStageView::Done => (v, Expect::Unexpected),
    }
}

/// Whether a step of a delete is the expected one.
pub open spec fn delete_step_is(s: Step<DeleteUserResult>, e: Expect<DeleteFinish>) -> bool {
    match (s, e) {
        (Step::Run(c), Expect::Run(cv)) => c.view() == cv,
        (Step::Finished(Ok(r)), Expect::Finish(f)) => {
            &&& (r is PartialFailure <==> f.0)
            &&& views(r.outcome_spec().warnings@) == f.1
        },
        (Step::Finished(Err(x)), Expect::Fail(y)) => x == y,
        (Step::Finished(Err(x)), Expect::Unexpected) => is_protocol_error(x),
        _ => false,
    }
}

/// The stage of a delete.
pub enum DeleteStage {
    GettingUser,
    LookingUpAuth,
    Deactivating(AuditedCall),
    Deleting(AuditedCall),
    Done,
}

/// A delete of one user from Keycloak and MAS.
pub struct Deleter {
    keycloak_id: String,
    admin_subject: String,
    admin_username: String,
    homeserver_domain: String,
    username: String,
    matrix_user_id: String,
    auth_found: bool,
    stage: DeleteStage,
    warnings: Vec<String>,
}

impl Deleter {
    pub closed spec fn view(&self) -> DeleteView {
        DeleteView {
            keycloak_id: self.keycloak_id@,
            admin_subject: self.admin_subject@,
            admin_username: self.admin_username@,
            homeserver_domain: self.homeserver_domain@,
            username: self.username@,
            matrix_user_id: self.matrix_user_id@,
            auth_found: self.auth_found,
            stage: match self.stage {
                DeleteStage::GettingUser => DeleteStageView::GettingUser,
                DeleteStage::LookingUpAuth => DeleteStageView::LookingUpAuth,
                DeleteStage::Deactivating(m) => DeleteStageView::Deactivating(m.view()),
                DeleteStage::Deleting(m) => DeleteStageView::Deleting(m.view()),
                DeleteStage::Done => DeleteStageView::Done,
            },
            warnings: views(self.warnings@),
        }
    }

    fn audit_base(&self, action: &str, metadata: Vec<(String, MetaValue)>) -> (res: AuditRecord)
        ensures
            res.view() == delete_audit(self.view(), action@, meta_views(metadata@)),
    {
        AuditRecord {
            admin_subject: self.admin_subject.clone(),
            admin_username: self.admin_username.clone(),
            target_keycloak_user_id: Some(self.keycloak_id.clone()),
            target_matrix_user_id: Some(self.matrix_user_id.clone()),
            action: String::from_str(action),
            result: AuditResult::Success,
            metadata,
        }
    }

    fn delete_account(&mut self) -> (res: Step<DeleteUserResult>)
        ensures
            final(self).view() == delete_account(old(self).view()).0,
            delete_step_is(res, delete_account(old(self).view()).1),
    {
        let meta = vec![
            (String::from_str("keycloak_user_id"), MetaValue::Str(self.keycloak_id.clone())),
            (String::from_str("username"), MetaValue::Str(self.username.clone())),
            (String::from_str("mas_deactivated"), MetaValue::Bool(self.auth_found)),
        ];
        let rec = self.audit_base("delete_keycloak_user", meta);
        self.stage = DeleteStage::Deleting(AuditedCall::new(rec));
        Step::Run(Command::DeleteUser { user_id: self.keycloak_id.clone() })
    }

    fn warn(&mut self, msg: String)
        ensures
            final(self).view() == (DeleteView {
                warnings: old(self).view().warnings.push(msg@),
                ..old(self).view()
            }),
    {
        let ghost before = views(self.warnings@);
        self.warnings.push(msg);
        assert(views(self.warnings@) =~= before.push(msg@));
    }

    /// Starts deleting the Keycloak user `keycloak_id`: the first step
    /// fetches the user.
    pub fn start(
        keycloak_id: &str,
        admin_subject: &str,
        admin_username: &str,
        homeserver_domain: &str,
    ) -> (res: (Self, Step<DeleteUserResult>))
        ensures
            res.0.view() == (DeleteView {
                keycloak_id: keycloak_id@,
                admin_subject: admin_subject@,
                admin_username: admin_username@,
                homeserver_domain: homeserver_domain@,
                username: Seq::empty(),
                matrix_user_id: Seq::empty(),
                auth_found: false,
                stage: DeleteStageView::GettingUser,
                warnings: Seq::empty(),
            }),
            res.1 matches Step::Run(c) && c.view() == (CommandView::GetUser {
                user_id: keycloak_id@,
            }),
    {
        let m = Deleter {
            keycloak_id: String::from_str(keycloak_id),
            admin_subject: String::from_str(admin_subject),
            admin_username: String::from_str(admin_username),
            homeserver_domain: String::from_str(homeserver_domain),
            username: String::new(),
            matrix_user_id: String::new(),
            auth_found: false,
            stage: DeleteStage::GettingUser,
            warnings: Vec::new(),
        };
        assert(views(m.warnings@) =~= Seq::<Seq<char>>::empty());
        (m, Step::Run(Command::GetUser { user_id: String::from_str(keycloak_id) }))
    }

    /// Resumes the delete with the reply to its last command.
    pub fn resume(&mut self, reply: Reply) -> (res: Step<DeleteUserResult>)
        ensures
            final(self).view() == delete_next(old(self).view(), reply).0,
            delete_step_is(res, delete_next(old(self).view(), reply).1),
    {
        let mut stage = DeleteStage::Done;
        core::mem::swap(&mut stage, &mut self.stage);
        match stage {
            DeleteStage::GettingUser => match reply {
                Reply::User(Ok(u)) => {
                    self.matrix_user_id = format_matrix_user_id(
                        u.username.as_str(),
                        self.homeserver_domain.as_str(),
                    );
                    self.username = u.username;
                    self.stage = DeleteStage::LookingUpAuth;
                    Step::Run(Command::FindAuthUser { username: self.username.clone() })
                },
                Reply::User(Err(e)) => Step::Finished(Err(e)),
                _ => Step::Finished(Err(protocol_error())),
            },
            DeleteStage::LookingUpAuth => match reply {
                Reply::AuthUser(Ok(Some(u))) => {
                    self.auth_found = true;
                    let meta = vec![
                        (String::from_str("keycloak_user_id"), MetaValue::Str(self.keycloak_id.clone())),
                        (String::from_str("mas_user_id"), MetaValue::Str(u.id.clone())),
                        (String::from_str("username"), MetaValue::Str(self.username.clone())),
                    ];
                    let rec = self.audit_base("deactivate_mas_user", meta);
                    self.stage = DeleteStage::Deactivating(AuditedCall::new(rec));
                    Step::Run(Command::DeactivateAuthUser { auth_user_id: u.id })
                },
                Reply::AuthUser(Ok(None)) => self.delete_account(),
                Reply::AuthUser(Err(_)) => {
                    self.warn(
                        String::from_str(
                            "Deleted the Keycloak user, but MAS lookup failed before cleanup. Check MAS for a leftover account.",
                        ),
                    );
                    self.delete_account()
                },
                _ => Step::Finished(Err(protocol_error())),
            },
            DeleteStage::Deactivating(mut m) => {
                let step = m.resume(reply);
                match step {
                    Step::Run(c) => {
                        self.stage = DeleteStage::Deactivating(m);
                        Step::Run(c)
                    },
                    Step::Finished(Ok(cr)) => match (cr.audit, cr.call) {
                        (Err(a), _) => Step::Finished(Err(a)),
                        (Ok(_), Err(x)) => Step::Finished(Err(x)),
                        (Ok(_), Ok(_)) => self.delete_account(),
                    },
                    Step::Finished(Err(e)) => Step::Finished(Err(e)),
                }
            },
            DeleteStage::Deleting(mut m) => {
                let step = m.resume(reply);
                match step {
                    Step::Run(c) => {
                        self.stage = DeleteStage::Deleting(m);
                        Step::Run(c)
                    },
                    Step::Finished(Ok(cr)) => match (cr.audit, cr.call) {
                        (Err(a), _) => Step::Finished(Err(a)),
                        (Ok(_), Err(x)) => {
                            if self.auth_found {
                                self.warn(
                                    String::from_str(
                                        "MAS was deactivated, but deleting the Keycloak user failed. Retry delete or reactivate the user before reinviting them.",
                                    ),
                                );
                                Step::Finished(
                                    Ok(
                                        DeleteUserResult::PartialFailure(
                                            WorkflowOutcome { warnings: copy_strings(&self.warnings) },
                                        ),
                                    ),
                                )
                            } else {
                                Step::Finished(Err(x))
                            }
                        },
                        (Ok(_), Ok(_)) => Step::Finished(
                            Ok(
                                DeleteUserResult::Deleted(
                                    WorkflowOutcome { warnings: copy_strings(&self.warnings) },
                                ),
                            ),
                        ),
                    },
                    Step::Finished(Err(e)) => Step::Finished(Err(e)),
                }
            },
            DeleteStage::Done => Step::Finished(Err(protocol_error())),
        }
    }
}

} // verus!

verus! {

/// MAS is deactivated before Keycloak is touched, so a failure leaves the
/// Keycloak record for a retry: when the deactivation (or its audit entry)
/// fails, the delete ends with that error and never asks to delete the
/// Keycloak user; a partial failure is reported only once the MAS account
/// was deactivated.
pub proof fn law_delete_preserves_keycloak_on_mas_failure(v: DeleteView, reply: Reply)
    ensures
        ({
            let (n, e) = delete_next(v, reply);
            &&& (v.stage matches DeleteStageView::Deactivating(cv) && call_next(cv, reply).1 matches Expect::Finish(cr)
                && (cr.call is Err || cr.audit is Err)) ==> (e is Fail && !(e matches Expect::Run(
                CommandView::DeleteUser { .. },
            )))
            &&& (e matches Expect::Finish(f) && f.0) ==> v.auth_found
        }),
{
}

} // verus!
