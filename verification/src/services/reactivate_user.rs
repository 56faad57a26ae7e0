//! Reactivation of a disabled or offboarded user: the identity account is
//! enabled (fatal on failure), then a deactivated MAS account is
//! reactivated (non-fatal).

use vstd::prelude::*;

use crate::models::audit::AuditResult;
use crate::models::workflow::WorkflowOutcome;
use crate::services::audit_service::{AuditRecord, MetaValue};
use crate::services::identity_mapper::{format_matrix_user_id, matrix_user_id};
use crate::services::lifecycle_steps::{call_next, AuditedCall, CallPhase, CallView};
use crate::services::protocol::{
    error_message, err_msg, outcome_step_is, protocol_error, AuditView, Command, CommandView,
    Expect, MetaView, Reply, Step,
};
use crate::services::reconcile_membership::copy_strings;
use crate::text::views;

verus! {

/// The stage of a reactivation, by value.
#[verifier::ext_equal]
pub enum ReactivateStageView {
    GettingUser,
    Enabling(CallView),
    LookingUpAuth,
    Reactivating(CallView),
    Done,
}

/// The state of a reactivation, by value.
#[verifier::ext_equal]
pub struct ReactivateView {
    pub keycloak_id: Seq<char>,
    pub admin_subject: Seq<char>,
    pub admin_username: Seq<char>,
    pub homeserver_domain: Seq<char>,
    pub username: Seq<char>,
    pub matrix_user_id: Seq<char>,
    pub stage: ReactivateStageView,
    pub warnings: Seq<Seq<char>>,
}

/// An audit entry of a reactivation step, with a placeholder result.
pub open spec fn reactivate_audit(
    v: ReactivateView,
    action: Seq<char>,
    metadata: Seq<(Seq<char>, MetaView)>,
) -> AuditView {
    AuditView {
        admin_subject: v.admin_subject,
        admin_username: v.admin_username,
        target_keycloak_user_id: Some(v.keycloak_id),
        target_matrix_user_id: Some(v.matrix_user_id),
        action,
        result: AuditResult::Success,
        metadata,
    }
}

/// How a reactivation proceeds from state `v` when resumed with `reply`.
pub open spec fn reactivate_next(v: ReactivateView, reply: Reply) -> (ReactivateView, Expect<Seq<Seq<char>>>) {
    let done = ReactivateView { stage: ReactivateStageView::Done, ..v };
    match v.stage {
        ReactivateStageView::GettingUser => match reply {
            Reply::User(Ok(u)) => {
                let v2 = ReactivateView {
                    username: u.username@,
                    matrix_user_id: matrix_user_id(u.username@, v.homeserver_domain),
                    ..v
                };
                (
                    ReactivateView {
                        stage: ReactivateStageView::Enabling(
                            CallView {
                                audit: reactivate_audit(
                                    v2,
                                    "enable_identity_account_on_reactivate"@,
                                    seq![
                                        ("keycloak_user_id"@, MetaView::Str(v.keycloak_id)),
                                        ("username"@, MetaView::Str(u.username@)),
                                    ],
                                ),
                                phase: CallPhase::Calling,
                            },
                        ),
                        ..v2
                    },
                    Expect::Run(CommandView::EnableUser { user_id: v.keycloak_id }),
                )
            },
            Reply::User(Err(e)) => (done, Expect::Fail(e)),
            _ => (done, Expect::Unexpected),
        },
        ReactivateStageView::Enabling(cv) => {
            let (cv2, e) = call_next(cv, reply);
            match e {
                Expect::Run(c) => (
                    ReactivateView { stage: ReactivateStageView::Enabling(cv2), ..v },
                    Expect::Run(c),
                ),
                Expect::Finish(cr) => match cr.call {
                    Err(x) => (done, Expect::Fail(x)),
                    Ok(_) => (
                        ReactivateView { stage: ReactivateStageView::LookingUpAuth, ..v },
                        Expect::Run(CommandView::FindAuthUser { username: v.username }),
                    ),
                },
                _ => (done, Expect::Unexpected),
            }
        },
        ReactivateStageView::LookingUpAuth => match reply {
            Reply::AuthUser(Ok(Some(u))) => if u.deactivated_at is Some {
                (
                    ReactivateView {
                        stage: ReactivateStageView::Reactivating(
                            CallView {
                                audit: reactivate_audit(
                                    v,
                                    "reactivate_auth_account_on_reactivate"@,
                                    seq![
                                        ("auth_user_id"@, MetaView::Str(u.id@)),
                                        ("username"@, MetaView::Str(v.username)),
                                    ],
                                ),
                                phase: CallPhase::Calling,
                            },
                        ),
                        ..v
                    },
                    Expect::Run(CommandView::ReactivateAuthUser { auth_user_id: u.id@ }),
                )
            } else {
                (done, Expect::Finish(v.warnings))
            },
            Reply::AuthUser(Ok(None)) => (done, Expect::Finish(v.warnings)),
            Reply::AuthUser(Err(x)) => {
                let w = v.warnings.push(err_msg("Auth user lookup failed: "@, x));
                (ReactivateView { warnings: w, ..done }, Expect::Finish(w))
            },
            _ => (done, Expect::Unexpected),
        },
        ReactivateStageView::Reactivating(cv) => {
            let (cv2, e) = call_next(cv, reply);
            match e {
                Expect::Run(c) => (
                    ReactivateView { stage: ReactivateStageView::Reactivating(cv2), ..v },
                    Expect::Run(c),
                ),
                Expect::Finish(cr) => {
                    let w = match cr.call {
                        Ok(_) => v.warnings,
                        Err(x) => v.warnings.push(err_msg("Auth account reactivate failed: "@, x)),
                    };
                    (ReactivateView { warnings: w, ..done }, Expect::Finish(w))
                },
                _ => (done, Expect::Unexpected),
            }
        },
        ReactivateStageView::Done => (v, Expect::Unexpected),
    }
}

/// The stage of a reactivation.
pub enum ReactivateStage {
    GettingUser,
    Enabling(AuditedCall),
    LookingUpAuth,
    Reactivating(AuditedCall),
    Done,
}

/// A reactivation of one user.
pub struct Reactivator {
    keycloak_id: String,
    admin_subject: String,
    admin_username: String,
    homeserver_domain: String,
    username: String,
    matrix_user_id: String,
    stage: ReactivateStage,
    warnings: Vec<String>,
}

impl Reactivator {
    pub closed spec fn view(&self) -> ReactivateView {
        ReactivateView {
            keycloak_id: self.keycloak_id@,
            admin_subject: self.admin_subject@,
            admin_username: self.admin_username@,
            homeserver_domain: self.homeserver_domain@,
            username: self.username@,
            matrix_user_id: self.matrix_user_id@,
            stage: match self.stage {
                ReactivateStage::GettingUser => ReactivateStageView::GettingUser,
                ReactivateStage::Enabling(m) => ReactivateStageView::Enabling(m.view()),
                ReactivateStage::LookingUpAuth => ReactivateStageView::LookingUpAuth,
                ReactivateStage::Reactivating(m) => ReactivateStageView::Reactivating(m.view()),
                ReactivateStage::Done => ReactivateStageView::Done,
            },
            warnings: views(self.warnings@),
        }
    }

    fn warn(&mut self, msg: String)
        ensures
            final(self).view() == (ReactivateView {
                warnings: old(self).view().warnings.push(msg@),
                ..old(self).view()
            }),
    {
        let ghost before = views(self.warnings@);
        self.warnings.push(msg);
        assert(views(self.warnings@) =~= before.push(msg@));
    }

    fn finish(&self) -> (res: Step<WorkflowOutcome>)
        ensures
            res matches Step::Finished(Ok(o)) && views(o.warnings@) == self.view().warnings,
    {
        Step::Finished(Ok(WorkflowOutcome { warnings: copy_strings(&self.warnings) }))
    }

    fn audit_base(&self, action: &str, metadata: Vec<(String, MetaValue)>) -> (res: AuditRecord)
        ensures
            res.view() == reactivate_audit(
                self.view(),
                action@,
                crate::services::protocol::meta_views(metadata@),
            ),
    {
        AuditRecord {
            admin_subject: self.admin_subject.clone(),
            admin_username: self.admin_username.clone(),
            target_keycloak_user_id: Some(self.keycloak_id.clone()),
            target_matrix_user_id: Some(self.matrix_user_id.clone()),
            action: String::from_str(action),
            result: AuditResult::Success,
            metadata,
        }
    }

    /// Starts reactivating the Keycloak user `keycloak_id`: the first step
    /// fetches the user.
    pub fn start(
        keycloak_id: &str,
        admin_subject: &str,
        admin_username: &str,
        homeserver_domain: &str,
    ) -> (res: (Self, Step<WorkflowOutcome>))
        ensures
            res.0.view() == (ReactivateView {
                keycloak_id: keycloak_id@,
                admin_subject: admin_subject@,
                admin_username: admin_username@,
                homeserver_domain: homeserver_domain@,
                username: Seq::empty(),
                matrix_user_id: Seq::empty(),
                stage: ReactivateStageView::GettingUser,
                warnings: Seq::empty(),
            }),
            res.1 matches Step::Run(c) && c.view() == (CommandView::GetUser {
                user_id: keycloak_id@,
            }),
    {
        let m = Reactivator {
            keycloak_id: String::from_str(keycloak_id),
            admin_subject: String::from_str(admin_subject),
            admin_username: String::from_str(admin_username),
            homeserver_domain: String::from_str(homeserver_domain),
            username: String::new(),
            matrix_user_id: String::new(),
            stage: ReactivateStage::GettingUser,
            warnings: Vec::new(),
        };
        assert(views(m.warnings@) =~= Seq::<Seq<char>>::empty());
        (m, Step::Run(Command::GetUser { user_id: String::from_str(keycloak_id) }))
    }

    /// Resumes the reactivation with the reply to its last command.
    pub fn resume(&mut self, reply: Reply) -> (res: Step<WorkflowOutcome>)
        ensures
            final(self).view() == reactivate_next(old(self).view(), reply).0,
            outcome_step_is(res, reactivate_next(old(self).view(), reply).1),
    {
        let mut stage = ReactivateStage::Done;
        core::mem::swap(&mut stage, &mut self.stage);
        match stage {
            ReactivateStage::GettingUser => match reply {
                Reply::User(Ok(u)) => {
                    self.matrix_user_id = format_matrix_user_id(
                        u.username.as_str(),
                        self.homeserver_domain.as_str(),
                    );
                    self.username = u.username;
                    let meta = vec![
                        (String::from_str("keycloak_user_id"), MetaValue::Str(self.keycloak_id.clone())),
                        (String::from_str("username"), MetaValue::Str(self.username.clone())),
                    ];
                    let rec = self.audit_base("enable_identity_account_on_reactivate", meta);
                    self.stage = ReactivateStage::Enabling(AuditedCall::new(rec));
                    Step::Run(Command::EnableUser { user_id: self.keycloak_id.clone() })
                },
                Reply::User(Err(e)) => Step::Finished(Err(e)),
                _ => Step::Finished(Err(protocol_error())),
            },
            ReactivateStage::Enabling(mut m) => {
                let step = m.resume(reply);
                match step {
                    Step::Run(c) => {
                        self.stage = ReactivateStage::Enabling(m);
                        Step::Run(c)
                    },
                    Step::Finished(Ok(cr)) => match cr.call {
                        Err(e) => Step::Finished(Err(e)),
                        Ok(_) => {
                            self.stage = ReactivateStage::LookingUpAuth;
                            Step::Run(Command::FindAuthUser { username: self.username.clone() })
                        },
                    },
                    Step::Finished(Err(e)) => Step::Finished(Err(e)),
                }
            },
            ReactivateStage::LookingUpAuth => match reply {
                Reply::AuthUser(Ok(Some(u))) => {
                    if u.deactivated_at.is_some() {
                        let meta = vec![
                            (String::from_str("auth_user_id"), MetaValue::Str(u.id.clone())),
                            (String::from_str("username"), MetaValue::Str(self.username.clone())),
                        ];
                        let rec = self.audit_base("reactivate_auth_account_on_reactivate", meta);
                        self.stage = ReactivateStage::Reactivating(AuditedCall::new(rec));
                        Step::Run(Command::ReactivateAuthUser { auth_user_id: u.id })
                    } else {
                        self.finish()
                    }
                },
                Reply::AuthUser(Ok(None)) => self.finish(),
                Reply::AuthUser(Err(e)) => {
                    self.warn(error_message("Auth user lookup failed: ", &e));
                    self.finish()
                },
                _ => Step::Finished(Err(protocol_error())),
            },
            ReactivateStage::Reactivating(mut m) => {
                let step = m.resume(reply);
                match step {
                    Step::Run(c) => {
                        self.stage = ReactivateStage::Reactivating(m);
                        Step::Run(c)
                    },
                    Step::Finished(Ok(cr)) => {
                        if let Err(e) = &cr.call {
                            self.warn(error_message("Auth account reactivate failed: ", e));
                        }
                        self.finish()
                    },
                    Step::Finished(Err(e)) => Step::Finished(Err(e)),
                }
            },
            ReactivateStage::Done => Step::Finished(Err(protocol_error())),
        }
    }
}

} // verus!

verus! {

/// Whether a reactivation is past the enabling of the identity account.
pub open spec fn past_enable(s: ReactivateStageView) -> bool {
    s is LookingUpAuth || s is Reactivating
}

/// Reactivation touches the MAS account only once the identity account is
/// enabled: a step moves past the enable only from an enable call that
/// succeeded (or from a state already past it); a failed enable call ends
/// the reactivation with its error; a failed MAS reactivation only adds a
/// warning to an outcome that still succeeds.
pub proof fn law_reactivate_enable_first(v: ReactivateView, reply: Reply)
    ensures
        past_enable(reactivate_next(v, reply).0.stage) ==> past_enable(v.stage) || (v.stage matches ReactivateStageView::Enabling(cv)
            && cv.phase matches CallPhase::Auditing(Ok(_))),
        reactivate_next(v, reply).1 matches Expect::Run(CommandView::ReactivateAuthUser { .. })
            ==> v.stage is LookingUpAuth,
        match (v.stage, reply) {
            (ReactivateStageView::Enabling(cv), Reply::Unit(_)) => match cv.phase {
                CallPhase::Auditing(Err(x)) => reactivate_next(v, reply).1 == Expect::<
                    Seq<Seq<char>>,
                >::Fail(x),
                _ => true,
            },
            (ReactivateStageView::Reactivating(cv), Reply::Unit(_)) => match cv.phase {
                CallPhase::Auditing(Err(x)) => reactivate_next(v, reply).1 == Expect::<
                    Seq<Seq<char>>,
                >::Finish(v.warnings.push(err_msg("Auth account reactivate failed: "@, x))),
                _ => true,
            },
            _ => true,
        },
{
}

} // verus!
