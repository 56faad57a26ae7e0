//! Offboarding: removes a user from every system. Sessions are revoked and
//! the identity logged out (non-fatal), the identity account disabled
//! (fatal), the user kicked from all mapped rooms (non-fatal; skipped with a
//! warning without a Matrix connector), and the MAS account deactivated
//! (fatal once found; a failed lookup only warns).

use vstd::prelude::*;

use crate::error::AppError;
use crate::models::audit::AuditResult;
use crate::models::policy_binding::{copy_bindings, PolicyBinding};
use crate::models::workflow::WorkflowOutcome;
use crate::services::audit_service::{AuditRecord, MetaValue};
use crate::services::identity_mapper::{format_matrix_user_id, matrix_user_id};
use crate::services::lifecycle_steps::{
    call_next, evict_next, evict_open, revoke_next, AuditedCall, CallPhase, CallResult, CallView,
    EvictPhase, EvictView, RevokePhase, RevokeView, RoomEvictor, SessionRevoker,
};
use crate::services::protocol::{
    error_message, err_msg, outcome_step_is, protocol_error, AuditView, Command, CommandView,
    Expect, MetaView, Reply, Step,
};
use crate::services::reconcile_membership::copy_strings;
use crate::text::views;

verus! {

/// The stage of an offboarding, by value.
#[verifier::ext_equal]
pub enum OffboardStageView {
    GettingUser,
    Revoking(RevokeView),
    LoggingOut(CallView),
    Disabling(CallView),
    Evicting(EvictView),
    LookingUpAuth,
    Deactivating(CallView),
    Done,
}

/// The state of an offboarding, by value.
#[verifier::ext_equal]
pub struct OffboardView {
    pub keycloak_id: Seq<char>,
    pub bindings: Seq<PolicyBinding>,
    pub synapse_configured: bool,
    pub admin_subject: Seq<char>,
    pub admin_username: Seq<char>,
    pub homeserver_domain: Seq<char>,
    pub username: Seq<char>,
    pub matrix_user_id: Seq<char>,
    pub stage: OffboardStageView,
    pub warnings: Seq<Seq<char>>,
}

/// An audit entry of an offboarding step on the user, with a placeholder
/// result that the call's outcome replaces.
pub open spec fn step_audit(
    v: OffboardView,
    action: Seq<char>,
    metadata: Seq<(Seq<char>, MetaView)>,
) -> AuditView {
    AuditView {
        admin_subject: v.admin_subject,
        admin_username: v.admin_username,
        target_keycloak_user_id: Some(v.keycloak_id),
        target_matrix_user_id: Some(v.matrix_user_id),
        action,
        result: AuditResult::Success,
        metadata,
    }
}

/// Starts the MAS lookup of the deactivation step.
pub open spec fn offboard_lookup(v: OffboardView) -> (OffboardView, Expect<Seq<Seq<char>>>) {
    (
        OffboardView { stage: OffboardStageView::LookingUpAuth, ..v },
        Expect::Run(CommandView::FindAuthUser { username: v.username }),
    )
}

/// After the identity account is disabled: evicts from the mapped rooms
/// when a Matrix connector is configured, else warns if bindings exist;
/// then looks up the MAS account.
pub open spec fn offboard_after_disable(v: OffboardView) -> (OffboardView, Expect<Seq<Seq<char>>>) {
    if v.synapse_configured {
        let e0 = EvictView {
            context: "offboard"@,
            keycloak_id: v.keycloak_id,
            matrix_user_id: v.matrix_user_id,
            admin_subject: v.admin_subject,
            admin_username: v.admin_username,
            bindings: v.bindings,
            binding: 0,
            order: Seq::empty(),
            next: 0,
            phase: EvictPhase::Children,
            warnings: Seq::empty(),
        };
        match evict_open(e0, 0).1 {
            Expect::Run(c) => (
                OffboardView { stage: OffboardStageView::Evicting(evict_open(e0, 0).0), ..v },
                Expect::Run(c),
            ),
            _ => offboard_lookup(v),
        }
    } else if v.bindings.len() > 0 {
        offboard_lookup(
            OffboardView {
                warnings: v.warnings.push(
                    "Matrix connector not configured; room membership was not cleaned up"@,
                ),
                ..v
            },
        )
    } else {
        offboard_lookup(v)
    }
}

/// How an offboarding proceeds from state `v` when resumed with `reply`.
pub open spec fn offboard_next(v: OffboardView, reply: Reply) -> (OffboardView, Expect<Seq<Seq<char>>>) {
    match v.stage {
        OffboardStageView::GettingUser => match reply {
            Reply::User(Ok(u)) => {
                let mx = matrix_user_id(u.username@, v.homeserver_domain);
                (
                    OffboardView {
                        username: u.username@,
                        matrix_user_id: mx,
                        stage: OffboardStageView::Revoking(
                            RevokeView {
                                context: "offboard"@,
                                keycloak_id: v.keycloak_id,
                                username: u.username@,
                                matrix_user_id: mx,
                                admin_subject: v.admin_subject,
                                admin_username: v.admin_username,
                                sessions: Seq::empty(),
                                next: 0,
                                phase: RevokePhase::LookingUp,
                                warnings: Seq::empty(),
                            },
                        ),
                        ..v
                    },
                    Expect::Run(CommandView::FindAuthUser { username: u.username@ }),
                )
            },
            Reply::User(Err(e)) => (
                OffboardView { stage: OffboardStageView::Done, ..v },
                Expect::Fail(e),
            ),
            _ => (OffboardView { stage: OffboardStageView::Done, ..v }, Expect::Unexpected),
        },
        OffboardStageView::Revoking(rv) => {
            let (rv2, e) = revoke_next(rv, reply);
            match e {
                Expect::Run(c) => (
                    OffboardView { stage: OffboardStageView::Revoking(rv2), ..v },
                    Expect::Run(c),
                ),
                Expect::Finish(w) => {
                    let v2 = OffboardView { warnings: v.warnings + w, ..v };
                    (
                        OffboardView {
                            stage: OffboardStageView::LoggingOut(
                                CallView {
                                    audit: step_audit(
                                        v2,
                                        "force_identity_logout_on_offboard"@,
                                        seq![("keycloak_user_id"@, MetaView::Str(v.keycloak_id))],
                                    ),
                                    phase: CallPhase::Calling,
                                },
                            ),
                            ..v2
                        },
                        Expect::Run(CommandView::LogoutUser { user_id: v.keycloak_id }),
                    )
                },
                _ => (OffboardView { stage: OffboardStageView::Done, ..v }, Expect::Unexpected),
            }
        },
        OffboardStageView::LoggingOut(cv) => {
            let (cv2, e) = call_next(cv, reply);
            match e {
                Expect::Run(c) => (
                    OffboardView { stage: OffboardStageView::LoggingOut(cv2), ..v },
                    Expect::Run(c),
                ),
                Expect::Finish(cr) => {
                    let w = match cr.call {
                        Ok(_) => v.warnings,
                        Err(x) => v.warnings.push(err_msg("Identity logout failed: "@, x)),
                    };
                    let v2 = OffboardView { warnings: w, ..v };
                    (
                        OffboardView {
                            stage: OffboardStageView::Disabling(
                                CallView {
                                    audit: step_audit(
                                        v2,
                                        "disable_identity_account_on_offboard"@,
                                        seq![
                                            ("keycloak_user_id"@, MetaView::Str(v.keycloak_id)),
                                            ("username"@, MetaView::Str(v.username)),
                                        ],
                                    ),
                                    phase: CallPhase::Calling,
                                },
                            ),
                            ..v2
                        },
                        Expect::Run(CommandView::DisableUser { user_id: v.keycloak_id }),
                    )
                },
                _ => (OffboardView { stage: OffboardStageView::Done, ..v }, Expect::Unexpected),
            }
        },
        OffboardStageView::Disabling(cv) => {
            let (cv2, e) = call_next(cv, reply);
            match e {
                Expect::Run(c) => (
                    OffboardView { stage: OffboardStageView::Disabling(cv2), ..v },
                    Expect::Run(c),
                ),
                Expect::Finish(cr) => match cr.call {
                    Err(x) => (OffboardView { stage: OffboardStageView::Done, ..v }, Expect::Fail(x)),
                    Ok(_) => offboard_after_disable(v),
                },
                _ => (OffboardView { stage: OffboardStageView::Done, ..v }, Expect::Unexpected),
            }
        },
        OffboardStageView::Evicting(ev) => {
            let (ev2, e) = evict_next(ev, reply);
            match e {
                Expect::Run(c) => (
                    OffboardView { stage: OffboardStageView::Evicting(ev2), ..v },
                    Expect::Run(c),
                ),
                Expect::Finish(w) => offboard_lookup(OffboardView { warnings: v.warnings + w, ..v }),
                _ => (OffboardView { stage: OffboardStageView::Done, ..v }, Expect::Unexpected),
            }
        },
        OffboardStageView::LookingUpAuth => match reply {
            Reply::AuthUser(Err(x)) => {
                let w = v.warnings.push(
                    err_msg("Auth user lookup failed; skipping deactivation: "@, x),
                );
                (OffboardView { stage: OffboardStageView::Done, warnings: w, ..v }, Expect::Finish(w))
            },
            Reply::AuthUser(Ok(None)) => (
                OffboardView { stage: OffboardStageView::Done, ..v },
                Expect::Finish(v.warnings),
            ),
            Reply::AuthUser(Ok(Some(u))) => (
                OffboardView {
                    stage: OffboardStageView::Deactivating(
                        CallView {
                            audit: step_audit(
                                v,
                                "deactivate_auth_account_on_offboard"@,
                                seq![
                                    ("auth_user_id"@, MetaView::Str(u.id@)),
                                    ("username"@, MetaView::Str(v.username)),
                                ],
                            ),
                            phase: CallPhase::Calling,
                        },
                    ),
                    ..v
                },
                Expect::Run(CommandView::DeactivateAuthUser { auth_user_id: u.id@ }),
            ),
            _ => (OffboardView { stage: OffboardStageView::Done, ..v }, Expect::Unexpected),
        },
        OffboardStageView::Deactivating(cv) => {
            let (cv2, e) = call_next(cv, reply);
            match e {
                Expect::Run(c) => (
                    OffboardView { stage: OffboardStageView::Deactivating(cv2), ..v },
                    Expect::Run(c),
                ),
                Expect::Finish(cr) => match cr.call {
                    Err(x) => (OffboardView { stage: OffboardStageView::Done, ..v }, Expect::Fail(x)),
                    Ok(_) => (
                        OffboardView { stage: OffboardStageView::Done, ..v },
                        Expect::Finish(v.warnings),
                    ),
                },
                _ => (OffboardView { stage: OffboardStageView::Done, ..v }, Expect::Unexpected),
            }
        },
        OffboardStageView::Done => (v, Expect::Unexpected),
    }
}

/// The stage of an offboarding.
pub enum OffboardStage {
    GettingUser,
    Revoking(SessionRevoker),
    LoggingOut(AuditedCall),
    Disabling(AuditedCall),
    Evicting(RoomEvictor),
    LookingUpAuth,
    Deactivating(AuditedCall),
    Done,
}

/// An offboarding of one user.
pub struct Offboarder {
    keycloak_id: String,
    bindings: Vec<PolicyBinding>,
    synapse_configured: bool,
    admin_subject: String,
    admin_username: String,
    homeserver_domain: String,
    username: String,
    matrix_user_id: String,
    stage: OffboardStage,
    warnings: Vec<String>,
}

impl Offboarder {
    pub closed spec fn view(&self) -> OffboardView {
        OffboardView {
            keycloak_id: self.keycloak_id@,
            bindings: self.bindings@,
            synapse_configured: self.synapse_configured,
            admin_subject: self.admin_subject@,
            admin_username: self.admin_username@,
            homeserver_domain: self.homeserver_domain@,
            username: self.username@,
            matrix_user_id: self.matrix_user_id@,
            stage: match self.stage {
                OffboardStage::GettingUser => OffboardStageView::GettingUser,
                OffboardStage::Revoking(m) => OffboardStageView::Revoking(m.view()),
                OffboardStage::LoggingOut(m) => OffboardStageView::LoggingOut(m.view()),
                OffboardStage::Disabling(m) => OffboardStageView::Disabling(m.view()),
                OffboardStage::Evicting(m) => OffboardStageView::Evicting(m.view()),
                OffboardStage::LookingUpAuth => OffboardStageView::LookingUpAuth,
                OffboardStage::Deactivating(m) => OffboardStageView::Deactivating(m.view()),
                OffboardStage::Done => OffboardStageView::Done,
            },
            warnings: views(self.warnings@),
        }
    }

    pub closed spec fn wf(&self) -> bool {
        match self.stage {
            OffboardStage::Revoking(m) => m.wf(),
            OffboardStage::Evicting(m) => m.wf(),
            _ => true,
        }
    }

    fn add_warnings(&mut self, w: Vec<String>)
        ensures
            final(self).view() == (OffboardView {
                warnings: old(self).view().warnings + views(w@),
                ..old(self).view()
            }),
    {
        let ghost before = views(self.warnings@);
        let ghost added = views(w@);
        let mut w = w;
        self.warnings.append(&mut w);
        assert(views(self.warnings@) =~= before + added);
    }

    fn warn(&mut self, msg: String)
        ensures
            final(self).view() == (OffboardView {
                warnings: old(self).view().warnings.push(msg@),
                ..old(self).view()
            }),
    {
        let ghost before = views(self.warnings@);
        self.warnings.push(msg);
        assert(views(self.warnings@) =~= before.push(msg@));
    }

    fn finish(&self) -> (res: Step<WorkflowOutcome>)
        ensures
            res matches Step::Finished(Ok(o)) && views(o.warnings@) == self.view().warnings,
    {
        Step::Finished(Ok(WorkflowOutcome { warnings: copy_strings(&self.warnings) }))
    }

    fn audit_base(&self, action: &str, metadata: Vec<(String, MetaValue)>) -> (res: AuditRecord)
        ensures
            res.view() == step_audit(
                self.view(),
                action@,
                crate::services::protocol::meta_views(metadata@),
            ),
    {
        AuditRecord {
            admin_subject: self.admin_subject.clone(),
            admin_username: self.admin_username.clone(),
            target_keycloak_user_id: Some(self.keycloak_id.clone()),
            target_matrix_user_id: Some(self.matrix_user_id.clone()),
            action: String::from_str(action),
            result: AuditResult::Success,
            metadata,
        }
    }

    fn lookup(&mut self) -> (res: Step<WorkflowOutcome>)
        ensures
            final(self).wf(),
            final(self).view() == offboard_lookup(old(self).view()).0,
            outcome_step_is(res, offboard_lookup(old(self).view()).1),
    {
        self.stage = OffboardStage::LookingUpAuth;
        Step::Run(Command::FindAuthUser { username: self.username.clone() })
    }

    fn after_disable(&mut self) -> (res: Step<WorkflowOutcome>)
        ensures
            final(self).wf(),
            final(self).view() == offboard_after_disable(old(self).view()).0,
            outcome_step_is(res, offboard_after_disable(old(self).view()).1),
    {
        if self.synapse_configured {
            let bindings = copy_bindings(&self.bindings);
            let (ev, step) = RoomEvictor::start(
                "offboard",
                self.keycloak_id.as_str(),
                self.matrix_user_id.as_str(),
                bindings,
                self.admin_subject.as_str(),
                self.admin_username.as_str(),
            );
            match step {
                Step::Run(c) => {
                    self.stage = OffboardStage::Evicting(ev);
                    Step::Run(c)
                },
                _ => self.lookup(),
            }
        } else {
            if self.bindings.len() > 0 {
                self.warn(
                    String::from_str(
                        "Matrix connector not configured; room membership was not cleaned up",
                    ),
                );
            }
            self.lookup()
        }
    }

    /// Starts offboarding the Keycloak user `keycloak_id`: the first step
    /// fetches the user.
    pub fn start(
        keycloak_id: &str,
        bindings: Vec<PolicyBinding>,
        synapse_configured: bool,
        admin_subject: &str,
        admin_username: &str,
        homeserver_domain: &str,
    ) -> (res: (Self, Step<WorkflowOutcome>))
        ensures
            res.0.wf(),
            res.0.view() == (OffboardView {
                keycloak_id: keycloak_id@,
                bindings: bindings@,
                synapse_configured,
                admin_subject: admin_subject@,
                admin_username: admin_username@,
                homeserver_domain: homeserver_domain@,
                username: Seq::empty(),
                matrix_user_id: Seq::empty(),
                stage: OffboardStageView::GettingUser,
                warnings: Seq::empty(),
            }),
            res.1 matches Step::Run(c) && c.view() == (CommandView::GetUser {
                user_id: keycloak_id@,
            }),
    {
        let m = Offboarder {
            keycloak_id: String::from_str(keycloak_id),
            bindings,
            synapse_configured,
            admin_subject: String::from_str(admin_subject),
            admin_username: String::from_str(admin_username),
            homeserver_domain: String::from_str(homeserver_domain),
            username: String::new(),
            matrix_user_id: String::new(),
            stage: OffboardStage::GettingUser,
            warnings: Vec::new(),
        };
        assert(views(m.warnings@) =~= Seq::<Seq<char>>::empty());
        (m, Step::Run(Command::GetUser { user_id: String::from_str(keycloak_id) }))
    }

    /// Resumes the offboarding with the reply to its last command.
    pub fn resume(&mut self, reply: Reply) -> (res: Step<WorkflowOutcome>)
        requires
            old(self).wf(),
        ensures
            final(self).wf(),
            final(self).view() == offboard_next(old(self).view(), reply).0,
            outcome_step_is(res, offboard_next(old(self).view(), reply).1),
    {
        let mut stage = OffboardStage::Done;
        core::mem::swap(&mut stage, &mut self.stage);
        match stage {
            OffboardStage::GettingUser => match reply {
                Reply::User(Ok(u)) => {
                    self.matrix_user_id = format_matrix_user_id(
                        u.username.as_str(),
                        self.homeserver_domain.as_str(),
                    );
                    self.username = u.username;
                    let (m, step) = SessionRevoker::start(
                        "offboard",
                        self.keycloak_id.as_str(),
                        self.username.as_str(),
                        self.matrix_user_id.as_str(),
                        self.admin_subject.as_str(),
                        self.admin_username.as_str(),
                    );
                    self.stage = OffboardStage::Revoking(m);
                    step
                },
                Reply::User(Err(e)) => Step::Finished(Err(e)),
                _ => Step::Finished(Err(protocol_error())),
            },
            OffboardStage::Revoking(mut m) => {
                let step = m.resume(reply);
                match step {
                    Step::Run(c) => {
                        self.stage = OffboardStage::Revoking(m);
                        Step::Run(c)
                    },
                    Step::Finished(Ok(o)) => {
                        self.add_warnings(o.warnings);
                        let meta = vec![
                            (String::from_str("keycloak_user_id"), MetaValue::Str(self.keycloak_id.clone())),
                        ];
                        let rec = self.audit_base("force_identity_logout_on_offboard", meta);
                        self.stage = OffboardStage::LoggingOut(AuditedCall::new(rec));
                        Step::Run(Command::LogoutUser { user_id: self.keycloak_id.clone() })
                    },
                    Step::Finished(Err(e)) => Step::Finished(Err(e)),
                }
            },
            OffboardStage::LoggingOut(mut m) => {
                let step = m.resume(reply);
                match step {
                    Step::Run(c) => {
                        self.stage = OffboardStage::LoggingOut(m);
                        Step::Run(c)
                    },
                    Step::Finished(Ok(cr)) => {
                        if let Err(e) = &cr.call {
                            self.warn(error_message("Identity logout failed: ", e));
                        }
                        let meta = vec![
                            (String::from_str("keycloak_user_id"), MetaValue::Str(self.keycloak_id.clone())),
                            (String::from_str("username"), MetaValue::Str(self.username.clone())),
                        ];
                        let rec = self.audit_base("disable_identity_account_on_offboard", meta);
                        self.stage = OffboardStage::Disabling(AuditedCall::new(rec));
                        Step::Run(Command::DisableUser { user_id: self.keycloak_id.clone() })
                    },
                    Step::Finished(Err(e)) => Step::Finished(Err(e)),
                }
            },
            OffboardStage::Disabling(mut m) => {
                let step = m.resume(reply);
                match step {
                    Step::Run(c) => {
                        self.stage = OffboardStage::Disabling(m);
                        Step::Run(c)
                    },
                    Step::Finished(Ok(cr)) => match cr.call {
                        Err(e) => Step::Finished(Err(e)),
                        Ok(_) => self.after_disable(),
                    },
                    Step::Finished(Err(e)) => Step::Finished(Err(e)),
                }
            },
            OffboardStage::Evicting(mut m) => {
                let step = m.resume(reply);
                match step {
                    Step::Run(c) => {
                        self.stage = OffboardStage::Evicting(m);
                        Step::Run(c)
                    },
                    Step::Finished(Ok(o)) => {
                        self.add_warnings(o.warnings);
                        self.lookup()
                    },
                    Step::Finished(Err(e)) => Step::Finished(Err(e)),
                }
            },
            OffboardStage::LookingUpAuth => match reply {
                Reply::AuthUser(Err(e)) => {
                    self.warn(error_message("Auth user lookup failed; skipping deactivation: ", &e));
                    self.finish()
                },
                Reply::AuthUser(Ok(None)) => self.finish(),
                Reply::AuthUser(Ok(Some(u))) => {
                    let meta = vec![
                        (String::from_str("auth_user_id"), MetaValue::Str(u.id.clone())),
                        (String::from_str("username"), MetaValue::Str(self.username.clone())),
                    ];
                    let rec = self.audit_base("deactivate_auth_account_on_offboard", meta);
                    self.stage = OffboardStage::Deactivating(AuditedCall::new(rec));
                    Step::Run(Command::DeactivateAuthUser { auth_user_id: u.id })
                },
                _ => Step::Finished(Err(protocol_error())),
            },
            OffboardStage::Deactivating(mut m) => {
                let step = m.resume(reply);
                match step {
                    Step::Run(c) => {
                        self.stage = OffboardStage::Deactivating(m);
                        Step::Run(c)
                    },
                    Step::Finished(Ok(cr)) => match cr.call {
                        Err(e) => Step::Finished(Err(e)),
                        Ok(_) => self.finish(),
                    },
                    Step::Finished(Err(e)) => Step::Finished(Err(e)),
                }
            },
            OffboardStage::Done => Step::Finished(Err(protocol_error())),
        }
    }
}

} // verus!

verus! {

/// Whether an offboarding is past the disabling of the identity account:
/// evicting from rooms, looking up or deactivating the MAS account.
pub open spec fn past_disable(s: OffboardStageView) -> bool {
    s is Evicting || s is LookingUpAuth || s is Deactivating
}

/// Offboarding gates everything after the disabling of the identity account
/// on that disable: a step moves past it only from a disable call that
/// succeeded (or from a state already past it), kicks only while evicting
/// and deactivates the MAS account only after its lookup, and a disable call
/// that failed ends the offboarding with the call's error.
pub proof fn law_offboard_disable_gates_rest(v: OffboardView, reply: Reply)
    ensures
        past_disable(offboard_next(v, reply).0.stage) ==> past_disable(v.stage) || (v.stage matches OffboardStageView::Disabling(cv)
            && cv.phase matches CallPhase::Auditing(Ok(_))),
        offboard_next(v, reply).1 matches Expect::Run(CommandView::Kick { .. }) ==> v.stage is Evicting,
        offboard_next(v, reply).1 matches Expect::Run(CommandView::DeactivateAuthUser { .. })
            ==> v.stage is LookingUpAuth,
        match (v.stage, reply) {
            (OffboardStageView::Disabling(cv), Reply::Unit(_)) => match cv.phase {
                CallPhase::Auditing(Err(x)) => offboard_next(v, reply).1 == Expect::<
                    Seq<Seq<char>>,
                >::Fail(x),
                _ => true,
            },
            _ => true,
        },
{
}

} // verus!
