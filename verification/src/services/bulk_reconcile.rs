//! Reconciling every Keycloak user against the policy bindings: users are
//! listed page by page; a disabled user, or one whose groups cannot be
//! fetched, is skipped; a failed role lookup only warns; each remaining
//! user is reconciled, a failure counting the user as skipped.

use vstd::prelude::*;

use crate::error::AppError;
use crate::models::keycloak::{KeycloakGroup, KeycloakRole, KeycloakUser};
use crate::models::policy_binding::{copy_bindings, PolicyBinding};
use crate::services::identity_mapper::{format_matrix_user_id, matrix_user_id};
use crate::services::protocol::{
    err_msg, error_message, is_protocol_error, is_rejection, Command, CommandView, Expect, Reply,
    Step,
};
use crate::services::reconcile_membership::{
    copy_strings, open_binding, reconcile_next, MembershipReconciler, Mode, ReconcileView, Wait,
};
use crate::text::{cat, views};

verus! {

/// The most users one bulk reconcile may cover.
pub const MAX_BULK_RECONCILE_USERS: u32 = 1000;

/// The number of users asked for per page.
pub const BULK_PAGE_SIZE: u32 = 100;

/// What a bulk reconcile reports.
pub struct BulkSummary {
    pub users_processed: usize,
    pub users_skipped: usize,
    pub warnings: Vec<String>,
}

/// A bulk reconcile's report by value: users processed, users skipped,
/// warnings.
pub type BulkFinish = (nat, nat, Seq<Seq<char>>);

/// The stage of a bulk reconcile, by value.
#[verifier::ext_equal]
pub enum BulkStageView {
    Counting,
    ListingBindings,
    Searching,
    GettingGroups,
    GettingRoles,
    Reconciling(ReconcileView),
    Done,
}

/// The state of a bulk reconcile, by value.
#[verifier::ext_equal]
pub struct BulkView {
    pub admin_subject: Seq<char>,
    pub admin_username: Seq<char>,
    pub homeserver_domain: Seq<char>,
    pub bindings: Seq<PolicyBinding>,
    /// The offset of the current page among all users.
    pub first: nat,
    pub page: Seq<KeycloakUser>,
    /// The user of the page being handled.
    pub index: nat,
    /// The group names of that user.
    pub groups: Seq<String>,
    pub processed: nat,
    pub skipped: nat,
    pub warnings: Seq<Seq<char>>,
    pub stage: BulkStageView,
}

/// The report of a bulk reconcile in state `v`.
pub open spec fn bulk_report(v: BulkView) -> BulkFinish {
    (v.processed, v.skipped, v.warnings)
}

/// The warnings of one user, each prefixed with the username.
pub open spec fn prefixed(name: Seq<char>, ws: Seq<Seq<char>>) -> Seq<Seq<char>> {
    ws.map_values(|w: Seq<char>| name + ": "@ + w)
}

/// The names of groups.
pub open spec fn group_names(gs: Seq<KeycloakGroup>) -> Seq<String> {
    gs.map_values(|g: KeycloakGroup| g.name)
}

/// The names of roles.
pub open spec fn role_name_strings(rs: Seq<KeycloakRole>) -> Seq<String> {
    rs.map_values(|r: KeycloakRole| r.name)
}

/// After the current page: asks for the next one unless this one was short.
pub open spec fn next_page(v: BulkView) -> (BulkView, Expect<BulkFinish>) {
    let first = v.first + v.page.len();
    if v.page.len() < BULK_PAGE_SIZE {
        (
            BulkView { first, stage: BulkStageView::Done, ..v },
            Expect::Finish(bulk_report(v)),
        )
    } else {
        (
            BulkView { first, stage: BulkStageView::Searching, ..v },
            Expect::Run(
                CommandView::SearchUsers { query: Seq::empty(), max: BULK_PAGE_SIZE, first: first as u32 },
            ),
        )
    }
}

/// Handles user `i` of the page: a disabled user is skipped, another one's
/// groups are fetched; after the last user, the next page.
pub open spec fn user_at(v: BulkView, i: nat) -> (BulkView, Expect<BulkFinish>)
    decreases v.page.len() - i,
{
    if i < v.page.len() {
        let u = v.page[i as int];
        if !u.enabled {
            user_at(BulkView { skipped: v.skipped + 1, ..v }, i + 1)
        } else {
            (
                BulkView { index: i, stage: BulkStageView::GettingGroups, ..v },
                Expect::Run(CommandView::GetUserGroups { user_id: u.id@ }),
            )
        }
    } else {
        next_page(v)
    }
}

/// After the current user was reconciled with warnings `ws`.
pub open spec fn after_user(v: BulkView, ws: Seq<Seq<char>>) -> (BulkView, Expect<BulkFinish>) {
    let name = v.page[v.index as int].username@;
    user_at(
        BulkView {
            processed: v.processed + 1,
            warnings: v.warnings + prefixed(name, ws),
            stage: BulkStageView::Done,
            ..v
        },
        v.index + 1,
    )
}

/// The reconciliation of the current user, about to start.
pub open spec fn reconcile_start(v: BulkView, roles: Seq<String>) -> ReconcileView {
    let u = v.page[v.index as int];
    ReconcileView {
        keycloak_id: u.id@,
        matrix_user_id: matrix_user_id(u.username@, v.homeserver_domain),
        bindings: v.bindings,
        groups: v.groups,
        roles,
        actor_subject: v.admin_subject,
        actor_username: v.admin_username,
        binding: 0,
        order: Seq::empty(),
        next: 0,
        mode: Mode::Join,
        wait: Wait::Children,
        warnings: Seq::empty(),
    }
}

/// Reconciles the current user with the given roles.
pub open spec fn reconcile_user(v: BulkView, roles: Seq<String>) -> (BulkView, Expect<BulkFinish>) {
    let (rv, e) = open_binding(reconcile_start(v, roles), 0);
    match e {
        Expect::Run(c) => (BulkView { stage: BulkStageView::Reconciling(rv), ..v }, Expect::Run(c)),
        Expect::Finish(ws) => after_user(v, ws),
        _ => (BulkView { stage: BulkStageView::Done, ..v }, Expect::Unexpected),
    }
}

/// The warning of a user whose groups could not be fetched.
pub open spec fn groups_warning(name: Seq<char>, e: AppError) -> Seq<char> {
    err_msg(name + ": could not fetch groups — "@, e)
}

/// The warning of a user whose roles could not be fetched.
pub open spec fn roles_warning(name: Seq<char>, e: AppError) -> Seq<char> {
    err_msg(name + ": could not fetch roles — "@, e)
}

/// How a bulk reconcile proceeds from state `v` when resumed with `reply`.
pub open spec fn bulk_next(v: BulkView, reply: Reply) -> (BulkView, Expect<BulkFinish>) {
    let done = BulkView { stage: BulkStageView::Done, ..v };
    match v.stage {
        BulkStageView::Counting => match reply {
            Reply::Count(Ok(total)) => if total > MAX_BULK_RECONCILE_USERS {
                (done, Expect::Reject("Bulk reconcile is limited to 1000 users per request."@))
            } else {
                (
                    BulkView { stage: BulkStageView::ListingBindings, ..v },
                    Expect::Run(CommandView::ListBindings),
                )
            },
            Reply::Count(Err(e)) => (done, Expect::Fail(e)),
            _ => (done, Expect::Unexpected),
        },
        BulkStageView::ListingBindings => match reply {
            Reply::Bindings(Ok(bs)) => (
                BulkView { bindings: bs@, stage: BulkStageView::Searching, ..v },
                Expect::Run(
                    CommandView::SearchUsers { query: Seq::empty(), max: BULK_PAGE_SIZE, first: 0 },
                ),
            ),
            Reply::Bindings(Err(e)) => (done, Expect::Fail(e)),
            _ => (done, Expect::Unexpected),
        },
        BulkStageView::Searching => match reply {
            Reply::Users(Ok(page)) => if page@.len() == 0 {
                (done, Expect::Finish(bulk_report(v)))
            } else {
                user_at(BulkView { page: page@, ..done }, 0)
            },
            Reply::Users(Err(e)) => (done, Expect::Fail(e)),
            _ => (done, Expect::Unexpected),
        },
        BulkStageView::GettingGroups => match reply {
            Reply::Groups(Ok(gs)) => (
                BulkView { groups: group_names(gs@), stage: BulkStageView::GettingRoles, ..v },
                Expect::Run(CommandView::GetUserRoles { user_id: v.page[v.index as int].id@ }),
            ),
            Reply::Groups(Err(e)) => user_at(
                BulkView {
                    skipped: v.skipped + 1,
                    warnings: v.warnings.push(groups_warning(v.page[v.index as int].username@, e)),
                    ..done
                },
                v.index + 1,
            ),
            _ => (done, Expect::Unexpected),
        },
        BulkStageView::GettingRoles => match reply {
            Reply::Roles(Ok(rs)) => reconcile_user(done, role_name_strings(rs@)),
            Reply::Roles(Err(e)) => reconcile_user(
                BulkView {
                    warnings: v.warnings.push(roles_warning(v.page[v.index as int].username@, e)),
                    ..done
                },
                Seq::empty(),
            ),
            _ => (done, Expect::Unexpected),
        },
        BulkStageView::Reconciling(rv) => {
            let (rv2, e) = reconcile_next(rv, reply);
            match e {
                Expect::Run(c) => (
                    BulkView { stage: BulkStageView::Reconciling(rv2), ..v },
                    Expect::Run(c),
                ),
                Expect::Finish(ws) => after_user(done, ws),
                Expect::Fail(x) => (done, Expect::Fail(x)),
                _ => (done, Expect::Unexpected),
            }
        },
        BulkStageView::Done => (v, Expect::Unexpected),
    }
}

/// Whether a reply fits the bulk reconcile's counters: a page of users
/// must not take the offset past `u32::MAX`.
pub open spec fn bulk_reply_fits(v: BulkView, reply: Reply) -> bool {
    v.stage is Searching ==> match reply {
        Reply::Users(Ok(page)) => v.first + page@.len() <= u32::MAX,
        _ => true,
    }
}

/// Whether a step of a bulk reconcile is the expected one.
pub open spec fn bulk_step_is(s: Step<BulkSummary>, e: Expect<BulkFinish>) -> bool {
    match (s, e) {
        (Step::Run(c), Expect::Run(cv)) => c.view() == cv,
        (Step::Finished(Ok(r)), Expect::Finish(f)) => {
            &&& r.users_processed == f.0
            &&& r.users_skipped == f.1
            &&& views(r.warnings@) == f.2
        },
        (Step::Finished(Err(x)), Expect::Fail(y)) => x == y,
        (Step::Finished(Err(x)), Expect::Reject(m)) => is_rejection(x, m),
        (Step::Finished(Err(x)), Expect::Unexpected) => is_protocol_error(x),
        _ => false,
    }
}

/// The stage of a bulk reconcile.
pub enum BulkStage {
    Counting,
    ListingBindings,
    Searching,
    GettingGroups,
    GettingRoles,
    Reconciling(MembershipReconciler),
    Done,
}

/// A reconciliation of every Keycloak user.
pub struct BulkReconciler {
    admin_subject: String,
    admin_username: String,
    homeserver_domain: String,
    bindings: Vec<PolicyBinding>,
    first: u32,
    page: Vec<KeycloakUser>,
    index: usize,
    groups: Vec<String>,
    processed: usize,
    skipped: usize,
    warnings: Vec<String>,
    stage: BulkStage,
}

/// Appends each of `ws`, prefixed with `name`, to `dst`.
fn push_prefixed(dst: &mut Vec<String>, name: &str, ws: &Vec<String>)
    ensures
        views(final(dst)@) == views(old(dst)@) + prefixed(name@, views(ws@)),
{
    let ghost start = views(dst@);
    let mut k: usize = 0;
    while k < ws.len()
        invariant
            k <= ws@.len(),
            views(dst@) == start + prefixed(name@, views(ws@)).take(k as int),
        decreases ws@.len() - k,
    {
        let p = cat(name, ": ");
        let line = p.concat(ws[k].as_str());
        let ghost before = views(dst@);
        dst.push(line);
        assert(views(dst@) =~= before.push(line@));
        assert(prefixed(name@, views(ws@)).take(k + 1) =~= prefixed(name@, views(ws@)).take(
            k as int,
        ).push(line@));
        k = k + 1;
    }
    assert(prefixed(name@, views(ws@)).take(ws@.len() as int) =~= prefixed(name@, views(ws@)));
}

/// The names of groups, moved out of them.
fn take_group_names(gs: Vec<KeycloakGroup>) -> (res: Vec<String>)
    ensures
        res@ == group_names(gs@),
{
    let mut out: Vec<String> = Vec::new();
    let mut i: usize = 0;
    while i < gs.len()
        invariant
            i <= gs@.len(),
            out@ == group_names(gs@).take(i as int),
        decreases gs@.len() - i,
    {
        out.push(gs[i].name.clone());
        assert(out@ =~= group_names(gs@).take(i + 1));
        i = i + 1;
    }
    assert(group_names(gs@).take(gs@.len() as int) =~= group_names(gs@));
    out
}

/// The names of roles.
fn take_role_names(rs: Vec<KeycloakRole>) -> (res: Vec<String>)
    ensures
        res@ == role_name_strings(rs@),
{
    let mut out: Vec<String> = Vec::new();
    let mut i: usize = 0;
    while i < rs.len()
        invariant
            i <= rs@.len(),
            out@ == role_name_strings(rs@).take(i as int),
        decreases rs@.len() - i,
    {
        out.push(rs[i].name.clone());
        assert(out@ =~= role_name_strings(rs@).take(i + 1));
        i = i + 1;
    }
    assert(role_name_strings(rs@).take(rs@.len() as int) =~= role_name_strings(rs@));
    out
}

impl BulkReconciler {
    pub closed spec fn view(&self) -> BulkView {
        BulkView {
            admin_subject: self.admin_subject@,
            admin_username: self.admin_username@,
            homeserver_domain: self.homeserver_domain@,
            bindings: self.bindings@,
            first: self.first as nat,
            page: self.page@,
            index: self.index as nat,
            groups: self.groups@,
            processed: self.processed as nat,
            skipped: self.skipped as nat,
            warnings: views(self.warnings@),
            stage: match self.stage {
                BulkStage::Counting => BulkStageView::Counting,
                BulkStage::ListingBindings => BulkStageView::ListingBindings,
                BulkStage::Searching => BulkStageView::Searching,
                BulkStage::GettingGroups => BulkStageView::GettingGroups,
                BulkStage::GettingRoles => BulkStageView::GettingRoles,
                BulkStage::Reconciling(m) => BulkStageView::Reconciling(m.view()),
                BulkStage::Done => BulkStageView::Done,
            },
        }
    }

    /// Every listed user is counted once, processed or skipped, and the
    /// current user exists while one is being handled.
    pub closed spec fn wf(&self) -> bool {
        &&& (self.stage is Counting || self.stage is ListingBindings) ==> {
            &&& self.first == 0
            &&& self.processed == 0
            &&& self.skipped == 0
        }
        &&& self.stage is Searching ==> self.processed + self.skipped == self.first
        &&& (self.stage is GettingGroups || self.stage is GettingRoles
            || self.stage is Reconciling) ==> {
            &&& self.index < self.page@.len()
            &&& self.processed + self.skipped == self.first + self.index
            &&& self.first + self.page@.len() <= u32::MAX
        }
        &&& self.stage matches BulkStage::Reconciling(m) ==> m.wf()
    }

    fn report(&self) -> (res: Step<BulkSummary>)
        ensures
            res matches Step::Finished(Ok(r)) && r.users_processed == self.processed
                && r.users_skipped == self.skipped && views(r.warnings@) == self.view().warnings,
    {
        Step::Finished(
            Ok(
                BulkSummary {
                    users_processed: self.processed,
                    users_skipped: self.skipped,
                    warnings: copy_strings(&self.warnings),
                },
            ),
        )
    }

    fn warn(&mut self, msg: String)
        ensures
            final(self).view() == (BulkView {
                warnings: old(self).view().warnings.push(msg@),
                ..old(self).view()
            }),
            final(self).processed == old(self).processed,
            final(self).skipped == old(self).skipped,
            final(self).first == old(self).first,
            final(self).index == old(self).index,
            final(self).page@ == old(self).page@,
            final(self).stage == old(self).stage,
    {
        let ghost before = views(self.warnings@);
        self.warnings.push(msg);
        assert(views(self.warnings@) =~= before.push(msg@));
    }

    fn next_page(&mut self) -> (res: Step<BulkSummary>)
        requires
            old(self).stage is Done,
            old(self).first + old(self).page@.len() <= u32::MAX,
            old(self).processed + old(self).skipped == old(self).first + old(self).page@.len(),
        ensures
            final(self).wf(),
            final(self).view() == next_page(old(self).view()).0,
            bulk_step_is(res, next_page(old(self).view()).1),
    {
        let fetched = self.page.len();
        self.first = self.first + fetched as u32;
        if fetched < 100 {
            self.report()
        } else {
            self.stage = BulkStage::Searching;
            Step::Run(Command::SearchUsers { query: String::new(), max: 100, first: self.first })
        }
    }

    fn user_at(&mut self, start: usize) -> (res: Step<BulkSummary>)
        requires
            old(self).stage is Done,
            start <= old(self).page@.len(),
            old(self).first + old(self).page@.len() <= u32::MAX,
            old(self).processed + old(self).skipped == old(self).first + start,
        ensures
            final(self).wf(),
            final(self).view() == user_at(old(self).view(), start as nat).0,
            bulk_step_is(res, user_at(old(self).view(), start as nat).1),
    {
        let mut i = start;
        loop
            invariant
                self.stage is Done,
                i <= self.page@.len(),
                self.first + self.page@.len() <= u32::MAX,
                self.processed + self.skipped == self.first + i,
                user_at(self.view(), i as nat) == user_at(old(self).view(), start as nat),
            decreases self.page@.len() - i,
        {
            if i >= self.page.len() {
                return self.next_page();
            }
            if !self.page[i].enabled {
                self.skipped = self.skipped + 1;
                i = i + 1;
            } else {
                self.index = i;
                self.stage = BulkStage::GettingGroups;
                return Step::Run(Command::GetUserGroups { user_id: self.page[i].id.clone() });
            }
        }
    }

    fn after_user(&mut self, ws: Vec<String>) -> (res: Step<BulkSummary>)
        requires
            old(self).stage is Done,
            old(self).index < old(self).page@.len(),
            old(self).first + old(self).page@.len() <= u32::MAX,
            old(self).processed + old(self).skipped == old(self).first + old(self).index,
        ensures
            final(self).wf(),
            final(self).view() == after_user(old(self).view(), views(ws@)).0,
            bulk_step_is(res, after_user(old(self).view(), views(ws@)).1),
    {
        let name = self.page[self.index].username.clone();
        self.processed = self.processed + 1;
        push_prefixed(&mut self.warnings, name.as_str(), &ws);
        let next = self.index + 1;
        self.user_at(next)
    }

    fn reconcile_user(&mut self, roles: Vec<String>) -> (res: Step<BulkSummary>)
        requires
            old(self).stage is Done,
            old(self).index < old(self).page@.len(),
            old(self).first + old(self).page@.len() <= u32::MAX,
            old(self).processed + old(self).skipped == old(self).first + old(self).index,
        ensures
            final(self).wf(),
            final(self).view() == reconcile_user(old(self).view(), roles@).0,
            bulk_step_is(res, reconcile_user(old(self).view(), roles@).1),
    {
        let u = &self.page[self.index];
        let mx = format_matrix_user_id(u.username.as_str(), self.homeserver_domain.as_str());
        let groups = copy_strings(&self.groups);
        let (m, step) = MembershipReconciler::start(
            u.id.clone(),
            mx,
            copy_bindings(&self.bindings),
            groups,
            roles,
            self.admin_subject.clone(),
            self.admin_username.clone(),
        );
        match step {
            Step::Run(c) => {
                self.stage = BulkStage::Reconciling(m);
                Step::Run(c)
            },
            Step::Finished(Ok(o)) => self.after_user(o.warnings),
            Step::Finished(Err(e)) => Step::Finished(Err(e)),
        }
    }

    /// Starts a bulk reconcile on behalf of the admin. Without a Matrix
    /// connector it finishes at once with a not-found error; otherwise the
    /// first step counts the users.
    pub fn start(
        admin_subject: &str,
        admin_username: &str,
        homeserver_domain: &str,
        synapse_configured: bool,
    ) -> (res: (Self, Step<BulkSummary>))
        ensures
            res.0.wf(),
            res.0.view() == (BulkView {
                admin_subject: admin_subject@,
                admin_username: admin_username@,
                homeserver_domain: homeserver_domain@,
                bindings: Seq::empty(),
                first: 0,
                page: Seq::empty(),
                index: 0,
                groups: Seq::empty(),
                processed: 0,
                skipped: 0,
                warnings: Seq::empty(),
                stage: if synapse_configured {
                    BulkStageView::Counting
                } else {
                    BulkStageView::Done
                },
            }),
            synapse_configured ==> (res.1 matches Step::Run(c) && c.view() == (CommandView::CountUsers {
                query: Seq::empty(),
            })),
            !synapse_configured ==> (res.1 matches Step::Finished(Err(AppError::NotFound(m)))
                && m@ == "Synapse is not configured — reconciliation is unavailable"@),
    {
        let m = BulkReconciler {
            admin_subject: String::from_str(admin_subject),
            admin_username: String::from_str(admin_username),
            homeserver_domain: String::from_str(homeserver_domain),
            bindings: Vec::new(),
            first: 0,
            page: Vec::new(),
            index: 0,
            groups: Vec::new(),
            processed: 0,
            skipped: 0,
            warnings: Vec::new(),
            stage: if synapse_configured {
                BulkStage::Counting
            } else {
                BulkStage::Done
            },
        };
        assert(views(m.warnings@) =~= Seq::<Seq<char>>::empty());
        if synapse_configured {
            (m, Step::Run(Command::CountUsers { query: String::new() }))
        } else {
            (
                m,
                Step::Finished(
                    Err(
                        AppError::NotFound(
                            String::from_str(
                                "Synapse is not configured — reconciliation is unavailable",
                            ),
                        ),
                    ),
                ),
            )
        }
    }

    /// Resumes the bulk reconcile with the reply to its last command.
    pub fn resume(&mut self, reply: Reply) -> (res: Step<BulkSummary>)
        requires
            old(self).wf(),
            bulk_reply_fits(old(self).view(), reply),
        ensures
            final(self).wf(),
            final(self).view() == bulk_next(old(self).view(), reply).0,
            bulk_step_is(res, bulk_next(old(self).view(), reply).1),
    {
        let ghost searching = self.stage is Searching;
        let mut stage = BulkStage::Done;
        core::mem::swap(&mut stage, &mut self.stage);
        match stage {
            BulkStage::Counting => match reply {
                Reply::Count(Ok(total)) => {
                    if total > 1000 {
                        Step::Finished(
                            Err(
                                AppError::Validation(
                                    String::from_str(
                                        "Bulk reconcile is limited to 1000 users per request.",
                                    ),
                                ),
                            ),
                        )
                    } else {
                        self.stage = BulkStage::ListingBindings;
                        Step::Run(Command::ListBindings)
                    }
                },
                Reply::Count(Err(e)) => Step::Finished(Err(e)),
                _ => Step::Finished(Err(crate::services::protocol::protocol_error())),
            },
            BulkStage::ListingBindings => match reply {
                Reply::Bindings(Ok(bs)) => {
                    self.bindings = bs;
                    self.stage = BulkStage::Searching;
                    Step::Run(Command::SearchUsers { query: String::new(), max: 100, first: 0 })
                },
                Reply::Bindings(Err(e)) => Step::Finished(Err(e)),
                _ => Step::Finished(Err(crate::services::protocol::protocol_error())),
            },
            BulkStage::Searching => match reply {
                Reply::Users(Ok(page)) => {
                    if page.len() == 0 {
                        self.report()
                    } else {
                        self.page = page;
                        self.user_at(0)
                    }
                },
                Reply::Users(Err(e)) => Step::Finished(Err(e)),
                _ => Step::Finished(Err(crate::services::protocol::protocol_error())),
            },
            BulkStage::GettingGroups => match reply {
                Reply::Groups(Ok(gs)) => {
                    self.groups = take_group_names(gs);
                    self.stage = BulkStage::GettingRoles;
                    Step::Run(Command::GetUserRoles { user_id: self.page[self.index].id.clone() })
                },
                Reply::Groups(Err(e)) => {
                    let name = self.page[self.index].username.clone();
                    let p = cat(name.as_str(), ": could not fetch groups — ");
                    self.warn(error_message(p.as_str(), &e));
                    self.skipped = self.skipped + 1;
                    let next = self.index + 1;
                    self.user_at(next)
                },
                _ => Step::Finished(Err(crate::services::protocol::protocol_error())),
            },
            BulkStage::GettingRoles => match reply {
                Reply::Roles(Ok(rs)) => self.reconcile_user(take_role_names(rs)),
                Reply::Roles(Err(e)) => {
                    let name = self.page[self.index].username.clone();
                    let p = cat(name.as_str(), ": could not fetch roles — ");
                    self.warn(error_message(p.as_str(), &e));
                    self.reconcile_user(Vec::new())
                },
                _ => Step::Finished(Err(crate::services::protocol::protocol_error())),
            },
            BulkStage::Reconciling(mut m) => {
                let step = m.resume(reply);
                match step {
                    Step::Run(c) => {
                        self.stage = BulkStage::Reconciling(m);
                        Step::Run(c)
                    },
                    Step::Finished(Ok(o)) => self.after_user(o.warnings),
                    Step::Finished(Err(e)) => Step::Finished(Err(e)),
                }
            },
            BulkStage::Done => Step::Finished(Err(crate::services::protocol::protocol_error())),
        }
    }
}

} // verus!

verus! {

/// The counting invariant of a bulk reconcile: before any user is listed
/// nothing is counted; afterwards every user listed so far, up to the one
/// being handled, is counted once, as processed or as skipped.
pub open spec fn bulk_counts(v: BulkView) -> bool {
    &&& (v.stage is Counting || v.stage is ListingBindings) ==> v.first == 0 && v.processed == 0
        && v.skipped == 0
    &&& v.stage is Searching ==> v.processed + v.skipped == v.first
    &&& (v.stage is GettingGroups || v.stage is GettingRoles || v.stage is Reconciling) ==> {
        &&& v.index < v.page.len()
        &&& v.processed + v.skipped == v.first + v.index
    }
}

/// Whether a step finishes with counts that cover the users listed.
pub open spec fn finish_covers(n: BulkView, e: Expect<BulkFinish>) -> bool {
    e matches Expect::Finish(f) ==> f.0 + f.1 == n.first
}

proof fn lemma_user_at_counts(v: BulkView, i: nat)
    requires
        i <= v.page.len(),
        v.processed + v.skipped == v.first + i,
    ensures
        bulk_counts(user_at(v, i).0),
        finish_covers(user_at(v, i).0, user_at(v, i).1),
    decreases v.page.len() - i,
{
    if i < v.page.len() {
        if !v.page[i as int].enabled {
            lemma_user_at_counts(BulkView { skipped: v.skipped + 1, ..v }, i + 1);
        }
    }
}

/// Every user listed is counted exactly once. Each step of a bulk
/// reconcile keeps `bulk_counts`, and when it finishes, the users processed
/// and the users skipped add up to the users listed.
pub proof fn law_bulk_counts_every_user_once(v: BulkView, reply: Reply)
    requires
        bulk_counts(v),
    ensures
        bulk_counts(bulk_next(v, reply).0),
        finish_covers(bulk_next(v, reply).0, bulk_next(v, reply).1),
{
    let done = BulkView { stage: BulkStageView::Done, ..v };
    match v.stage {
        BulkStageView::Searching => {
            if let Reply::Users(Ok(page)) = reply {
                if page@.len() > 0 {
                    lemma_user_at_counts(BulkView { page: page@, ..done }, 0);
                }
            }
        },
        BulkStageView::GettingGroups => {
            if let Reply::Groups(Err(e)) = reply {
                lemma_user_at_counts(
                    BulkView {
                        skipped: v.skipped + 1,
                        warnings: v.warnings.push(groups_warning(v.page[v.index as int].username@, e)),
                        ..done
                    },
                    v.index + 1,
                );
            }
        },
        BulkStageView::GettingRoles => {
            let roles = match reply {
                Reply::Roles(Ok(rs)) => role_name_strings(rs@),
                _ => Seq::empty(),
            };
            let d2 = match reply {
                Reply::Roles(Err(e)) => BulkView {
                    warnings: v.warnings.push(roles_warning(v.page[v.index as int].username@, e)),
                    ..done
                },
                _ => done,
            };
            let (rv, e) = open_binding(reconcile_start(d2, roles), 0);
            if let Expect::Finish(ws) = e {
                lemma_user_at_counts(
                    BulkView {
                        processed: d2.processed + 1,
                        warnings: d2.warnings + prefixed(d2.page[d2.index as int].username@, ws),
                        stage: BulkStageView::Done,
                        ..d2
                    },
                    d2.index + 1,
                );
            }
        },
        BulkStageView::Reconciling(rv) => {
            let (rv2, e) = reconcile_next(rv, reply);
            if let Expect::Finish(ws) = e {
                lemma_user_at_counts(
                    BulkView {
                        processed: v.processed + 1,
                        warnings: v.warnings + prefixed(v.page[v.index as int].username@, ws),
                        stage: BulkStageView::Done,
                        ..v
                    },
                    v.index + 1,
                );
            }
        },
        _ => {},
    }
}

} // verus!

verus! {

/// A bulk reconcile reconciles each user with exactly the roles and groups
/// looked up for that user. When the role lookup of the current user
/// succeeds and there are bindings, the reconciliation started for the user
/// carries the names of the roles returned, in order, together with the
/// user's group names, the user's Keycloak id and Matrix ID, and all the
/// bindings; it starts with the first binding. A successful group lookup
/// keeps the names of the groups returned, in order, for that user.
pub proof fn law_bulk_reconciles_with_looked_up_roles(v: BulkView, reply: Reply)
    requires
        v.stage is GettingRoles || v.stage is GettingGroups,
        v.index < v.page.len(),
        v.bindings.len() > 0,
    ensures
        match (v.stage, reply) {
            (BulkStageView::GettingGroups, Reply::Groups(Ok(gs))) => {
                let n = bulk_next(v, reply).0;
                &&& n.stage is GettingRoles
                &&& n.index == v.index
                &&& n.groups.len() == gs@.len()
                &&& forall|i: int| 0 <= i < gs@.len() ==> #[trigger] n.groups[i] == gs@[i].name
            },
            (BulkStageView::GettingRoles, Reply::Roles(Ok(rs))) => match bulk_next(v, reply).0.stage {
                BulkStageView::Reconciling(rv) => {
                    let u = v.page[v.index as int];
                    &&& rv.roles.len() == rs@.len()
                    &&& forall|i: int| 0 <= i < rs@.len() ==> #[trigger] rv.roles[i] == rs@[i].name
                    &&& rv.groups == v.groups
                    &&& rv.bindings == v.bindings
                    &&& rv.keycloak_id == u.id@
                    &&& rv.matrix_user_id == matrix_user_id(u.username@, v.homeserver_domain)
                    &&& rv.binding == 0
                    &&& rv.wait is Children
                },
                _ => false,
            },
            _ => true,
        },
{
}

} // verus!
