//! The force-logout button of the user page: one audited Keycloak call.

use vstd::prelude::*;

use crate::models::audit::AuditResult;
use crate::services::audit_service::{AuditRecord, MetaValue};
use crate::services::protocol::{meta_views, AuditView, Command, CommandView, MetaView};
use crate::text::cat;

verus! {

/// The form of the force-logout button.
pub struct ForceLogoutForm {
    pub _csrf: String,
}

/// The audit entry of a forced logout, with a placeholder result.
pub open spec fn force_logout_audit_view(
    admin_subject: Seq<char>,
    admin_username: Seq<char>,
    keycloak_id: Seq<char>,
) -> AuditView {
    AuditView {
        admin_subject,
        admin_username,
        target_keycloak_user_id: Some(keycloak_id),
        target_matrix_user_id: None,
        action: "force_keycloak_logout"@,
        result: AuditResult::Success,
        metadata: seq![("keycloak_user_id"@, MetaView::Str(keycloak_id))],
    }
}

/// The command and audit entry of a forced logout of `keycloak_id`.
pub fn force_logout_call(admin_subject: &str, admin_username: &str, keycloak_id: &str) -> (res: (
    Command,
    AuditRecord,
))
    ensures
        res.0.view() == (CommandView::LogoutUser { user_id: keycloak_id@ }),
        res.1.view() == force_logout_audit_view(admin_subject@, admin_username@, keycloak_id@),
{
    let metadata = vec![
        (String::from_str("keycloak_user_id"), MetaValue::Str(String::from_str(keycloak_id))),
    ];
    let rec = AuditRecord {
        admin_subject: String::from_str(admin_subject),
        admin_username: String::from_str(admin_username),
        target_keycloak_user_id: Some(String::from_str(keycloak_id)),
        target_matrix_user_id: None,
        action: String::from_str("force_keycloak_logout"),
        result: AuditResult::Success,
        metadata,
    };
    assert(meta_views(rec.metadata@) =~= seq![("keycloak_user_id"@, MetaView::Str(keycloak_id@))]);
    (Command::LogoutUser { user_id: String::from_str(keycloak_id) }, rec)
}

/// The user page, where the admin returns after acting on a user.
pub fn user_page(keycloak_id: &str) -> (res: String)
    ensures
        res@ == "/users/"@ + keycloak_id@,
{
    cat("/users/", keycloak_id)
}

} // verus!
