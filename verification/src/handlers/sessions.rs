//! The revoke button of a MAS session: one audited MAS call.

use vstd::prelude::*;

use crate::models::audit::AuditResult;
use crate::services::audit_service::{AuditRecord, MetaValue};
use crate::services::protocol::{meta_views, AuditView, Command, CommandView, MetaView};

verus! {

/// The form of the revoke button.
pub struct RevokeForm {
    pub _csrf: String,
    /// `compat` or `oauth2`: which MAS endpoint finishes the session.
    pub session_type: String,
}

/// The audit entry of a session revocation, with a placeholder result.
pub open spec fn revoke_audit_view(
    admin_subject: Seq<char>,
    admin_username: Seq<char>,
    keycloak_id: Seq<char>,
    session_id: Seq<char>,
    session_type: Seq<char>,
) -> AuditView {
    AuditView {
        admin_subject,
        admin_username,
        target_keycloak_user_id: Some(keycloak_id),
        target_matrix_user_id: None,
        action: "finish_mas_session"@,
        result: AuditResult::Success,
        metadata: seq![
            ("session_id"@, MetaView::Str(session_id)),
            ("session_type"@, MetaView::Str(session_type)),
        ],
    }
}

/// The command and audit entry of revoking session `session_id` of user
/// `keycloak_id`.
pub fn revoke_call(
    admin_subject: &str,
    admin_username: &str,
    keycloak_id: &str,
    session_id: &str,
    session_type: &str,
) -> (res: (Command, AuditRecord))
    ensures
        res.0.view() == (CommandView::FinishAuthSession {
            session_id: session_id@,
            session_type: session_type@,
        }),
        res.1.view() == revoke_audit_view(
            admin_subject@,
            admin_username@,
            keycloak_id@,
            session_id@,
            session_type@,
        ),
{
    let metadata = vec![
        (String::from_str("session_id"), MetaValue::Str(String::from_str(session_id))),
        (String::from_str("session_type"), MetaValue::Str(String::from_str(session_type))),
    ];
    let rec = AuditRecord {
        admin_subject: String::from_str(admin_subject),
        admin_username: String::from_str(admin_username),
        target_keycloak_user_id: Some(String::from_str(keycloak_id)),
        target_matrix_user_id: None,
        action: String::from_str("finish_mas_session"),
        result: AuditResult::Success,
        metadata,
    };
    assert(meta_views(rec.metadata@) =~= seq![
        ("session_id"@, MetaView::Str(session_id@)),
        ("session_type"@, MetaView::Str(session_type@)),
    ]);
    (
        Command::FinishAuthSession {
            session_id: String::from_str(session_id),
            session_type: String::from_str(session_type),
        },
        rec,
    )
}

} // verus!
