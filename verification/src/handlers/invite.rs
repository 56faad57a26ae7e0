//! The invite endpoints: the bot API (bearer secret, JSON reply) and the
//! admin form (session and CSRF, redirect).

use vstd::prelude::*;

use crate::error::AppError;
use crate::text::{cat, cat3, str_eq};
use crate::utils::{pct_encode, pct_encoded};

verus! {

/// The JSON body of a bot invite request.
pub struct InviteRequest {
    pub email: String,
    /// Who asked the bot for the invite; recorded in the audit entry only.
    pub invited_by: String,
}

/// The admin invite form.
pub struct AdminInviteForm {
    pub email: String,
    pub _csrf: String,
}

/// The authorization the bot must send: `Bearer <secret>`.
pub open spec fn expected_authorization(secret: Seq<char>) -> Seq<char> {
    "Bearer "@ + secret
}

/// Checks the bot's `Authorization` header (absent counts as empty)
/// against the bot secret.
pub fn check_bot_authorization(provided: Option<&str>, secret: &str) -> (res: Result<(), AppError>)
    ensures
        ({
            let p = match provided {
                Some(s) => s@,
                None => Seq::<char>::empty(),
            };
            if p == expected_authorization(secret@) {
                res is Ok
            } else {
                res matches Err(AppError::Auth(m)) && m@ == "Invalid bot API secret"@
            }
        }),
{
    let expected = cat("Bearer ", secret);
    let given = match provided {
        Some(s) => s,
        None => "",
    };
    proof {
        reveal_strlit("");
        assert(""@ =~= Seq::<char>::empty());
    }
    if str_eq(given, expected.as_str()) {
        Ok(())
    } else {
        Err(AppError::Auth(String::from_str("Invalid bot API secret")))
    }
}

/// The status and message the bot receives for a failed invite.
pub open spec fn invite_failure(e: AppError) -> (u16, Seq<char>) {
    match e {
        AppError::Auth(_) => (401, e.message_view()),
        AppError::Validation(m) => (422, m@),
        AppError::Upstream { service, message } => (
            502,
            "Upstream error ("@ + service@ + "): "@ + message@,
        ),
        _ => (500, "Internal error"@),
    }
}

/// The status and message of a failed bot invite (see `invite_failure`).
pub fn invite_failure_response(e: &AppError) -> (res: (u16, String))
    ensures
        res.0 == invite_failure(*e).0,
        res.1@ == invite_failure(*e).1,
{
    match e {
        AppError::Auth(_) => (401, e.to_message()),
        AppError::Validation(m) => (422, m.clone()),
        AppError::Upstream { service, message } => {
            let p = cat3("Upstream error (", service.as_str(), "): ");
            (502, p.concat(message.as_str()))
        },
        _ => (500, String::from_str("Internal error")),
    }
}

/// The status of a successful bot invite.
pub const INVITE_CREATED: u16 = 201;

/// Where the admin is sent after an admin invite: the dashboard with the
/// workflow's message as a notice, or with the error.
pub open spec fn admin_invite_location(r: Result<String, AppError>) -> Seq<char> {
    match r {
        Ok(msg) => "/?notice="@ + pct_encoded("Invite sent to "@ + msg@),
        Err(e) => "/?error="@ + pct_encoded(e.message_view()),
    }
}

/// Where the admin is sent after an admin invite (see
/// `admin_invite_location`).
pub fn admin_invite_redirect(r: &Result<String, AppError>) -> (res: String)
    ensures
        res@ == admin_invite_location(*r),
{
    match r {
        Ok(msg) => {
            let m = cat("Invite sent to ", msg.as_str());
            let e = pct_encode(m.as_str());
            cat("/?notice=", e.as_str())
        },
        Err(err) => {
            let m = err.to_message();
            let e = pct_encode(m.as_str());
            cat("/?error=", e.as_str())
        },
    }
}

} // verus!
