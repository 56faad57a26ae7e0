//! Sign-in: the OIDC callback's parameters and the session it opens.

use vstd::prelude::*;

use crate::auth::csrf::{base64_url_nopad, generate_token, is_url_safe_char};
use crate::auth::oidc::AuthenticatedClaims;
use crate::auth::session::AdminSession;

verus! {

/// The query of the OIDC callback.
pub struct CallbackParams {
    pub code: String,
    pub state: String,
}

/// The sign-out form.
pub struct LogoutForm {
    pub _csrf: String,
}

/// How long the OIDC flow cookie lives, in minutes.
pub const FLOW_COOKIE_MINUTES: i64 = 10;

/// The session opened for authenticated claims, with a fresh CSRF token.
pub fn session_from_claims(claims: AuthenticatedClaims) -> (res: AdminSession)
    ensures
        res.subject == claims.subject,
        res.username == claims.username,
        res.email == claims.email,
        res.roles == claims.roles,
        res.csrf_token@.len() == 43,
        exists|b: Seq<u8>| b.len() == 32 && res.csrf_token@ == #[trigger] base64_url_nopad(b),
{
    AdminSession {
        subject: claims.subject,
        username: claims.username,
        email: claims.email,
        roles: claims.roles,
        csrf_token: generate_token(),
    }
}

} // verus!
