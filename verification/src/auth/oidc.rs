//! The decisions of the OIDC login flow: state check, PKCE verifier
//! recovery and the admin role check on the ID token's claims.

use vstd::prelude::*;

use crate::auth::csrf::base64_url_nopad;
use crate::error::AppError;
use crate::text::{cat3, contains_str, seq_has_str, str_eq};
use vstd::utf8::{decode_utf8, valid_utf8};

verus! {

/// State kept in a short-lived cookie during the authorization code flow.
#[derive(Debug, Clone)]
pub struct OidcFlowState {
    pub csrf_token: String,
    pub pkce_verifier: String,
    pub nonce: String,
}

/// Name of the cookie holding the flow state.
pub const OIDC_FLOW_COOKIE: &'static str = "oidc_flow";

/// Claims of a validated ID token of an admin.
#[derive(Debug, Clone)]
pub struct AuthenticatedClaims {
    pub subject: String,
    pub username: String,
    pub email: Option<String>,
    pub roles: Vec<String>,
}

/// The returned `state` parameter must equal the flow's CSRF token.
pub fn check_flow_state(returned_state: &str, flow_state: &OidcFlowState) -> (res: Result<
    (),
    AppError,
>)
    ensures
        res is Ok <==> returned_state@ == flow_state.csrf_token@,
        res matches Err(e) ==> e matches AppError::Auth(m) && m@ == "OIDC state mismatch"@,
{
    if !str_eq(returned_state, flow_state.csrf_token.as_str()) {
        return Err(AppError::Auth(String::from_str("OIDC state mismatch")));
    }
    Ok(())
}

/// Calls `base64`'s `URL_SAFE_NO_PAD.decode`. That engine requires no
/// padding and rejects non-zero trailing bits, so whatever it decodes encodes
/// back to the input; when it fails is not stated.
#[verifier::external_body]
fn decode_url_safe_no_pad(s: &str) -> (res: Option<Vec<u8>>)
    ensures
        res matches Some(b) ==> base64_url_nopad(b@) == s@,
{
    base64::Engine::decode(&base64::engine::general_purpose::URL_SAFE_NO_PAD, s).ok()
}

/// Calls `String::from_utf8`: it succeeds exactly on valid UTF-8, with the
/// decoded characters.
#[verifier::external_body]
fn string_from_utf8(bytes: Vec<u8>) -> (res: Option<String>)
    ensures
        res is Some <==> valid_utf8(bytes@),
        res matches Some(s) ==> s@ == decode_utf8(bytes@),
{
    String::from_utf8(bytes).ok()
}

/// Recovers the PKCE verifier secret stored base64-encoded in the flow
/// state: an authentication error if it is not base64 (`Invalid PKCE
/// verifier encoding`) or not UTF-8 (`Invalid PKCE verifier`).
pub fn pkce_verifier_secret(flow_state: &OidcFlowState) -> (res: Result<String, AppError>)
    ensures
        res matches Ok(s) ==> exists|b: Seq<u8>|
            base64_url_nopad(b) == flow_state.pkce_verifier@ && valid_utf8(b) && s@
                == decode_utf8(b),
        res matches Err(e) ==> e matches AppError::Auth(m) && (m@
            == "Invalid PKCE verifier encoding"@ || m@ == "Invalid PKCE verifier"@),
{
    let bytes = match decode_url_safe_no_pad(flow_state.pkce_verifier.as_str()) {
        Some(b) => b,
        None => {
            return Err(AppError::Auth(String::from_str("Invalid PKCE verifier encoding")));
        },
    };
    let ghost b = bytes@;
    match string_from_utf8(bytes) {
        Some(s) => Ok(s),
        None => Err(AppError::Auth(String::from_str("Invalid PKCE verifier"))),
    }
}

/// Builds the claims of an admin from a verified ID token: the username is
/// `preferred_username` when present, else the subject. Access is denied
/// unless `roles` holds the required admin role.
pub fn authorize_claims(
    subject: String,
    preferred_username: Option<String>,
    email: Option<String>,
    roles: Vec<String>,
    required_admin_role: &str,
) -> (res: Result<AuthenticatedClaims, AppError>)
    ensures
        res is Ok <==> seq_has_str(roles@, required_admin_role@),
        res matches Ok(c) ==> c.subject == subject && c.email == email && c.roles == roles
            && c.username == (match preferred_username {
            Some(u) => u,
            None => subject,
        }),
        res matches Err(e) ==> e matches AppError::Auth(m) && m@ == "Access denied: required role '"@
            + required_admin_role@ + "' not present"@,
{
    if !contains_str(roles.as_slice(), required_admin_role) {
        return Err(
            AppError::Auth(
                cat3("Access denied: required role '", required_admin_role, "' not present"),
            ),
        );
    }
    let username = match preferred_username {
        Some(u) => u,
        None => subject.clone(),
    };
    Ok(AuthenticatedClaims { subject, username, email, roles })
}

} // verus!
