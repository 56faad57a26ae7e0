//! CSRF tokens: generation and constant-time validation.

use vstd::prelude::*;

use crate::error::AppError;
use vstd::string::StringSliceAdditionalSpecFns;

verus! {

/// The characters of the URL-safe, unpadded base64 encoding of some bytes.
pub uninterp spec fn base64_url_nopad(bytes: Seq<u8>) -> Seq<char>;

/// The length of the unpadded base64 encoding of `n` bytes.
pub open spec fn base64_nopad_len(n: nat) -> nat {
    (n / 3) * 4 + (if n % 3 == 1 {
        2nat
    } else if n % 3 == 2 {
        3nat
    } else {
        0nat
    })
}

/// The characters of base64's URL-safe alphabet.
pub open spec fn is_url_safe_char(c: char) -> bool {
    ('A' <= c && c <= 'Z') || ('a' <= c && c <= 'z') || ('0' <= c && c <= '9') || c == '-' || c
        == '_'
}

/// Calls `base64`'s `URL_SAFE_NO_PAD.encode`. Its result is named
/// `base64_url_nopad` of the bytes; as the crate's `encoded_len` and
/// `alphabet::URL_SAFE` show, it has `base64_nopad_len` characters, all from
/// the URL-safe alphabet. The bound on the length keeps the crate's length
/// computation from overflowing, where it would panic.
#[verifier::external_body]
fn encode_url_safe_no_pad(bytes: &[u8]) -> (res: String)
    requires
        bytes@.len() <= 0x1000_0000,
    ensures
        res@ == base64_url_nopad(bytes@),
        res@.len() == base64_nopad_len(bytes@.len()),
        forall|i: int| 0 <= i < res@.len() ==> is_url_safe_char(#[trigger] res@[i]),
{
    base64::Engine::encode(&base64::engine::general_purpose::URL_SAFE_NO_PAD, bytes)
}

/// Calls `rand::rng().fill_bytes` on a buffer of 32 bytes. The bytes are
/// random: nothing is stated of them but their number.
#[verifier::external_body]
fn random_bytes_32() -> (res: Vec<u8>)
    ensures
        res@.len() == 32,
{
    let mut bytes = [0u8; 32];
    rand::RngCore::fill_bytes(&mut rand::rng(), &mut bytes);
    bytes.to_vec()
}

/// A new random CSRF token: 32 random bytes in URL-safe base64 without
/// padding, hence 43 characters from the URL-safe alphabet.
pub fn generate_token() -> (res: String)
    ensures
        exists|b: Seq<u8>| b.len() == 32 && res@ == #[trigger] base64_url_nopad(b),
        res@.len() == 43,
        forall|i: int| 0 <= i < res@.len() ==> is_url_safe_char(#[trigger] res@[i]),
{
    let bytes = random_bytes_32();
    let token = encode_url_safe_no_pad(bytes.as_slice());
    assert(base64_nopad_len(32) == 43);
    token
}

/// Calls `subtle`'s `ConstantTimeEq::ct_eq` on two byte slices and converts
/// the `Choice` to `bool`. As the crate's source shows, the result is true
/// exactly when the slices have the same length and the same bytes.
#[verifier::external_body]
fn ct_eq_bytes(a: &[u8], b: &[u8]) -> (res: bool)
    ensures
        res == (a@ == b@),
{
    subtle::ConstantTimeEq::ct_eq(a, b).into()
}

/// Byte equality, compared in constant time once the lengths agree.
pub fn constant_time_eq(a: &[u8], b: &[u8]) -> (res: bool)
    ensures
        res == (a@ == b@),
{
    if a.len() != b.len() {
        return false;
    }
    ct_eq_bytes(a, b)
}

/// Checks a submitted CSRF token against the session's token: `Ok` exactly
/// when their bytes are equal, else a validation error.
pub fn validate(session_token: &str, submitted_token: &str) -> (res: Result<(), AppError>)
    ensures
        res is Ok <==> session_token.spec_bytes() == submitted_token.spec_bytes(),
        session_token@ == submitted_token@ ==> res is Ok,
        res matches Err(e) ==> e matches AppError::Validation(m) && m@ == "Invalid CSRF token."@,
{
    if !constant_time_eq(session_token.as_bytes(), submitted_token.as_bytes()) {
        return Err(AppError::Validation(String::from_str("Invalid CSRF token.")));
    }
    Ok(())
}

} // verus!
