use matrix_identity_admin::auth::csrf::{constant_time_eq, generate_token, validate};
use matrix_identity_admin::error::AppError;

#[test]
fn validate_passes_with_matching_tokens() {
    let token = "some-csrf-token";
    assert!(validate(token, token).is_ok());
}

#[test]
fn validate_fails_with_different_tokens() {
    assert!(validate("correct-token", "wrong-token--").is_err());
}

#[test]
fn validate_fails_with_different_lengths() {
    assert!(validate("abc", "abcd").is_err());
    assert!(validate("abcd", "abc").is_err());
}

#[test]
fn generated_token_has_expected_length() {
    let token = generate_token();
    assert_eq!(token.len(), 43, "unexpected token length: {token}");
}

#[test]
fn generated_token_is_url_safe_base64() {
    let token = generate_token();
    assert!(
        token
            .chars()
            .all(|c| c.is_ascii_alphanumeric() || c == '-' || c == '_'),
        "token contains non-URL-safe characters: {token}"
    );
}

#[test]
fn generated_tokens_are_unique() {
    let t1 = generate_token();
    let t2 = generate_token();
    assert_ne!(t1, t2);
}

#[test]
fn validate_rejects_with_csrf_message() {
    match validate("a", "b") {
        Err(AppError::Validation(m)) => assert_eq!(m, "Invalid CSRF token."),
        other => panic!("unexpected {other:?}"),
    }
}

#[test]
fn constant_time_eq_is_byte_equality() {
    assert!(constant_time_eq(b"abc", b"abc"));
    assert!(!constant_time_eq(b"abc", b"abd"));
    assert!(!constant_time_eq(b"abc", b"ab"));
    assert!(constant_time_eq(b"", b""));
}

#[test]
fn generated_token_validates_against_itself() {
    let t = generate_token();
    assert!(validate(&t, &t.clone()).is_ok());
}
