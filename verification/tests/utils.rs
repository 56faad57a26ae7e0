use matrix_identity_admin::utils::pct_encode;

#[test]
fn unreserved_chars_pass_through() {
    assert_eq!(pct_encode("hello"), "hello");
    assert_eq!(pct_encode("abc-123_ok"), "abc-123_ok");
}

#[test]
fn spaces_become_plus() {
    assert_eq!(pct_encode("hello world"), "hello+world");
}

#[test]
fn special_chars_are_encoded() {
    assert_eq!(pct_encode("a=b&c=d"), "a%3Db%26c%3Dd");
}

#[test]
fn multibyte_chars_are_encoded_bytewise() {
    assert_eq!(pct_encode("é"), "%C3%A9");
    assert_eq!(pct_encode("…"), "%E2%80%A6");
    assert_eq!(pct_encode("~._"), "~._");
}

#[test]
fn encoding_is_query_safe() {
    let e = pct_encode("x/y?z=1&w=ä ö#");
    assert!(e
        .chars()
        .all(|c| c.is_ascii_alphanumeric() || "-_.~+%".contains(c)));
}
