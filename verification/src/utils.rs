//! Percent-encoding of text for redirect query parameters.

use vstd::prelude::*;

use crate::text::push_char;
use vstd::string::StringSliceAdditionalSpecFns;

verus! {

/// Bytes that pass through unchanged: `A-Z a-z 0-9 - _ . ~`.
pub open spec fn is_unreserved(b: u8) -> bool {
    (65 <= b <= 90) || (97 <= b <= 122) || (48 <= b <= 57) || b == 45 || b == 95 || b == 46
        || b == 126
}

/// Upper-case hexadecimal digit of a value below 16.
pub open spec fn hex_upper(d: u8) -> char {
    if d < 10 {
        ((d + 48) as u8) as char
    } else {
        ((d + 55) as u8) as char
    }
}

/// The characters one byte is encoded to.
pub open spec fn encode_byte(b: u8) -> Seq<char> {
    if is_unreserved(b) {
        seq![b as char]
    } else if b == 32 {
        seq!['+']
    } else {
        seq!['%', hex_upper(b / 16), hex_upper(b % 16)]
    }
}

/// The encoding of a byte sequence: each byte's encoding, in order.
pub open spec fn encode_bytes(bs: Seq<u8>) -> Seq<char>
    decreases bs.len(),
{
    if bs.len() == 0 {
        Seq::empty()
    } else {
        encode_bytes(bs.drop_last()) + encode_byte(bs.last())
    }
}

fn hex_digit(d: u8) -> (c: char)
    requires
        d < 16,
    ensures
        c == hex_upper(d),
{
    if d < 10 {
        (d + 48) as char
    } else {
        (d + 55) as char
    }
}

/// Percent-encodes the UTF-8 bytes of `s`: unreserved bytes pass through,
/// a space becomes `+`, and every other byte becomes `%XX` with upper-case
/// hexadecimal digits.
pub fn pct_encode(s: &str) -> (res: String)
    ensures
        res@ == encode_bytes(s.spec_bytes()),
        res@ == pct_encoded(s@),
{
    let bytes = s.as_bytes();
    let mut out = String::new();
    let mut i: usize = 0;
    while i < bytes.len()
        invariant
            i <= bytes@.len(),
            bytes@ == s.spec_bytes(),
            out@ == encode_bytes(bytes@.take(i as int)),
        decreases bytes@.len() - i,
    {
        let b = bytes[i];
        assert(bytes@.take(i + 1).drop_last() =~= bytes@.take(i as int));
        if (b >= 65 && b <= 90) || (b >= 97 && b <= 122) || (b >= 48 && b <= 57) || b == 45 || b
            == 95 || b == 46 || b == 126 {
            push_char(&mut out, b as char);
            assert(out@ =~= encode_bytes(bytes@.take(i as int)) + seq![b as char]);
        } else if b == 32 {
            push_char(&mut out, '+');
            assert(out@ =~= encode_bytes(bytes@.take(i as int)) + seq!['+']);
        } else {
            push_char(&mut out, '%');
            push_char(&mut out, hex_digit(b / 16));
            push_char(&mut out, hex_digit(b % 16));
            assert(out@ =~= encode_bytes(bytes@.take(i as int)) + seq![
                '%',
                hex_upper(b / 16),
                hex_upper(b % 16),
            ]);
        }
        i = i + 1;
    }
    assert(bytes@.take(bytes@.len() as int) =~= bytes@);
    out
}

} // verus!

verus! {

/// The percent-encoding of the UTF-8 bytes of a string.
pub open spec fn pct_encoded(s: Seq<char>) -> Seq<char> {
    encode_bytes(vstd::utf8::encode_utf8(s))
}

/// The characters a percent-encoding can produce: the unreserved ones,
/// `+` and `%`, the digits of `%XX` being upper-case hexadecimal.
pub open spec fn is_query_safe(c: char) -> bool {
    ('A' <= c && c <= 'Z') || ('a' <= c && c <= 'z') || ('0' <= c && c <= '9') || c == '-' || c
        == '_' || c == '.' || c == '~' || c == '+' || c == '%'
}

/// A percent-encoding holds only query-safe characters, so it can be
/// placed in a query string as it is.
pub proof fn lemma_encoding_is_query_safe(bs: Seq<u8>)
    ensures
        forall|i: int| 0 <= i < encode_bytes(bs).len() ==> is_query_safe(#[trigger] encode_bytes(bs)[i]),
    decreases bs.len(),
{
    if bs.len() > 0 {
        lemma_encoding_is_query_safe(bs.drop_last());
        let b = bs.last();
        let e = encode_byte(b);
        assert forall|i: int| 0 <= i < e.len() implies is_query_safe(#[trigger] e[i]) by {
            if is_unreserved(b) {
                assert(e[i] == b as char);
            } else if b == 32 {
            } else {
                assert(b / 16 < 16);
                assert(b % 16 < 16);
            }
        }
        let r = encode_bytes(bs.drop_last());
        assert forall|i: int| 0 <= i < encode_bytes(bs).len() implies is_query_safe(
            #[trigger] encode_bytes(bs)[i],
        ) by {
            if i < r.len() {
                assert(encode_bytes(bs)[i] == r[i]);
            } else {
                assert(encode_bytes(bs)[i] == e[i - r.len()]);
            }
        }
    }
}

} // verus!

verus! {

/// The characters that pass through percent-encoding unchanged.
pub open spec fn is_unreserved_char(c: char) -> bool {
    ('A' <= c && c <= 'Z') || ('a' <= c && c <= 'z') || ('0' <= c && c <= '9') || c == '-' || c
        == '_' || c == '.' || c == '~'
}

proof fn lemma_encode_unreserved_bytes(bs: Seq<u8>)
    requires
        forall|i: int| 0 <= i < bs.len() ==> is_unreserved(#[trigger] bs[i]),
    ensures
        encode_bytes(bs) == bs.map_values(|b: u8| b as char),
    decreases bs.len(),
{
    if bs.len() > 0 {
        lemma_encode_unreserved_bytes(bs.drop_last());
        assert(is_unreserved(bs[bs.len() - 1]));
        assert(bs.map_values(|b: u8| b as char) =~= bs.drop_last().map_values(|b: u8| b as char).push(
            bs.last() as char,
        ));
    } else {
        assert(bs.map_values(|b: u8| b as char) =~= Seq::<char>::empty());
    }
}

/// Text made only of unreserved characters is left as it is by
/// percent-encoding.
pub proof fn law_unreserved_text_unchanged(s: Seq<char>)
    requires
        forall|i: int| 0 <= i < s.len() ==> is_unreserved_char(#[trigger] s[i]),
    ensures
        pct_encoded(s) == s,
{
    assert(vstd::utf8::is_ascii_chars(s)) by {
        assert forall|i: int| 0 <= i < s.len() implies '\0' <= #[trigger] s[i] <= '\u{7f}' by {
            assert(is_unreserved_char(s[i]));
        }
    }
    vstd::utf8::is_ascii_chars_encode_utf8(s);
    let bs = vstd::utf8::encode_utf8(s);
    assert forall|i: int| 0 <= i < bs.len() implies is_unreserved(#[trigger] bs[i]) by {
        assert(s[i] as u8 == bs[i]);
        assert(is_unreserved_char(s[i]));
    }
    lemma_encode_unreserved_bytes(bs);
    assert forall|i: int| 0 <= i < s.len() implies bs.map_values(|b: u8| b as char)[i] == s[i] by {
        assert(s[i] as u8 == bs[i]);
        assert(is_unreserved_char(s[i]));
    }
    assert(bs.map_values(|b: u8| b as char) =~= s);
}

} // verus!
