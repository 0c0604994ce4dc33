//! Percent-encoding of texts that become part of a path or a query.
use vstd::prelude::*;

verus! {

/// True of the bytes that stand for themselves in an encoded text.
pub open spec fn unreserved(b: u8) -> bool {
    ||| 0x30 <= b <= 0x39
    ||| 0x41 <= b <= 0x5a
    ||| 0x61 <= b <= 0x7a
    ||| b == 0x2d
    ||| b == 0x2e
    ||| b == 0x5f
    ||| b == 0x7e
}

/// An upper-case hexadecimal digit.
pub open spec fn hex_digit(n: int) -> char {
    if n < 10 {
        (0x30 + n) as char
    } else {
        (0x41 + n - 10) as char
    }
}

pub open spec fn percent_byte(b: u8) -> Seq<char> {
    if unreserved(b) {
        seq![b as char]
    } else {
        seq!['%', hex_digit(b as int / 16), hex_digit(b as int % 16)]
    }
}

pub open spec fn percent_bytes(bytes: Seq<u8>) -> Seq<char>
    decreases bytes.len(),
{
    if bytes.len() == 0 {
        Seq::empty()
    } else {
        percent_bytes(bytes.drop_last()) + percent_byte(bytes.last())
    }
}

/// A text with every byte of its UTF-8 form but letters, digits, `-`, `_`, `.` and
/// `~` written as `%` and two hexadecimal digits.
pub open spec fn percent_encoded(s: Seq<char>) -> Seq<char> {
    percent_bytes(vstd::utf8::encode_utf8(s))
}

/// Wrapper of `urlencoding::encode`, which percent-encodes every byte of the UTF-8
/// form except letters, digits, `-`, `_`, `.` and `~`.
#[verifier::external_body]
pub(crate) fn encode(s: &str) -> (r: String)
    ensures
        r@ == percent_encoded(s@),
{
    urlencoding::encode(s).into_owned()
}

/// The characters that an encoded text can hold.
pub open spec fn encoded_char(c: char) -> bool {
    c == '%' || (c as u32 <= 0x7f && unreserved(c as u8))
}

proof fn percent_bytes_safe(bytes: Seq<u8>)
    ensures
        forall|i: int|
            0 <= i < percent_bytes(bytes).len() ==> encoded_char(#[trigger] percent_bytes(bytes)[i]),
    decreases bytes.len(),
{
    if bytes.len() > 0 {
        percent_bytes_safe(bytes.drop_last());
        let front = percent_bytes(bytes.drop_last());
        let tail = percent_byte(bytes.last());
        assert forall|i: int| 0 <= i < percent_bytes(bytes).len() implies encoded_char(
            #[trigger] percent_bytes(bytes)[i],
        ) by {
            if i < front.len() {
                assert(percent_bytes(bytes)[i] == front[i]);
            } else {
                assert(percent_bytes(bytes)[i] == tail[i - front.len()]);
            }
        }
    }
}

/// An encoded text stays one segment: it holds no `/`, `?`, `&`, `=` or `#`, and
/// no blank.
pub proof fn percent_encoded_is_one_segment(s: Seq<char>)
    ensures
        !percent_encoded(s).contains('/'),
        !percent_encoded(s).contains('?'),
        !percent_encoded(s).contains('&'),
        !percent_encoded(s).contains('='),
        !percent_encoded(s).contains('#'),
        !percent_encoded(s).contains(' '),
{
    let bytes = vstd::utf8::encode_utf8(s);
    percent_bytes_safe(bytes);
    assert forall|c: char|
        c == '/' || c == '?' || c == '&' || c == '=' || c == '#' || c == ' ' implies !#[trigger]
    percent_encoded(s).contains(c) by {
        if percent_encoded(s).contains(c) {
            let i = choose|i: int| 0 <= i < percent_encoded(s).len() && percent_encoded(s)[i] == c;
            assert(encoded_char(percent_bytes(bytes)[i]));
        }
    }
}

proof fn percent_bytes_plain(bytes: Seq<u8>)
    requires
        forall|i: int| 0 <= i < bytes.len() ==> unreserved(#[trigger] bytes[i]),
    ensures
        percent_bytes(bytes) == Seq::new(bytes.len(), |i: int| bytes[i] as char),
    decreases bytes.len(),
{
    if bytes.len() > 0 {
        percent_bytes_plain(bytes.drop_last());
    }
    assert(percent_bytes(bytes) =~= Seq::new(bytes.len(), |i: int| bytes[i] as char));
}

/// A text of letters, digits, `-`, `_`, `.` and `~` is its own encoding.
pub proof fn percent_encoded_plain(s: Seq<char>)
    requires
        vstd::utf8::is_ascii_chars(s),
        forall|i: int| 0 <= i < s.len() ==> unreserved(#[trigger] s[i] as u8),
    ensures
        percent_encoded(s) == s,
{
    let bytes = vstd::utf8::encode_utf8(s);
    vstd::utf8::is_ascii_chars_encode_utf8(s);
    percent_bytes_plain(bytes);
    assert(percent_encoded(s) =~= s);
}

} // verus!
