//! Encodings that the client applies to the text it sends: percent-encoding
//! of search terms (`percent_encoding`), Base64 of the application
//! credentials (`base64`), and UTF-8 decoding of what it receives.

use vstd::prelude::*;
use vstd::utf8::*;
use percent_encoding::{utf8_percent_encode, DEFAULT_ENCODE_SET};

verus! {

/// The bytes that `percent_encoding::DEFAULT_ENCODE_SET` encodes: controls,
/// non-ASCII bytes, space, `"`, `#`, `<`, `>`, backtick, `?`, `{` and `}`.
pub open spec fn in_default_encode_set(b: u8) -> bool {
    b < 0x20 || b > 0x7e || b == 0x20 || b == 0x22 || b == 0x23 || b == 0x3c || b == 0x3e
        || b == 0x60 || b == 0x3f || b == 0x7b || b == 0x7d
}

/// The upper-case hexadecimal digit for `d < 16`.
pub open spec fn hex_upper(d: int) -> char {
    if d < 10 {
        (48 + d) as char
    } else {
        (55 + d) as char
    }
}

/// Percent-encoding of a byte sequence with the default encode set: each
/// byte of the set becomes `%` and two upper-case hexadecimal digits, every
/// other byte stands for itself.
pub open spec fn percent_encoded(bytes: Seq<u8>) -> Seq<char>
    decreases bytes.len(),
{
    if bytes.len() == 0 {
        Seq::empty()
    } else {
        let b = bytes[0];
        (if in_default_encode_set(b) {
            seq!['%', hex_upper(b as int / 16), hex_upper(b as int % 16)]
        } else {
            seq![b as char]
        }) + percent_encoded(bytes.drop_first())
    }
}

/// `utf8_percent_encode(s, DEFAULT_ENCODE_SET).to_string()` of
/// `percent_encoding` 1.0: the contract states the whole encoding, over the
/// UTF-8 bytes of `s`.
#[verifier::external_body]
pub(crate) fn percent_encode_default(s: &str) -> (r: String)
    ensures
        r@ == percent_encoded(encode_utf8(s@)),
{
    utf8_percent_encode(s, DEFAULT_ENCODE_SET).to_string()
}

/// The character of the standard Base64 alphabet for `n < 64`.
pub open spec fn base64_char(n: int) -> char {
    if n < 26 {
        (65 + n) as char
    } else if n < 52 {
        (71 + n) as char
    } else if n < 62 {
        (n - 4) as char
    } else if n == 62 {
        '+'
    } else {
        '/'
    }
}

/// Standard Base64 with `=` padding: each group of three bytes becomes four
/// characters, a last group of one or two bytes is padded.
pub open spec fn base64_encoded(bytes: Seq<u8>) -> Seq<char>
    decreases bytes.len(),
{
    if bytes.len() == 0 {
        Seq::empty()
    } else if bytes.len() == 1 {
        let b0 = bytes[0] as int;
        seq![base64_char(b0 / 4), base64_char((b0 % 4) * 16), '=', '=']
    } else if bytes.len() == 2 {
        let b0 = bytes[0] as int;
        let b1 = bytes[1] as int;
        seq![base64_char(b0 / 4), base64_char((b0 % 4) * 16 + b1 / 16), base64_char((b1 % 16) * 4), '=']
    } else {
        let b0 = bytes[0] as int;
        let b1 = bytes[1] as int;
        let b2 = bytes[2] as int;
        seq![
            base64_char(b0 / 4),
            base64_char((b0 % 4) * 16 + b1 / 16),
            base64_char((b1 % 16) * 4 + b2 / 64),
            base64_char(b2 % 64),
        ] + base64_encoded(bytes.skip(3))
    }
}

/// `base64::encode` (standard alphabet, padded) of the UTF-8 bytes of `s`;
/// the contract states the whole encoding.
#[verifier::external_body]
pub(crate) fn base64_encode(s: &str) -> (r: String)
    ensures
        r@ == base64_encoded(encode_utf8(s@)),
{
    base64::encode(s)
}

/// `String::from_utf8`: the text that `bytes` encode, if they are valid UTF-8.
#[verifier::external_body]
pub(crate) fn utf8_decode(bytes: Vec<u8>) -> (r: Option<String>)
    ensures
        r is Some <==> valid_utf8(bytes@),
        r matches Some(s) ==> s@ == decode_utf8(bytes@),
{
    String::from_utf8(bytes).ok()
}

} // verus!
