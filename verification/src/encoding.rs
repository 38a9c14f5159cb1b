//! Text encodings the protocol uses: base64 (through the `base64` crate) and
//! percent-encoding of control characters (through `percent-encoding`).
use vstd::prelude::*;
use vstd::utf8::encode_utf8;

verus! {

/// What `base64::decode_config(s, base64::URL_SAFE)` returns for the string `s`
/// (`None` where the crate reports a `DecodeError`).
pub uninterp spec fn base64_url_safe_decoded(s: Seq<char>) -> Option<Seq<u8>>;

/// What `base64::encode_config(b, base64::URL_SAFE)` returns for the bytes `b`.
pub uninterp spec fn base64_url_safe_encoded(b: Seq<u8>) -> Seq<char>;

/// What `base64::decode(s)` (the standard alphabet, padded) returns for `s`.
pub uninterp spec fn base64_standard_decoded(s: Seq<char>) -> Option<Seq<u8>>;

/// Calls `base64::decode_config(s, base64::URL_SAFE)`. The contract names the
/// result and says nothing more of it. The crate panics only when the input's
/// length plus 3 overflows `usize`, which no string in memory reaches.
#[verifier::external_body]
pub(crate) fn base64_url_safe_decode(s: &str) -> (r: Option<Vec<u8>>)
    ensures
        match r {
            Some(v) => base64_url_safe_decoded(s@) == Some(v@),
            None => base64_url_safe_decoded(s@) is None,
        },
{
    base64::decode_config(s, base64::URL_SAFE).ok()
}

/// Calls `base64::encode_config(b, base64::URL_SAFE)`. Beyond naming the
/// result, the contract claims the round trip that the crate's own tests check:
/// decoding the encoding with the same configuration gives the bytes back.
#[verifier::external_body]
pub(crate) fn base64_url_safe_encode(b: &[u8]) -> (r: String)
    ensures
        r@ == base64_url_safe_encoded(b@),
        base64_url_safe_decoded(r@) == Some(b@),
{
    base64::encode_config(b, base64::URL_SAFE)
}

/// What `base64::encode_config(b, base64::URL_SAFE_NO_PAD)` returns for `b`.
pub uninterp spec fn base64_url_safe_no_pad_encoded(b: Seq<u8>) -> Seq<char>;

/// Calls `base64::encode_config(b, base64::URL_SAFE_NO_PAD)`; the contract
/// names the result.
#[verifier::external_body]
pub(crate) fn base64_url_safe_no_pad_encode(b: &[u8]) -> (r: String)
    ensures
        r@ == base64_url_safe_no_pad_encoded(b@),
{
    base64::encode_config(b, base64::URL_SAFE_NO_PAD)
}

/// What `base64::encode(b)` (the standard alphabet, padded) returns for `b`.
pub uninterp spec fn base64_standard_encoded(b: Seq<u8>) -> Seq<char>;

/// The characters of the standard base64 alphabet, and the padding `=`.
pub open spec fn is_base64_standard_char(c: char) -> bool {
    ('A' <= c && c <= 'Z') || ('a' <= c && c <= 'z') || ('0' <= c && c <= '9') || c == '+' || c == '/' || c == '='
}

/// Calls `base64::encode(b)`. Beyond naming the result, the contract claims
/// the round trip through `base64::decode` that the crate's tests check, and
/// that the output uses only the standard alphabet and padding, as the
/// crate documents of its `STANDARD` configuration.
#[verifier::external_body]
pub(crate) fn base64_standard_encode(b: &[u8]) -> (r: String)
    ensures
        r@ == base64_standard_encoded(b@),
        base64_standard_decoded(r@) == Some(b@),
        forall|i: int| 0 <= i < r@.len() ==> is_base64_standard_char(#[trigger] r@[i]),
{
    base64::encode(b)
}

/// Calls `base64::decode(s)`; the contract only names the result.
#[verifier::external_body]
pub(crate) fn base64_standard_decode(s: &str) -> (r: Option<Vec<u8>>)
    ensures
        match r {
            Some(v) => base64_standard_decoded(s@) == Some(v@),
            None => base64_standard_decoded(s@) is None,
        },
{
    base64::decode(s).ok()
}

/// The upper-case hexadecimal digit of a value below 16.
pub open spec fn hex_digit_upper(v: u8) -> char {
    if v < 10 {
        (v + 48) as char
    } else {
        (v + 55) as char
    }
}

/// How `percent_encoding` writes one byte when encoding with `CONTROLS`:
/// C0 controls, DEL and every non-ASCII byte become `%XX`, the rest stay.
pub open spec fn percent_encode_controls_byte(b: u8) -> Seq<char> {
    if b < 0x20 || b >= 0x7f {
        seq!['%', hex_digit_upper(b / 16), hex_digit_upper(b % 16)]
    } else {
        seq![b as char]
    }
}

/// Percent-encoding of a byte string with the `CONTROLS` set.
pub open spec fn percent_encode_controls_bytes(bs: Seq<u8>) -> Seq<char>
    decreases bs.len(),
{
    if bs.len() == 0 {
        Seq::empty()
    } else {
        percent_encode_controls_byte(bs[0]) + percent_encode_controls_bytes(bs.drop_first())
    }
}

/// Calls `percent_encoding::utf8_percent_encode(s, CONTROLS).to_string()`:
/// the crate encodes the UTF-8 bytes of `s`, writing `%XX` (upper-case hex)
/// for non-ASCII bytes and for bytes in the set, which holds 0x00-0x1F and 0x7F.
#[verifier::external_body]
pub(crate) fn percent_encode_controls(s: &str) -> (r: String)
    ensures
        r@ == percent_encode_controls_bytes(encode_utf8(s@)),
{
    percent_encoding::utf8_percent_encode(s, percent_encoding::CONTROLS).to_string()
}

} // verus!
