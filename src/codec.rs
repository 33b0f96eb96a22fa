//! Base64 encoding and decoding of whole inputs.
use vstd::prelude::*;
use vstd::utf8::{decode_utf8, valid_utf8};

use base64::engine::general_purpose::{STANDARD, URL_SAFE_NO_PAD};
use base64::Engine;

use crate::bytes::{trim_whitespace, trimmed_len};
use crate::formats::Base64Format;
use crate::utf8::string_from_utf8;

verus! {

/// The text that base64's `STANDARD` engine makes of `b`.
pub uninterp spec fn standard_encoding_of(b: Seq<u8>) -> Seq<char>;

/// The text that base64's `URL_SAFE_NO_PAD` engine makes of `b`.
pub uninterp spec fn url_safe_encoding_of(b: Seq<u8>) -> Seq<char>;

/// The bytes that base64's `STANDARD` engine reads from `t`, or `None`
/// where it rejects `t`.
pub uninterp spec fn standard_decoding_of(t: Seq<char>) -> Option<Seq<u8>>;

/// The bytes that base64's `URL_SAFE_NO_PAD` engine reads from `t`, or
/// `None` where it rejects `t`.
pub uninterp spec fn url_safe_decoding_of(t: Seq<char>) -> Option<Seq<u8>>;

/// The characters with Unicode's White_Space property, which is what
/// `char::is_whitespace` tests.
pub open spec fn is_white_space(c: char) -> bool {
    ||| '\u{9}' <= c <= '\u{d}'
    ||| c == ' '
    ||| c == '\u{85}'
    ||| c == '\u{a0}'
    ||| c == '\u{1680}'
    ||| '\u{2000}' <= c <= '\u{200a}'
    ||| c == '\u{2028}'
    ||| c == '\u{2029}'
    ||| c == '\u{202f}'
    ||| c == '\u{205f}'
    ||| c == '\u{3000}'
}

/// `s` without its trailing white space.
pub open spec fn trim_end_spec(s: Seq<char>) -> Seq<char>
    decreases s.len(),
{
    if s.len() > 0 && is_white_space(s.last()) {
        trim_end_spec(s.drop_last())
    } else {
        s
    }
}

/// `s` without its leading white space.
pub open spec fn trim_start_spec(s: Seq<char>) -> Seq<char>
    decreases s.len(),
{
    if s.len() > 0 && is_white_space(s.first()) {
        trim_start_spec(s.drop_first())
    } else {
        s
    }
}

/// `s` without white space at either end, as `str::trim` leaves it.
pub open spec fn trimmed_of(s: Seq<char>) -> Seq<char> {
    trim_start_spec(trim_end_spec(s))
}

fn white_space(c: char) -> (r: bool)
    ensures
        r == is_white_space(c),
{
    ('\u{9}' <= c && c <= '\u{d}') || c == ' ' || c == '\u{85}' || c == '\u{a0}' || c
        == '\u{1680}' || ('\u{2000}' <= c && c <= '\u{200a}') || c == '\u{2028}' || c
        == '\u{2029}' || c == '\u{202f}' || c == '\u{205f}' || c == '\u{3000}'
}

/// Relies on base64's `Engine::encode` for the `STANDARD` engine.
#[verifier::external_body]
fn encode_standard(b: &[u8]) -> (r: String)
    ensures
        r@ == standard_encoding_of(b@),
{
    STANDARD.encode(b)
}

/// Relies on base64's `Engine::encode` for the `URL_SAFE_NO_PAD` engine.
#[verifier::external_body]
fn encode_url_safe(b: &[u8]) -> (r: String)
    ensures
        r@ == url_safe_encoding_of(b@),
{
    URL_SAFE_NO_PAD.encode(b)
}

/// Relies on base64's `Engine::decode` for the `STANDARD` engine.
#[verifier::external_body]
fn decode_standard(t: &str) -> (r: Option<Vec<u8>>)
    ensures
        r matches Some(b) ==> standard_decoding_of(t@) == Some(b@),
        r is None ==> standard_decoding_of(t@) is None,
{
    STANDARD.decode(t).ok()
}

/// Relies on base64's `Engine::decode` for the `URL_SAFE_NO_PAD` engine.
#[verifier::external_body]
fn decode_url_safe(t: &str) -> (r: Option<Vec<u8>>)
    ensures
        r matches Some(b) ==> url_safe_decoding_of(t@) == Some(b@),
        r is None ==> url_safe_decoding_of(t@) is None,
{
    URL_SAFE_NO_PAD.decode(t).ok()
}

/// `s` without white space at either end.
pub fn trim_text(s: &str) -> (r: &str)
    ensures
        r@ == trimmed_of(s@),
{
    let n = s.unicode_len();
    let mut end: usize = n;
    assert(s@.subrange(0, n as int) =~= s@);
    while end > 0 && white_space(s.get_char(end - 1))
        invariant
            end <= n == s@.len(),
            trim_end_spec(s@) == trim_end_spec(s@.subrange(0, end as int)),
        decreases end,
    {
        assert(s@.subrange(0, end as int).drop_last() =~= s@.subrange(0, end - 1));
        end = end - 1;
    }
    let ghost kept = s@.subrange(0, end as int);
    let mut start: usize = 0;
    assert(kept.subrange(0, end as int) =~= kept);
    while start < end && white_space(s.get_char(start))
        invariant
            start <= end <= n == s@.len(),
            kept == s@.subrange(0, end as int),
            trim_start_spec(kept) == trim_start_spec(s@.subrange(start as int, end as int)),
        decreases end - start,
    {
        assert(s@.subrange(start as int, end as int).drop_first() =~= s@.subrange(
            start + 1,
            end as int,
        ));
        start = start + 1;
    }
    s.substring_char(start, end)
}

/// Why a text could not be decoded.
#[derive(Clone, Copy, PartialEq, Eq, Debug, Structural)]
pub enum Base64Error {
    /// The text is not base64 in the alphabet asked for.
    InvalidBase64,
    /// The decoded bytes are not UTF-8 text.
    InvalidUtf8,
}

/// What a decoding comes to: an error where the engine rejected the text,
/// else the text that the bytes encode, where they are UTF-8.
pub open spec fn decoded_text_spec(decoded: Option<Seq<u8>>) -> Result<Seq<char>, Base64Error> {
    match decoded {
        None => Err(Base64Error::InvalidBase64),
        Some(b) => if valid_utf8(b) {
            Ok(decode_utf8(b))
        } else {
            Err(Base64Error::InvalidUtf8)
        },
    }
}

/// The view of a text result.
pub open spec fn text_result_view(r: Result<String, Base64Error>) -> Result<Seq<char>, Base64Error> {
    match r {
        Ok(s) => Ok(s@),
        Err(e) => Err(e),
    }
}

/// The text that the decoded bytes stand for.
pub fn decoded_text(decoded: Option<Vec<u8>>) -> (r: Result<String, Base64Error>)
    ensures
        text_result_view(r) == decoded_text_spec(
            match decoded {
                Some(b) => Some(b@),
                None => None,
            },
        ),
{
    match decoded {
        None => Err(Base64Error::InvalidBase64),
        Some(b) => match string_from_utf8(b) {
            Some(s) => Ok(s),
            None => Err(Base64Error::InvalidUtf8),
        },
    }
}

/// A signature written as URL-safe base64 without padding, as the command
/// line prints it.
pub fn encode_signature(sig: &[u8]) -> (r: String)
    ensures
        r@ == url_safe_encoding_of(sig@),
{
    encode_url_safe(sig)
}

/// The signature that URL-safe base64 text without padding stands for, or
/// `None` where the text is not such base64.
pub fn decode_signature(text: &str) -> (r: Option<Vec<u8>>)
    ensures
        r matches Some(b) ==> url_safe_decoding_of(text@) == Some(b@),
        r is None <==> url_safe_decoding_of(text@) is None,
{
    decode_url_safe(text)
}

/// The base64 text of `input` once its trailing ASCII white space is cut off.
pub fn process_base64_encode(input: &[u8], format: Base64Format) -> (r: String)
    ensures
        ({
            let trimmed = input@.subrange(0, trimmed_len(input@) as int);
            r@ == match format {
                Base64Format::Standard => standard_encoding_of(trimmed),
                Base64Format::UrlSafe => url_safe_encoding_of(trimmed),
            }
        }),
{
    let buf = trim_whitespace(input);
    match format {
        Base64Format::UrlSafe => encode_url_safe(buf),
        Base64Format::Standard => encode_standard(buf),
    }
}

/// The text that `input`, trimmed of white space at both ends, encodes in
/// base64.
pub fn process_base64_decode(input: &str, format: Base64Format) -> (r: Result<String, Base64Error>)
    ensures
        text_result_view(r) == decoded_text_spec(
            match format {
                Base64Format::Standard => standard_decoding_of(trimmed_of(input@)),
                Base64Format::UrlSafe => url_safe_decoding_of(trimmed_of(input@)),
            },
        ),
{
    let buf = trim_text(input);
    let decoded = match format {
        Base64Format::UrlSafe => decode_url_safe(buf),
        Base64Format::Standard => decode_standard(buf),
    };
    decoded_text(decoded)
}

} // verus!
