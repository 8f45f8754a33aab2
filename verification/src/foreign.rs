//! Named results for, and thin wrappers around, the outside functions the
//! engine leans on: JSON parsing and pretty-printing, Base64 decoding, and
//! two string utilities of std. Each wrapper's contract states only what the
//! wrapped function's source or documentation shows; results that would take
//! pages to spell out are given an opaque name instead.

use vstd::prelude::*;

use base64::Engine;

verus! {

/// Whether `serde_json::from_str::<Value>` accepts the string: true exactly
/// when the string is one well-formed JSON document.
pub uninterp spec fn is_json(s: Seq<char>) -> bool;

/// The pretty-printed JSON text that parsing the string and re-serialising it
/// with `serde_json::to_string_pretty` yields. Meaningful only on strings that
/// `is_json` accepts; a function of the string alone.
pub uninterp spec fn json_pretty(s: Seq<char>) -> Seq<char>;

/// What `base64::engine::general_purpose::STANDARD.decode` makes of the
/// string: the decoded bytes, or `None` where the engine rejects it. A
/// function of the string alone.
pub uninterp spec fn b64_decoded(s: Seq<char>) -> Option<Seq<u8>>;

/// The characters `String::from_utf8_lossy` reads out of the bytes: the
/// decoded text, with every invalid sequence replaced. A function of the
/// bytes alone.
pub uninterp spec fn utf8_lossy(b: Seq<u8>) -> Seq<char>;

/// What `str::trim` leaves of the string: the same text with leading and
/// trailing whitespace removed.
pub uninterp spec fn trim_of(s: Seq<char>) -> Seq<char>;

/// Relies on `serde_json::from_str::<Value>`: it returns `Ok` exactly when
/// the input is one well-formed JSON document.
#[verifier::external_body]
pub(crate) fn json_well_formed(input: &str) -> (r: bool)
    ensures
        r == is_json(input@),
{
    serde_json::from_str::<serde_json::Value>(input).is_ok()
}

/// Relies on `serde_json::from_str::<Value>` and `serde_json::to_string_pretty`:
/// parsing succeeds exactly on well-formed JSON, and the re-serialised text is
/// a function of the input alone. Falls back to the input itself in the error
/// arm of `to_string_pretty`, as `json_pretty` then names that fallback.
#[verifier::external_body]
pub(crate) fn json_pretty_string(input: &str) -> (r: Option<String>)
    ensures
        r is Some == is_json(input@),
        r matches Some(p) ==> p@ == json_pretty(input@),
{
    match serde_json::from_str::<serde_json::Value>(input) {
        Ok(value) => match serde_json::to_string_pretty(&value) {
            Ok(pretty) => Some(pretty),
            Err(_) => Some(input.to_owned()),
        },
        Err(_) => None,
    }
}

/// Relies on `base64::engine::general_purpose::STANDARD.decode`: the decoded
/// bytes, or an error, are a function of the input alone.
#[verifier::external_body]
pub(crate) fn decode_base64(input: &str) -> (r: Option<Vec<u8>>)
    ensures
        r is Some == b64_decoded(input@) is Some,
        r matches Some(b) ==> b64_decoded(input@) == Some(b@),
{
    base64::engine::general_purpose::STANDARD.decode(input).ok()
}

/// Relies on `String::from_utf8_lossy`: the decoded text is a function of the
/// bytes alone.
#[verifier::external_body]
pub(crate) fn utf8_lossy_string(bytes: &Vec<u8>) -> (r: String)
    ensures
        r@ == utf8_lossy(bytes@),
{
    String::from_utf8_lossy(bytes).into_owned()
}

/// Relies on `str::trim`: the result is the input with leading and trailing
/// whitespace removed, a function of the input alone.
#[verifier::external_body]
pub(crate) fn trim_str<'a>(s: &'a str) -> (r: &'a str)
    ensures
        r@ == trim_of(s@),
{
    s.trim()
}

} // verus!
