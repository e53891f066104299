//! The cursor codec: an ordered pair of key texts, written as a JSON array of
//! two strings and then as URL-safe base64.

use vstd::prelude::*;
use base64::prelude::{Engine, BASE64_URL_SAFE};
use crate::error::{Failure, PageError};

verus! {

#[verifier::external_type_specification]
#[verifier::external_body]
pub struct ExDecodeError(base64::DecodeError);

#[verifier::external_type_specification]
#[verifier::external_body]
pub struct ExJsonError(serde_json::Error);

/// The text that `base64`'s URL-safe engine with padding writes for `bytes`.
pub uninterp spec fn base64_text(bytes: Seq<u8>) -> Seq<char>;

/// The bytes that `base64`'s URL-safe engine with padding reads from `text`,
/// or `None` where it refuses `text`.
pub uninterp spec fn base64_bytes(text: Seq<char>) -> Option<Seq<u8>>;

/// The JSON text that `serde_json` writes for an array of strings, or `None`
/// where it fails.
pub uninterp spec fn json_bytes(values: Seq<Seq<char>>) -> Option<Seq<u8>>;

/// The array of strings that `serde_json` reads from `bytes`, or `None` where
/// `bytes` is not one JSON array of strings.
pub uninterp spec fn json_strings(bytes: Seq<u8>) -> Option<Seq<Seq<char>>>;

/// Whether the base64 text of so many bytes has a length that fits in `usize`.
pub open spec fn encodable(len: nat) -> bool {
    len / 3 * 4 + 4 <= usize::MAX
}

/// The cursor that stands for the key pair `(v1, v2)`, or `None` where the
/// pair cannot be written.
pub open spec fn cursor_text(v1: Seq<char>, v2: Seq<char>) -> Option<Seq<char>> {
    match json_bytes(seq![v1, v2]) {
        Some(bytes) => if encodable(bytes.len()) {
            Some(base64_text(bytes))
        } else {
            None
        },
        None => None,
    }
}

/// The pair that an array of strings holds: its two elements, where it has
/// exactly two.
pub open spec fn pair_of(values: Seq<Seq<char>>) -> Option<(Seq<char>, Seq<char>)> {
    if values.len() == 2 {
        Some((values[0], values[1]))
    } else {
        None
    }
}

/// The key pair that `cursor` stands for, or `None` where `cursor` is not
/// base64, or its payload is not a JSON array of strings, or that array does
/// not have exactly two elements.
pub open spec fn cursor_keys(cursor: Seq<char>) -> Option<(Seq<char>, Seq<char>)> {
    match base64_bytes(cursor) {
        Some(bytes) => match json_strings(bytes) {
            Some(values) => pair_of(values),
            None => None,
        },
        None => None,
    }
}

/// The reason given for a cursor that does not decode.
pub open spec fn invalid_cursor() -> Failure {
    Failure::InvalidArgument("invalid cursor"@)
}

/// Calls `Engine::encode` of `base64` on its `URL_SAFE` engine. Trusted: the
/// result is the text named [`base64_text`], and the same engine's `decode`
/// reads the input back from it. The call panics where the length of the
/// text overflows `usize`; the precondition leaves those inputs out.
#[verifier::external_body]
fn to_base64(bytes: &[u8]) -> (text: String)
    requires
        encodable(bytes@.len()),
    ensures
        text@ == base64_text(bytes@),
        base64_bytes(text@) == Some(bytes@),
{
    BASE64_URL_SAFE.encode(bytes)
}

/// Calls `Engine::decode` of `base64` on its `URL_SAFE` engine. Trusted: the
/// result is the one named [`base64_bytes`].
#[verifier::external_body]
fn from_base64(text: &str) -> (res: Result<Vec<u8>, base64::DecodeError>)
    ensures
        match res {
            Ok(bytes) => base64_bytes(text@) == Some(bytes@),
            Err(_) => base64_bytes(text@) is None,
        },
{
    BASE64_URL_SAFE.decode(text)
}

/// Calls `serde_json::to_vec` on a vector of strings. Trusted: the result is
/// the one named [`json_bytes`], and `serde_json::from_slice` reads the same
/// strings back from it.
#[verifier::external_body]
fn to_json(values: &Vec<String>) -> (res: Result<Vec<u8>, serde_json::Error>)
    ensures
        match res {
            Ok(bytes) => json_bytes(values.deep_view()) == Some(bytes@)
                && json_strings(bytes@) == Some(values.deep_view()),
            Err(_) => json_bytes(values.deep_view()) is None,
        },
{
    serde_json::to_vec(values)
}

/// Calls `serde_json::from_slice` for a vector of strings. Trusted: the
/// result is the one named [`json_strings`].
#[verifier::external_body]
fn from_json(bytes: &[u8]) -> (res: Result<Vec<String>, serde_json::Error>)
    ensures
        match res {
            Ok(values) => json_strings(bytes@) == Some(values.deep_view()),
            Err(_) => json_strings(bytes@) is None,
        },
{
    serde_json::from_slice(bytes)
}

/// Takes the two elements out of a decoded array, and refuses an array of
/// any other length.
pub fn take_pair(values: Vec<String>) -> (res: Result<(String, String), PageError>)
    ensures
        match res {
            Ok(pair) => pair_of(values.deep_view()) == Some((pair.0@, pair.1@)),
            Err(e) => pair_of(values.deep_view()) is None && e@ == invalid_cursor(),
        },
{
    let mut values = values;
    if values.len() != 2 {
        return Err(PageError::invalid_argument("invalid cursor"));
    }
    let second = values.remove(1);
    let first = values.remove(0);
    Ok((first, second))
}

/// Writes the key pair `(v1, v2)` as a cursor.
///
/// The cursor is the one named by [`cursor_text`], and [`decode`] gives the
/// same pair back for it. The call fails, with `Internal`, only where the
/// pair cannot be written.
pub fn encode(v1: &str, v2: &str) -> (res: Result<String, PageError>)
    ensures
        match res {
            Ok(cursor) => cursor_text(v1@, v2@) == Some(cursor@)
                && cursor_keys(cursor@) == Some((v1@, v2@)),
            Err(e) => cursor_text(v1@, v2@) is None && e@ == Failure::Internal,
        },
{
    let mut values: Vec<String> = Vec::new();
    values.push(v1.to_owned());
    values.push(v2.to_owned());
    assert(values.deep_view() =~= seq![v1@, v2@]);
    let bytes = match to_json(&values) {
        Ok(bytes) => bytes,
        Err(_) => {
            return Err(PageError::internal());
        },
    };
    if bytes.len() / 3 > (usize::MAX - 4) / 4 {
        return Err(PageError::internal());
    }
    Ok(to_base64(bytes.as_slice()))
}

/// Reads the key pair back from a cursor.
///
/// Succeeds exactly where `cursor` is base64 whose payload is a JSON array of
/// exactly two strings; any other text is refused as an invalid argument.
pub fn decode(cursor: &str) -> (res: Result<(String, String), PageError>)
    ensures
        match res {
            Ok(pair) => cursor_keys(cursor@) == Some((pair.0@, pair.1@)),
            Err(e) => cursor_keys(cursor@) is None && e@ == invalid_cursor(),
        },
{
    let bytes = match from_base64(cursor) {
        Ok(bytes) => bytes,
        Err(_) => {
            return Err(PageError::invalid_argument("invalid cursor"));
        },
    };
    let values = match from_json(bytes.as_slice()) {
        Ok(values) => values,
        Err(_) => {
            return Err(PageError::invalid_argument("invalid cursor"));
        },
    };
    take_pair(values)
}

} // verus!
