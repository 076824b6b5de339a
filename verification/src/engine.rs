//! The boundary to the decoding engine: `serde_json` values and the `serde`
//! decoders of scalars. The declarations in the first half of this file are
//! believed, not proved; the decoders in the second half are proved from them.

use crate::error::DecodeError;
use vstd::prelude::*;

verus! {

/// A structured input value, as the engine holds it. Opaque here.
#[verifier::external_type_specification]
#[verifier::external_body]
pub struct ExValue(serde_json::Value);

/// The engine's own error. Opaque here.
#[verifier::external_type_specification]
#[verifier::external_body]
pub struct ExEngineError(serde_json::Error);

/// Whether `serde_json::Value::is_object` holds of `v`.
pub uninterp spec fn json_is_object(v: serde_json::Value) -> bool;

/// Whether `serde_json::Value::is_null` holds of `v`.
pub uninterp spec fn json_is_null(v: serde_json::Value) -> bool;

/// What `serde_json::Value::get` finds in `v` under the string `key`.
pub uninterp spec fn json_member(v: serde_json::Value, key: Seq<char>) -> Option<serde_json::Value>;

/// What `usize::deserialize` returns on `v`.
pub uninterp spec fn json_usize(v: serde_json::Value) -> Result<usize, serde_json::Error>;

/// What `u32::deserialize` returns on `v`.
pub uninterp spec fn json_u32(v: serde_json::Value) -> Result<u32, serde_json::Error>;

/// What `u8::deserialize` returns on `v`.
pub uninterp spec fn json_u8(v: serde_json::Value) -> Result<u8, serde_json::Error>;

/// What `String::deserialize` returns on `v`, the string by its characters.
pub uninterp spec fn json_string(v: serde_json::Value) -> Result<Seq<char>, serde_json::Error>;

/// The text that `serde_json::Error` displays as.
pub uninterp spec fn engine_error_text(e: serde_json::Error) -> Seq<char>;

/// `serde_json::Value::is_object`. Its answer depends on the value alone.
pub assume_specification[ serde_json::Value::is_object ](v: &serde_json::Value) -> (r: bool)
    ensures
        r == json_is_object(*v),
;

/// `serde_json::Value::is_null`. Its answer depends on the value alone.
pub assume_specification[ serde_json::Value::is_null ](v: &serde_json::Value) -> (r: bool)
    ensures
        r == json_is_null(*v),
;

/// `serde_json::Value::get` with a string key: a reference to the entry
/// found, or `None`. What is found depends on the value and the key alone.
#[verifier::external_body]
pub(crate) fn member<'a>(v: &'a serde_json::Value, key: &str) -> (r: Option<&'a serde_json::Value>)
    ensures
        r matches Some(m) ==> json_member(*v, key@) == Some(*m),
        r is None ==> json_member(*v, key@) is None,
{
    v.get(key)
}

/// `<usize as serde::Deserialize>::deserialize` on a borrowed value. The
/// outcome depends on the value alone.
#[verifier::external_body]
pub(crate) fn usize_of(v: &serde_json::Value) -> (r: Result<usize, serde_json::Error>)
    ensures
        r == json_usize(*v),
{
    <usize as serde::Deserialize>::deserialize(v)
}

/// `<u32 as serde::Deserialize>::deserialize` on a borrowed value. The
/// outcome depends on the value alone.
#[verifier::external_body]
pub(crate) fn u32_of(v: &serde_json::Value) -> (r: Result<u32, serde_json::Error>)
    ensures
        r == json_u32(*v),
{
    <u32 as serde::Deserialize>::deserialize(v)
}

/// `<u8 as serde::Deserialize>::deserialize` on a borrowed value. The
/// outcome depends on the value alone.
#[verifier::external_body]
pub(crate) fn u8_of(v: &serde_json::Value) -> (r: Result<u8, serde_json::Error>)
    ensures
        r == json_u8(*v),
{
    <u8 as serde::Deserialize>::deserialize(v)
}

/// `<String as serde::Deserialize>::deserialize` on a borrowed value. The
/// outcome depends on the value alone.
#[verifier::external_body]
pub(crate) fn string_of(v: &serde_json::Value) -> (r: Result<String, serde_json::Error>)
    ensures
        match r {
            Ok(s) => json_string(*v) matches Ok(t) && t == s@,
            Err(e) => json_string(*v) matches Err(x) && x == e,
        },
{
    <String as serde::Deserialize>::deserialize(v)
}

/// `serde_json::Error`'s `Display` text. It depends on the error alone.
#[verifier::external_body]
pub(crate) fn error_text(e: &serde_json::Error) -> (r: String)
    ensures
        r@ == engine_error_text(*e),
{
    e.to_string()
}

/// `r` is the rejection that carries the engine's text for `e`.
pub open spec fn is_rejection(r: DecodeError, e: serde_json::Error) -> bool {
    r matches DecodeError::Rejected { message } && message@ == engine_error_text(e)
}

/// Turns the engine's error into the library's.
fn rejection(e: serde_json::Error) -> (r: DecodeError)
    ensures
        is_rejection(r, e),
{
    DecodeError::Rejected { message: error_text(&e) }
}

/// Decodes a `usize`: the engine's value, or its refusal as a rejection.
pub fn decode_usize(input: &serde_json::Value) -> (r: Result<usize, DecodeError>)
    ensures
        match json_usize(*input) {
            Ok(n) => r == Ok::<usize, DecodeError>(n),
            Err(e) => r matches Err(x) && is_rejection(x, e),
        },
{
    match usize_of(input) {
        Ok(n) => Ok(n),
        Err(e) => Err(rejection(e)),
    }
}

/// Decodes a `u32`: the engine's value, or its refusal as a rejection.
pub fn decode_u32(input: &serde_json::Value) -> (r: Result<u32, DecodeError>)
    ensures
        match json_u32(*input) {
            Ok(n) => r == Ok::<u32, DecodeError>(n),
            Err(e) => r matches Err(x) && is_rejection(x, e),
        },
{
    match u32_of(input) {
        Ok(n) => Ok(n),
        Err(e) => Err(rejection(e)),
    }
}

/// Decodes a `u8`: the engine's value, or its refusal as a rejection.
pub fn decode_u8(input: &serde_json::Value) -> (r: Result<u8, DecodeError>)
    ensures
        match json_u8(*input) {
            Ok(n) => r == Ok::<u8, DecodeError>(n),
            Err(e) => r matches Err(x) && is_rejection(x, e),
        },
{
    match u8_of(input) {
        Ok(n) => Ok(n),
        Err(e) => Err(rejection(e)),
    }
}

/// Decodes a `String`: the engine's value, or its refusal as a rejection.
pub fn decode_string(input: &serde_json::Value) -> (r: Result<String, DecodeError>)
    ensures
        match json_string(*input) {
            Ok(s) => r matches Ok(t) && t@ == s,
            Err(e) => r matches Err(x) && is_rejection(x, e),
        },
{
    match string_of(input) {
        Ok(s) => Ok(s),
        Err(e) => Err(rejection(e)),
    }
}

} // verus!
