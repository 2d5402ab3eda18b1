//! The trusted boundary for response decoding: bytes to text, and text to
//! a parsed JSON value the rest of the library can walk in verified code.

use vstd::prelude::*;
use vstd::utf8::{valid_utf8, decode_utf8};

verus! {

/// A parsed JSON value as the library holds it: strings, arrays and
/// objects carry their contents. Numbers and booleans are kept only as
/// markers — the response envelope never reads them, and the library
/// holds no floating point.
#[derive(Debug)]
pub enum JsonValue {
    Null,
    Bool(bool),
    Int(i64),
    Uint(u64),
    Float,
    Text(String),
    Array(Vec<JsonValue>),
    Object(Vec<(String, JsonValue)>),
}

#[verifier::external_type_specification]
#[verifier::external_body]
pub struct ExJson(rustc_serialize::json::Json);

/// What the JSON parser returns for a given text, as a `JsonValue`;
/// `None` where the text is not well-formed JSON. The parse is a pure
/// function of the text alone.
pub uninterp spec fn json_parse_model(text: Seq<char>) -> Option<JsonValue>;

/// Relies on rustc_serialize::json::Json::from_str: a pure parser of the
/// given text, returning `Err` exactly on malformed JSON; `of_json`
/// carries the parsed value over variant by variant.
#[verifier::external_body]
pub fn json_parse(text: &str) -> (r: Option<JsonValue>)
    ensures
        r == json_parse_model(text@),
{
    match rustc_serialize::json::Json::from_str(text) {
        Ok(ref value) => Some(of_json(value)),
        Err(_) => None,
    }
}

/// Relies on the public variants of rustc_serialize::json::Json: one arm
/// for each, moving its contents over. Objects are key-ordered maps, so
/// their pair order is determined by the keys. The numeric payload of
/// `F64` cannot be held here; only its variant marker is kept.
#[verifier::external_body]
fn of_json(value: &rustc_serialize::json::Json) -> JsonValue {
    match value {
        rustc_serialize::json::Json::Null => JsonValue::Null,
        rustc_serialize::json::Json::Boolean(b) => JsonValue::Bool(*b),
        rustc_serialize::json::Json::I64(n) => JsonValue::Int(*n),
        rustc_serialize::json::Json::U64(n) => JsonValue::Uint(*n),
        rustc_serialize::json::Json::F64(_) => JsonValue::Float,
        rustc_serialize::json::Json::String(s) => JsonValue::Text(s.clone()),
        rustc_serialize::json::Json::Array(items) => JsonValue::Array(
            items.iter().map(of_json).collect(),
        ),
        rustc_serialize::json::Json::Object(fields) => JsonValue::Object(
            fields.iter().map(|(k, v)| (k.clone(), of_json(v))).collect(),
        ),
    }
}

/// Relies on std::str::from_utf8: it succeeds exactly on valid UTF-8 and
/// yields the text those bytes encode.
#[verifier::external_body]
pub fn bytes_to_text(source: &Vec<u8>) -> (r: Option<String>)
    ensures
        r is Some <==> valid_utf8(source@),
        r matches Some(s) ==> s@ == decode_utf8(source@),
{
    match std::str::from_utf8(source.as_slice()) {
        Ok(text) => Some(text.to_string()),
        Err(_) => None,
    }
}

} // verus!
