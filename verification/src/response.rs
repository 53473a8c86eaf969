//! Interpreting the HTTP response to a generation call.
//!
//! The body is parsed as JSON whatever the status code. On an error status
//! the body is first searched for a remote error message: a string member
//! `error`, or the body itself when it is a bare JSON string. When neither is
//! there — or the status was a success — extraction runs over the document
//! and its result is returned.

use vstd::prelude::*;

use crate::extract::{extract_responses, spec_extract};
use crate::json::{get_str_field, spec_str_field, JsonValue};

verus! {

/// Why a generation call failed.
#[derive(Debug, PartialEq, Eq)]
pub enum GenerateError {
    /// The HTTP exchange itself failed; carries the transport's message.
    Transport(String),
    /// The response body was not valid JSON; carries the decoder's message.
    Decode(String),
    /// The API reported an error; carries its message verbatim.
    Remote(String),
}

impl GenerateError {
    /// The message the error carries.
    pub open spec fn spec_message(self) -> Seq<char> {
        match self {
            GenerateError::Transport(m) => m@,
            GenerateError::Decode(m) => m@,
            GenerateError::Remote(m) => m@,
        }
    }

    /// The message the error carries.
    pub fn message(&self) -> (r: &str)
        ensures
            r@ == self.spec_message(),
    {
        match self {
            GenerateError::Transport(m) => m.as_str(),
            GenerateError::Decode(m) => m.as_str(),
            GenerateError::Remote(m) => m.as_str(),
        }
    }
}

/// The remote error message an error-status body carries, if any: its string
/// member `error`, or the body itself when that is a bare string.
pub open spec fn spec_remote_message(body: JsonValue) -> Option<Seq<char>> {
    match spec_str_field(body, "error"@) {
        Some(m) => Some(m),
        None => match body {
            JsonValue::Text(s) => Some(s@),
            _ => None,
        },
    }
}

/// The remote error message of `body`, if any.
pub fn remote_message<'a>(body: &'a JsonValue) -> (r: Option<&'a String>)
    ensures
        match r {
            Some(m) => spec_remote_message(*body) == Some(m@),
            None => spec_remote_message(*body) is None,
        },
{
    match get_str_field(body, "error") {
        Some(m) => Some(m),
        None => match body {
            JsonValue::Text(s) => Some(s),
            _ => None,
        },
    }
}

/// What interpreting a parsed body under a given status must yield: the
/// remote error on an error status that carries a message, the extracted
/// texts otherwise.
pub open spec fn spec_interpretation_ok(
    status_ok: bool,
    body: JsonValue,
    r: Result<Vec<String>, GenerateError>,
) -> bool {
    if !status_ok && spec_remote_message(body) is Some {
        r matches Err(GenerateError::Remote(m)) && Some(m@) == spec_remote_message(body)
    } else {
        r matches Ok(texts) && texts.deep_view() == spec_extract(body)
    }
}

/// Turns a parsed response body and the status of the exchange into the
/// call's result. An error status with a recognizable message fails with
/// that message; any other body — error status or not — goes through
/// extraction, which never fails.
pub fn interpret_response(status_ok: bool, body: &JsonValue) -> (r: Result<
    Vec<String>,
    GenerateError,
>)
    ensures
        spec_interpretation_ok(status_ok, *body, r),
{
    if !status_ok {
        if let Some(m) = remote_message(body) {
            return Err(GenerateError::Remote(m.clone()));
        }
    }
    Ok(extract_responses(body))
}

/// The JSON document that a text parses to, when it is valid JSON. What an
/// invalid text's decoder message is stays unstated.
pub uninterp spec fn json_of(s: Seq<char>) -> Option<JsonValue>;

#[verifier::external_type_specification]
#[verifier::external_body]
pub struct ExSerdeValue(serde_json::Value);

/// Relies on serde_json::Value: each variant of a parsed document is carried
/// over to the library's own model, one arm per variant, a number as its
/// decimal text and an object as its members in order.
#[verifier::external_body]
fn from_serde_value(v: serde_json::Value) -> JsonValue {
    match v {
        serde_json::Value::Null => JsonValue::Null,
        serde_json::Value::Bool(b) => JsonValue::Bool(b),
        serde_json::Value::Number(n) => JsonValue::Number(n.to_string()),
        serde_json::Value::String(s) => JsonValue::Text(s),
        serde_json::Value::Array(a) => JsonValue::Array(
            a.into_iter().map(from_serde_value).collect(),
        ),
        serde_json::Value::Object(m) => JsonValue::Object(
            m.into_iter().map(|(k, x)| (k, from_serde_value(x))).collect(),
        ),
    }
}

/// Relies on serde_json::from_str: whether a text parses, and to which
/// document, depends on the text alone; an invalid text gives the decoder's
/// message.
#[verifier::external_body]
fn parse_json(s: &str) -> (r: Result<JsonValue, String>)
    ensures
        match json_of(s@) {
            Some(v) => r == Ok::<JsonValue, String>(v),
            None => r is Err,
        },
{
    match serde_json::from_str::<serde_json::Value>(s) {
        Ok(v) => Ok(from_serde_value(v)),
        Err(e) => Err(e.to_string()),
    }
}

/// Parses the raw body text and interprets it together with the status of
/// the exchange. A body that is not valid JSON fails with the decoder's
/// message; a valid one is handled as `interpret_response` says.
pub fn handle_response(status_ok: bool, body: &str) -> (r: Result<Vec<String>, GenerateError>)
    ensures
        match json_of(body@) {
            Some(v) => spec_interpretation_ok(status_ok, v, r),
            None => r matches Err(GenerateError::Decode(_)),
        },
{
    match parse_json(body) {
        Ok(v) => interpret_response(status_ok, &v),
        Err(m) => Err(GenerateError::Decode(m)),
    }
}

} // verus!
