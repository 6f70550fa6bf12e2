//! Reading and writing JSON text.
//!
//! The text is parsed and printed by `serde_json`; what this module adds is
//! the error of the protocol that a failure becomes.

use crate::error::{A2AError, ErrorKind, ErrorModel};
use crate::json::{JsonMember, JsonModel, JsonNumber, JsonValue};
use crate::text::join;
use serde_json::{Number, Value};
use vstd::prelude::*;

verus! {

/// `serde_json::Value`: a JSON value as `serde_json` holds it. Nothing of
/// what it holds is known here; it is carried from one call to the next.
#[verifier::external_type_specification]
#[verifier::external_body]
pub struct ExValue(serde_json::Value);

/// `serde_json::Error`: why `serde_json` could not read or write. Nothing
/// of what it holds is known here.
#[verifier::external_type_specification]
#[verifier::external_body]
pub struct ExError(serde_json::Error);

/// `serde_json::Number`: a JSON number as `serde_json` holds it. Nothing of
/// what it holds is known here.
#[verifier::external_type_specification]
#[verifier::external_body]
pub struct ExNumber(serde_json::Number);

/// The value that `serde_json::from_str` reads from `text`, if it reads one,
/// as this crate holds it.
pub uninterp spec fn value_of_text(text: Seq<char>) -> Option<JsonModel>;

/// The text that `serde_json::to_string` writes for `value`, if `value` can
/// be handed to it and it writes one.
pub uninterp spec fn text_of_value(value: JsonModel) -> Option<Seq<char>>;

/// A number of `serde_json` as a number of this crate: `PosInt` where it
/// fits `u64`, else `NegInt` where it fits `i64`, else the text that
/// `serde_json` prints for it.
#[verifier::external_body]
fn number_from_serde(n: &Number) -> JsonNumber {
    match (n.as_u64(), n.as_i64()) {
        (Some(u), _) => JsonNumber::PosInt(u),
        (None, Some(i)) => JsonNumber::NegInt(i),
        (None, None) => JsonNumber::Decimal(n.to_string()),
    }
}

/// A number of this crate as a number of `serde_json`. The text of a decimal
/// is read by `serde_json::from_str`, which can fail.
#[verifier::external_body]
fn number_to_serde(n: &JsonNumber) -> Result<Number, serde_json::Error> {
    match n {
        JsonNumber::PosInt(u) => Ok(Number::from(*u)),
        JsonNumber::NegInt(i) => Ok(Number::from(*i)),
        JsonNumber::Decimal(t) => serde_json::from_str(t),
    }
}

/// A value of `serde_json` as a value of this crate, variant by variant. The
/// members of an object come in the order in which its map yields them.
#[verifier::external_body]
fn from_serde(value: &Value) -> JsonValue {
    match value {
        Value::Null => JsonValue::Null,
        Value::Bool(b) => JsonValue::Bool(*b),
        Value::Number(n) => JsonValue::Number(number_from_serde(n)),
        Value::String(s) => JsonValue::String(s.clone()),
        Value::Array(a) => JsonValue::Array(a.iter().map(from_serde).collect()),
        Value::Object(m) => JsonValue::Object(
            m.iter().map(|(k, v)| JsonMember { name: k.clone(), value: from_serde(v) }).collect(),
        ),
    }
}

/// A member of an object of this crate as an entry of a map of `serde_json`.
#[verifier::external_body]
fn member_to_serde(member: &JsonMember) -> Result<(String, Value), serde_json::Error> {
    Ok((member.name.clone(), to_serde(&member.value)?))
}

/// A value of this crate as a value of `serde_json`, variant by variant. The
/// members of an object are collected into a map in their order, so that of
/// members with one name the last stays.
#[verifier::external_body]
fn to_serde(value: &JsonValue) -> Result<Value, serde_json::Error> {
    match value {
        JsonValue::Null => Ok(Value::Null),
        JsonValue::Bool(b) => Ok(Value::Bool(*b)),
        JsonValue::Number(n) => Ok(Value::Number(number_to_serde(n)?)),
        JsonValue::String(s) => Ok(Value::String(s.clone())),
        JsonValue::Array(a) => Ok(Value::Array(a.iter().map(to_serde).collect::<Result<_, _>>()?)),
        JsonValue::Object(m) => Ok(
            Value::Object(m.iter().map(member_to_serde).collect::<Result<_, _>>()?),
        ),
    }
}

/// `serde_json::from_str` at the type of JSON values: the value that `json`
/// holds, or the error that says why it holds none. Whether a value is read,
/// and which, is a function of the text alone; nothing else is claimed.
#[verifier::external_body]
fn parse_json(json: &str) -> (r: Result<JsonValue, serde_json::Error>)
    ensures
        match r {
            Ok(value) => value_of_text(json@) == Some(value@),
            Err(_) => value_of_text(json@) is None,
        },
{
    match serde_json::from_str::<Value>(json) {
        Ok(value) => Ok(from_serde(&value)),
        Err(error) => Err(error),
    }
}

/// `serde_json::to_string` on a JSON value: its text, or the error that says
/// why it has none. Whether a text is written, and which, is a function of
/// the value alone; nothing else is claimed.
#[verifier::external_body]
fn print_json(value: &JsonValue) -> (r: Result<String, serde_json::Error>)
    ensures
        match r {
            Ok(text) => text_of_value(value@) == Some(text@),
            Err(_) => text_of_value(value@) is None,
        },
{
    serde_json::to_string(&to_serde(value)?)
}

/// What `serde_json::Error` shows of itself. Nothing is claimed of the text.
#[verifier::external_body]
fn error_text(error: &serde_json::Error) -> (r: String) {
    error.to_string()
}

/// The error for a text that is not JSON, for the reason `reason`.
pub open spec fn parse_failure(reason: Seq<char>) -> ErrorModel {
    ErrorModel {
        kind: ErrorKind::JSONParse,
        code: ErrorKind::JSONParse.fixed_code(),
        message: "Invalid JSON payload: "@ + reason,
        data: None,
    }
}

/// The error for a value that cannot be written, for the reason `reason`.
pub open spec fn write_failure(reason: Seq<char>) -> ErrorModel {
    ErrorModel {
        kind: ErrorKind::Internal,
        code: ErrorKind::Internal.fixed_code(),
        message: "Internal error: "@ + reason,
        data: None,
    }
}

/// What a request becomes once its text was read: the value that was read,
/// or the error of the protocol for a text that is not JSON.
pub fn parsed_request(read: Result<JsonValue, String>) -> (r: Result<JsonValue, A2AError>)
    ensures
        match read {
            Ok(value) => r == Ok::<JsonValue, A2AError>(value),
            Err(reason) => r is Err && r->Err_0@ == parse_failure(reason@),
        },
{
    match read {
        Ok(value) => Ok(value),
        Err(reason) => Err(
            A2AError::new(
                ErrorKind::JSONParse,
                join("Invalid JSON payload: ", reason.as_str()),
                None,
            ),
        ),
    }
}

/// What a response becomes once its text was written: the text, or the
/// error of the protocol for a value that cannot be written.
pub fn serialized_response(written: Result<String, String>) -> (r: Result<String, A2AError>)
    ensures
        match written {
            Ok(text) => r == Ok::<String, A2AError>(text),
            Err(reason) => r is Err && r->Err_0@ == write_failure(reason@),
        },
{
    match written {
        Ok(text) => Ok(text),
        Err(reason) => Err(
            A2AError::new(ErrorKind::Internal, join("Internal error: ", reason.as_str()), None),
        ),
    }
}

/// Reads a request from JSON text.
pub fn parse_request(json: &str) -> (r: Result<JsonValue, A2AError>)
    ensures
        match r {
            Ok(value) => value_of_text(json@) == Some(value@),
            Err(error) => value_of_text(json@) is None && exists|reason: Seq<char>|
                error@ == parse_failure(reason),
        },
{
    match parse_json(json) {
        Ok(value) => parsed_request(Ok(value)),
        Err(error) => {
            let reason = error_text(&error);
            assert(parse_failure(reason@) == parse_failure(reason@));
            parsed_request(Err(reason))
        },
    }
}

/// Writes a response as JSON text.
pub fn serialize_response(response: &JsonValue) -> (r: Result<String, A2AError>)
    ensures
        match r {
            Ok(text) => text_of_value(response@) == Some(text@),
            Err(error) => text_of_value(response@) is None && exists|reason: Seq<char>|
                error@ == write_failure(reason),
        },
{
    match print_json(response) {
        Ok(text) => serialized_response(Ok(text)),
        Err(error) => {
            let reason = error_text(&error);
            assert(write_failure(reason@) == write_failure(reason@));
            serialized_response(Err(reason))
        },
    }
}

} // verus!
