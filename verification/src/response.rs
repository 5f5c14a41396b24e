//! Replies: the status check that tells a payload from an error.

use vstd::prelude::*;
use crate::json::{
    error_message, json_of, parse_value, parsed, value_as_str, value_get, value_index, Json,
};
use crate::outcome::{Failure, FailureView};
use crate::text::text_equal;

verus! {

/// The reply reports success: its `status` is the string `success`.
pub open spec fn succeeded(reply: Json) -> bool {
    reply.member("status"@) == Some(Json::Text("success"@))
}

/// The error that a reply carries: its `error` where that is a string, the
/// words `unknown error` otherwise.
pub open spec fn error_of(reply: Json) -> Seq<char> {
    match reply.member("error"@) {
        Some(Json::Text(message)) => message,
        _ => "unknown error"@,
    }
}

/// The payload of a reply: its `response`, or `null` where it has none.
pub open spec fn payload_of(reply: Json) -> Json {
    reply.member_or_null("response"@)
}

/// What a reply amounts to: its payload where it reports success, its error otherwise.
pub open spec fn interpretation(reply: Json) -> Result<Json, Seq<char>> {
    if succeeded(reply) {
        Ok(payload_of(reply))
    } else {
        Err(error_of(reply))
    }
}

/// Reads a reply line as a JSON document.
pub fn parse_reply(line: &str) -> (reply: Result<serde_json::Value, Failure>)
    ensures
        match reply {
            Ok(value) => parsed(line@) matches Ok(document) && document == json_of(value),
            Err(failure) => parsed(line@) matches Err(diagnostic) && failure@
                == FailureView::Parse(diagnostic),
        },
{
    match parse_value(line) {
        Ok(value) => Ok(value),
        Err(error) => Err(Failure::Parse(error_message(&error))),
    }
}

/// Whether a reply reports success.
pub fn reports_success(reply: &serde_json::Value) -> (success: bool)
    ensures
        success == succeeded(json_of(*reply)),
{
    match value_get(reply, "status") {
        Some(status) => match value_as_str(status) {
            Some(text) => text_equal(text, "success"),
            None => false,
        },
        None => false,
    }
}

/// The error message that a reply carries.
pub fn error_in(reply: &serde_json::Value) -> (message: String)
    ensures
        message@ == error_of(json_of(*reply)),
{
    match value_get(reply, "error") {
        Some(error) => match value_as_str(error) {
            Some(text) => text.to_owned(),
            None => "unknown error".to_owned(),
        },
        None => "unknown error".to_owned(),
    }
}

/// Checks the status of a reply: the payload where it reports success, the
/// protocol failure with the reply's error otherwise.
pub fn interpret<'a>(reply: &'a serde_json::Value) -> (outcome: Result<&'a serde_json::Value, Failure>)
    ensures
        match outcome {
            Ok(payload) => interpretation(json_of(*reply)) matches Ok(document) && document == json_of(
                *payload,
            ),
            Err(failure) => interpretation(json_of(*reply)) matches Err(message) && failure@
                == FailureView::Protocol(message),
        },
{
    if reports_success(reply) {
        Ok(value_index(reply, "response"))
    } else {
        Err(Failure::Protocol(error_in(reply)))
    }
}

} // verus!
