//! Telling a good response of the attendance service from a failed one.

use crate::json::{has_member, json_has_member, json_rendering, render};
use crate::text::{decimal, decimal_text};
use serde_json::Value;
use vstd::prelude::*;
use vstd::string::*;

verus! {

/// A response is good where its HTTP status is in the 200s and its body has
/// no member `error`.
pub open spec fn is_success(status_code: u16, json: Value) -> bool {
    200 <= status_code < 300 && !json_has_member(json, "error"@)
}

/// What is said of a failed response: the status, the word `Failed`, and
/// the body.
pub open spec fn failure_text(status_code: u16, json: Value) -> Seq<char> {
    "["@ + decimal(status_code as nat) + "]["@ + "Failed"@ + "] "@ + json_rendering(json)
}

/// Judges a response by its HTTP status and its JSON body: the body itself
/// where the response is good, else a message that holds the status and the
/// body.
pub fn to_resp_json(status_code: u16, json: Value) -> (result: Result<Value, String>)
    ensures
        match result {
            Ok(body) => is_success(status_code, json) && body == json,
            Err(message) => !is_success(status_code, json) && message@ == failure_text(
                status_code,
                json,
            ),
        },
{
    let success = 200 <= status_code && status_code < 300 && !has_member(&json, "error");
    if success {
        Ok(json)
    } else {
        let mut message = String::from_str("[");
        message.append(decimal_text(status_code as u64).as_str());
        message.append("][");
        message.append("Failed");
        message.append("] ");
        message.append(render(&json).as_str());
        Err(message)
    }
}

} // verus!
