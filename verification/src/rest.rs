//! How the REST client reads an error answer of the exchange.

use vstd::prelude::*;

use crate::error::SdkError;

verus! {

/// HTTP status the exchange answers with when a client is rate limited by method.
pub const HTTP_STATUS_METHOD_NOT_ALLOWED: u16 = 405;

/// HTTP status the exchange answers with when a client sends too many requests.
pub const HTTP_STATUS_TOO_MANY_REQUESTS: u16 = 429;

/// Whether an HTTP status means the client is rate limited.
pub open spec fn rate_limited_status(status_code: u16) -> bool {
    status_code == HTTP_STATUS_METHOD_NOT_ALLOWED || status_code == HTTP_STATUS_TOO_MANY_REQUESTS
}

/// Whether an HTTP status means the client is rate limited: 405 or 429.
pub fn is_rate_limited_status(status_code: u16) -> (res: bool)
    ensures
        res == rate_limited_status(status_code),
{
    status_code == HTTP_STATUS_METHOD_NOT_ALLOWED || status_code == HTTP_STATUS_TOO_MANY_REQUESTS
}

/// The integer that `serde_json` reads at `key` of the JSON text `body`:
/// `None` when the text is not JSON, is not an object, has no such key, or
/// holds there something other than an integer that fits in an `i64`.
pub uninterp spec fn json_i64_field_of(body: Seq<char>, key: Seq<char>) -> Option<i64>;

/// The string that `serde_json` reads at `key` of the JSON text `body`:
/// `None` when the text is not JSON, is not an object, has no such key, or
/// holds there something other than a string.
pub uninterp spec fn json_str_field_of(body: Seq<char>, key: Seq<char>) -> Option<Seq<char>>;

/// The integer at `key` of a JSON text: `serde_json::from_str` into a
/// `serde_json::Value`, then `Value::get` and `Value::as_i64`.
///
/// Trusted: the result is the one named [`json_i64_field_of`] for the text
/// and the key, and depends on them alone; what JSON serde_json accepts is
/// not restated here.
#[verifier::external_body]
fn json_i64_field(body: &str, key: &str) -> (res: Option<i64>)
    ensures
        res == json_i64_field_of(body@, key@),
{
    let value: serde_json::Value = serde_json::from_str(body).ok()?;
    value.get(key)?.as_i64()
}

/// The string at `key` of a JSON text: `serde_json::from_str` into a
/// `serde_json::Value`, then `Value::get` and `Value::as_str`.
///
/// Trusted: the result is the one named [`json_str_field_of`] for the text
/// and the key, and depends on them alone; what JSON serde_json accepts is
/// not restated here.
#[verifier::external_body]
fn json_str_field(body: &str, key: &str) -> (res: Option<String>)
    ensures
        match res {
            Some(s) => json_str_field_of(body@, key@) == Some(s@),
            None => json_str_field_of(body@, key@) is None,
        },
{
    let value: serde_json::Value = serde_json::from_str(body).ok()?;
    Some(value.get(key)?.as_str()?.to_string())
}

/// The error envelope of a body: its `code` and its `message`, when the body
/// is JSON with an integer `code` and a string `message`; `None` otherwise.
pub open spec fn json_error_envelope(body: Seq<char>) -> Option<(i64, Seq<char>)> {
    match (json_i64_field_of(body, "code"@), json_str_field_of(body, "message"@)) {
        (Some(code), Some(message)) => Some((code, message)),
        _ => None,
    }
}

/// Read the code and message of an error body; see [`json_error_envelope`].
pub fn error_envelope(body: &str) -> (res: Option<(i64, String)>)
    ensures
        match res {
            Some((code, message)) => json_error_envelope(body@) == Some((code, message@)),
            None => json_error_envelope(body@) is None,
        },
{
    let code = json_i64_field(body, "code");
    let message = json_str_field(body, "message");
    match (code, message) {
        (Some(code), Some(message)) => Some((code, message)),
        _ => None,
    }
}

/// The error an unsuccessful answer becomes, given its status, its body and
/// the code and message read from the body, if any.
///
/// A rate-limiting status gives `RateLimited` with the status as code;
/// otherwise `Api`, with the body's code when it has one and the status
/// otherwise. The message is the body's message when it has one, and the
/// whole body otherwise.
pub open spec fn is_error_answer(
    e: SdkError,
    status_code: u16,
    body: Seq<char>,
    envelope: Option<(i64, Seq<char>)>,
) -> bool {
    let message = match envelope {
        Some((_, m)) => m,
        None => body,
    };
    if rate_limited_status(status_code) {
        e matches SdkError::RateLimited { code, message: m } && code == status_code && m@ == message
    } else {
        e matches SdkError::Api { code, message: m } && m@ == message && code == (match envelope {
            Some((c, _)) => c,
            None => status_code as i64,
        })
    }
}

/// The error an unsuccessful answer becomes; see [`is_error_answer`].
pub fn classify_error_answer(status_code: u16, body: String, envelope: Option<(i64, String)>) -> (res:
    SdkError)
    ensures
        is_error_answer(
            res,
            status_code,
            body@,
            match envelope {
                Some((c, m)) => Some((c, m@)),
                None => None,
            },
        ),
{
    let status = status_code as i64;
    match envelope {
        Some((code, message)) => {
            if is_rate_limited_status(status_code) {
                SdkError::RateLimited { code: status, message }
            } else {
                SdkError::Api { code, message }
            }
        },
        None => {
            if is_rate_limited_status(status_code) {
                SdkError::RateLimited { code: status, message: body }
            } else {
                SdkError::Api { code: status, message: body }
            }
        },
    }
}

/// The error an unsuccessful answer with `status_code` and `body` becomes,
/// reading the body as a JSON error envelope first.
pub fn error_from_answer(status_code: u16, body: String) -> (res: SdkError)
    ensures
        is_error_answer(res, status_code, body@, json_error_envelope(body@)),
{
    let envelope = error_envelope(body.as_str());
    classify_error_answer(status_code, body, envelope)
}

} // verus!
