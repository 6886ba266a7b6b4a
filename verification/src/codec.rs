//! Decoding of gateway response bodies, through `serde_json`.
//!
//! What exactly a JSON text decodes to cannot be restated here in a few
//! lines, so each decoding is given a name: a spec function with no
//! definition, fixed only by the trusted wrapper that computes it.  All
//! verified classification downstream is exact in terms of these names.

use vstd::prelude::*;

use crate::errors::ResponseError;
use crate::token::AuthenticationResponse;

verus! {

/// The token-endpoint success body that `s` decodes to, if any: the
/// access token and the expiry in seconds.  The gateway sends
/// `expires_in` either as a number or as a string of digits.
pub uninterp spec fn auth_body_of(s: Seq<char>) -> Option<(Seq<char>, u64)>;

/// The structured error payload that `s` decodes to, if any: request ID,
/// error code and error message.
pub uninterp spec fn error_body_of(s: Seq<char>) -> Option<(Seq<char>, Seq<char>, Seq<char>)>;

/// Whether `s` is a well-formed JSON document.
pub uninterp spec fn json_wf(s: Seq<char>) -> bool;

/// Relies on `serde_json::from_str` and `serde_json::Value`'s accessors:
/// decodes the token endpoint's success body, `{ access_token,
/// expires_in }`, taking `expires_in` as a number or as a string of
/// digits.  The result is a function of the text alone.
#[verifier::external_body]
pub(crate) fn decode_auth_body(text: &str) -> (r: Option<AuthenticationResponse>)
    ensures
        r is Some <==> auth_body_of(text@) is Some,
        r matches Some(a) ==> auth_body_of(text@) == Some((a.access_token@, a.expires_in)),
{
    let v: serde_json::Value = serde_json::from_str(text).ok()?;
    let access_token = v.get("access_token")?.as_str()?.to_string();
    let expires_in = match v.get("expires_in")? {
        serde_json::Value::Number(n) => n.as_u64()?,
        serde_json::Value::String(s) => s.parse().ok()?,
        _ => return None,
    };
    Some(AuthenticationResponse { access_token, expires_in })
}

/// Relies on `serde_json::from_str` and `serde_json::Value`'s accessors:
/// decodes the gateway's structured error body, `{ requestID, errorCode,
/// errorMessage }`, tolerating the camel-case spelling `requestId` of the
/// first key.  The result is a function of the text alone.
#[verifier::external_body]
pub(crate) fn decode_error_body(text: &str) -> (r: Option<ResponseError>)
    ensures
        r is Some <==> error_body_of(text@) is Some,
        r matches Some(e) ==> error_body_of(text@) == Some(
            (e.request_id@, e.error_code@, e.error_message@),
        ),
{
    let v: serde_json::Value = serde_json::from_str(text).ok()?;
    let rid = match v.get("requestID") {
        Some(x) => x,
        None => v.get("requestId")?,
    };
    let request_id = rid.as_str()?.to_string();
    let error_code = v.get("errorCode")?.as_str()?.to_string();
    let error_message = v.get("errorMessage")?.as_str()?.to_string();
    Some(ResponseError { request_id, error_code, error_message })
}

/// Relies on `serde_json::from_str::<serde_json::Value>`: whether the
/// text is well-formed JSON.  The answer is a function of the text alone.
#[verifier::external_body]
pub(crate) fn decode_json_ok(text: &str) -> (r: bool)
    ensures
        r == json_wf(text@),
{
    serde_json::from_str::<serde_json::Value>(text).is_ok()
}

} // verus!
