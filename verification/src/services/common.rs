//! Answers of upstream JSON services.
use vstd::prelude::*;

use crate::error::{timeout_error, unavailable_error, upstream_status_error, invalid_response_error, ApiError};

verus! {

/// The error for an upstream call that got no answer: 504 when it timed out,
/// else 502, both naming the service `upstream`.
pub fn transport_error(timeout: bool) -> (r: ApiError)
    ensures
        r@ == (if timeout {
            timeout_error("upstream"@)
        } else {
            unavailable_error("upstream"@)
        }),
{
    if timeout {
        ApiError::upstream_timeout("upstream")
    } else {
        ApiError::upstream_unavailable("upstream")
    }
}

/// The result of an upstream answer with the given status and, for a
/// success, its body read as JSON (`None` when it is not JSON): the body on
/// success, an invalid-answer error when the body is not JSON, and the error
/// for the status otherwise.
pub fn upstream_reply(status: u16, body: Option<serde_json::Value>) -> (r: Result<
    serde_json::Value,
    ApiError,
>)
    requires
        100 <= status <= 999,
    ensures
        if 200 <= status < 300 {
            match body {
                Some(b) => r == Ok::<serde_json::Value, ApiError>(b),
                None => r matches Err(e) && e@ == invalid_response_error("upstream"@),
            }
        } else {
            r matches Err(e) && e@ == upstream_status_error(status)
        },
{
    if 200 <= status && status < 300 {
        match body {
            Some(b) => Ok(b),
            None => Err(ApiError::upstream_invalid_response("upstream")),
        }
    } else {
        Err(ApiError::from_upstream_status(status))
    }
}

} // verus!
