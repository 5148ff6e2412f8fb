//! The gateway's error values and the body it answers them with.
use vstd::prelude::*;
use vstd::string::*;

use crate::text::{decimal, decimal_string};

verus! {

/// A JSON value of `serde_json`, carried through unread.
#[verifier::external_type_specification]
#[verifier::external_body]
pub struct ExJsonValue(serde_json::Value);

/// An error the gateway answers with: an HTTP status, a stable code and a
/// human-readable message.
#[derive(Debug)]
pub struct ApiError {
    pub status: u16,
    pub code: String,
    pub message: String,
    pub details: Option<serde_json::Value>,
}

/// What an [`ApiError`] says: its status, code and message.
pub struct ApiErrorView {
    pub status: u16,
    pub code: Seq<char>,
    pub message: Seq<char>,
}

impl View for ApiError {
    type V = ApiErrorView;

    open spec fn view(&self) -> ApiErrorView {
        ApiErrorView { status: self.status, code: self.code@, message: self.message@ }
    }
}

/// The error with the given status, code and message.
pub open spec fn api_error(status: u16, code: Seq<char>, message: Seq<char>) -> ApiErrorView {
    ApiErrorView { status, code, message }
}

/// 502: the named upstream service could not be reached.
pub open spec fn unavailable_error(service: Seq<char>) -> ApiErrorView {
    api_error(502, "UPSTREAM_UNAVAILABLE"@, service + " service unreachable"@)
}

/// 504: the named upstream service timed out.
pub open spec fn timeout_error(service: Seq<char>) -> ApiErrorView {
    api_error(504, "UPSTREAM_TIMEOUT"@, service + " service timeout"@)
}

/// 502: the named upstream service answered something unusable.
pub open spec fn invalid_response_error(service: Seq<char>) -> ApiErrorView {
    api_error(502, "UPSTREAM_INVALID_RESPONSE"@, service + " returned invalid response"@)
}

/// 403 with the given message.
pub open spec fn forbidden_error(message: Seq<char>) -> ApiErrorView {
    api_error(403, "FORBIDDEN"@, message)
}

/// 401 with the given message.
pub open spec fn unauthorized_error(message: Seq<char>) -> ApiErrorView {
    api_error(401, "UNAUTHORIZED"@, message)
}

/// The code given to an error status that an upstream service answered.
pub open spec fn upstream_status_code(status: u16) -> Seq<char> {
    if status == 404 {
        "RESOURCE_NOT_FOUND"@
    } else if status == 401 {
        "UNAUTHORIZED"@
    } else if status == 403 {
        "FORBIDDEN"@
    } else if status == 400 {
        "BAD_REQUEST"@
    } else {
        "UPSTREAM_ERROR"@
    }
}

/// The canonical reason phrase of an HTTP status code, as the `http` crate
/// knows it (`StatusCode::canonical_reason`).
pub uninterp spec fn canonical_reason(code: u16) -> Option<Seq<char>>;

/// How an HTTP status is displayed: the number, a space and the reason
/// phrase (`<unknown status code>` where there is none).
pub open spec fn status_display(status: u16) -> Seq<char> {
    decimal(status as nat) + " "@ + match canonical_reason(status) {
        Some(reason) => reason,
        None => "<unknown status code>"@,
    }
}

/// The error for an error status that an upstream service answered.
pub open spec fn upstream_status_error(status: u16) -> ApiErrorView {
    api_error(
        status,
        upstream_status_code(status),
        "Upstream service returned "@ + status_display(status),
    )
}

/// `http::StatusCode::canonical_reason` for a valid status code (one in
/// 100..=999, which `StatusCode::from_u16` accepts). Claimed: the result is
/// the phrase that the crate's table holds for the code, named
/// `canonical_reason`.
#[verifier::external_body]
fn reason_phrase(code: u16) -> (r: Option<&'static str>)
    requires
        100 <= code <= 999,
    ensures
        match r {
            Some(s) => canonical_reason(code) == Some(s@),
            None => canonical_reason(code) is None,
        },
{
    match axum::http::StatusCode::from_u16(code) {
        Ok(status) => status.canonical_reason(),
        Err(_) => None,
    }
}

/// An owned copy of `s` followed by `suffix`.
fn join2(s: &str, suffix: &str) -> (r: String)
    ensures
        r@ == s@ + suffix@,
{
    let mut out = String::from_str(s);
    out.append(suffix);
    out
}

impl ApiError {
    fn new(status: u16, code: &str, message: String) -> (r: Self)
        ensures
            r@ == api_error(status, code@, message@),
            r.details is None,
    {
        ApiError { status, code: String::from_str(code), message, details: None }
    }

    /// 502 `UPSTREAM_UNAVAILABLE`: "`service` service unreachable".
    pub fn upstream_unavailable(service: &str) -> (r: Self)
        ensures
            r@ == unavailable_error(service@),
            r.details is None,
    {
        Self::new(502, "UPSTREAM_UNAVAILABLE", join2(service, " service unreachable"))
    }

    /// 504 `UPSTREAM_TIMEOUT`: "`service` service timeout".
    pub fn upstream_timeout(service: &str) -> (r: Self)
        ensures
            r@ == timeout_error(service@),
            r.details is None,
    {
        Self::new(504, "UPSTREAM_TIMEOUT", join2(service, " service timeout"))
    }

    /// 502 `UPSTREAM_INVALID_RESPONSE`: "`service` returned invalid response".
    pub fn upstream_invalid_response(service: &str) -> (r: Self)
        ensures
            r@ == invalid_response_error(service@),
            r.details is None,
    {
        Self::new(502, "UPSTREAM_INVALID_RESPONSE", join2(service, " returned invalid response"))
    }

    /// The error for an error status answered upstream: the same status, a
    /// code that names the common client errors, and a message that shows the
    /// status.
    pub fn from_upstream_status(status: u16) -> (r: Self)
        requires
            100 <= status <= 999,
        ensures
            r@ == upstream_status_error(status),
            r.details is None,
    {
        let code = if status == 404 {
            "RESOURCE_NOT_FOUND"
        } else if status == 401 {
            "UNAUTHORIZED"
        } else if status == 403 {
            "FORBIDDEN"
        } else if status == 400 {
            "BAD_REQUEST"
        } else {
            "UPSTREAM_ERROR"
        };
        let mut message = String::from_str("Upstream service returned ");
        let number = decimal_string(status as u64);
        message.append(number.as_str());
        message.append(" ");
        match reason_phrase(status) {
            Some(reason) => message.append(reason),
            None => message.append("<unknown status code>"),
        }
        assert(message@ =~= "Upstream service returned "@ + status_display(status));
        Self::new(status, code, message)
    }

    /// 403 `FORBIDDEN` with the given message.
    pub fn forbidden(message: &str) -> (r: Self)
        ensures
            r@ == forbidden_error(message@),
            r.details is None,
    {
        Self::new(403, "FORBIDDEN", String::from_str(message))
    }

    /// 401 `UNAUTHORIZED` with the given message.
    pub fn unauthorized(message: &str) -> (r: Self)
        ensures
            r@ == unauthorized_error(message@),
            r.details is None,
    {
        Self::new(401, "UNAUTHORIZED", String::from_str(message))
    }

    /// The body the gateway answers this error with, for a request id and a
    /// timestamp chosen by the caller: never a success, with the error's code
    /// and message and no details.
    pub fn error_response(self, request_id: String, timestamp: String) -> (r: ErrorResponse)
        ensures
            !r.success,
            r.error.code@ == self.code@,
            r.error.message@ == self.message@,
            r.error.details is None,
            r.meta.request_id@ == request_id@,
            r.meta.timestamp@ == timestamp@,
    {
        ErrorResponse {
            success: false,
            error: ErrorBody { code: self.code, message: self.message, details: None },
            meta: Meta { request_id, timestamp },
        }
    }
}

/// The `error` part of an error answer.
#[derive(Debug)]
pub struct ErrorBody {
    pub code: String,
    pub message: String,
    pub details: Option<serde_json::Value>,
}

/// The `meta` part of an error answer.
#[derive(Debug)]
pub struct Meta {
    pub request_id: String,
    pub timestamp: String,
}

/// The whole JSON body of an error answer.
#[derive(Debug)]
pub struct ErrorResponse {
    pub success: bool,
    pub error: ErrorBody,
    pub meta: Meta,
}

} // verus!
