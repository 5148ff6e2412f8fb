use altair_gateway::error::ApiError;

#[test]
fn upstream_errors_name_the_service() {
    let e = ApiError::upstream_unavailable("users");
    assert_eq!((e.status, e.code.as_str(), e.message.as_str()), (502, "UPSTREAM_UNAVAILABLE", "users service unreachable"));
    assert!(e.details.is_none());
    let e = ApiError::upstream_timeout("labs");
    assert_eq!((e.status, e.code.as_str(), e.message.as_str()), (504, "UPSTREAM_TIMEOUT", "labs service timeout"));
    let e = ApiError::upstream_invalid_response("keycloak");
    assert_eq!((e.status, e.code.as_str(), e.message.as_str()), (502, "UPSTREAM_INVALID_RESPONSE", "keycloak returned invalid response"));
}

#[test]
fn upstream_status_codes_and_messages() {
    let e = ApiError::from_upstream_status(404);
    assert_eq!((e.status, e.code.as_str(), e.message.as_str()), (404, "RESOURCE_NOT_FOUND", "Upstream service returned 404 Not Found"));
    assert_eq!(ApiError::from_upstream_status(401).code, "UNAUTHORIZED");
    assert_eq!(ApiError::from_upstream_status(403).code, "FORBIDDEN");
    assert_eq!(ApiError::from_upstream_status(400).code, "BAD_REQUEST");
    let e = ApiError::from_upstream_status(500);
    assert_eq!((e.code.as_str(), e.message.as_str()), ("UPSTREAM_ERROR", "Upstream service returned 500 Internal Server Error"));
    let e = ApiError::from_upstream_status(599);
    assert_eq!(e.message, "Upstream service returned 599 <unknown status code>");
}

#[test]
fn client_errors_keep_their_message() {
    let e = ApiError::forbidden("nope");
    assert_eq!((e.status, e.code.as_str(), e.message.as_str()), (403, "FORBIDDEN", "nope"));
    let e = ApiError::unauthorized("who?");
    assert_eq!((e.status, e.code.as_str(), e.message.as_str()), (401, "UNAUTHORIZED", "who?"));
}

#[test]
fn error_response_body() {
    let body = ApiError::forbidden("no").error_response("req-1".to_string(), "2024-01-01T00:00:00Z".to_string());
    assert!(!body.success);
    assert_eq!(body.error.code, "FORBIDDEN");
    assert_eq!(body.error.message, "no");
    assert!(body.error.details.is_none());
    assert_eq!(body.meta.request_id, "req-1");
    assert_eq!(body.meta.timestamp, "2024-01-01T00:00:00Z");
}
