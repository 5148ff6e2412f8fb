use altair_gateway::error::ApiError;
use altair_gateway::services::common::{transport_error, upstream_reply};
use altair_gateway::services::proxy::{
    access_resource_id, access_step, group_access_verdict, is_allowed_response_header,
    is_forwarded_request_header, upstream_url, AccessStep, ResourceInfo, ServiceRegistry,
};
use altair_gateway::services::retry::{
    backoff_delay, is_retryable_status, lookup_attempt_step, proxy_attempt_step, AttemptOutcome,
    LookupStep, ProxyStep, RetryPolicy,
};
use altair_gateway::services::users_client::{
    user_id_from_reply, user_lookup_headers, users_me_url, users_service_url,
};
use altair_gateway::middleware::jwt::Identity;

const UUID: &str = "67e55044-10b1-426f-9247-bb680e5fe0c8";

fn registry() -> ServiceRegistry {
    ServiceRegistry::from_settings(Some("https://users.example/".into()), None, None, None, None)
}

#[test]
fn registry_defaults_and_overrides() {
    let r = registry();
    assert_eq!(r.get("users").unwrap(), "https://users.example/");
    assert_eq!(r.get("labs").unwrap(), "http://localhost:3002");
    assert_eq!(r.get("sessions").unwrap(), "http://localhost:3003");
    assert_eq!(r.get("starpaths").unwrap(), "http://localhost:3005");
    assert_eq!(r.get("groups").unwrap(), "http://localhost:3006");
    assert!(r.get("lab-builder").is_none());
    let mut r = r;
    r.insert("labs".into(), "http://labs".into());
    assert_eq!(r.get("labs").unwrap(), "http://labs");
    assert!(ServiceRegistry::new().get("users").is_none());
}

#[test]
fn upstream_url_strips_the_service_prefix() {
    assert_eq!(upstream_url("http://users//", "me", None), "http://users/me");
    assert_eq!(upstream_url("http://labs", "labs/1", Some("page=2")), "http://labs/labs/1?page=2");
}

#[test]
fn header_policies() {
    for h in ["host", "content-length", "connection", "origin", "referer"] {
        assert!(!is_forwarded_request_header(h));
    }
    assert!(is_forwarded_request_header("authorization"));
    for h in ["content-type", "set-cookie", "location", "cache-control", "etag", "last-modified", "expires", "vary"] {
        assert!(is_allowed_response_header(h));
    }
    assert!(!is_allowed_response_header("server"));
    assert!(!is_allowed_response_header("x-powered-by"));
}

#[test]
fn backoff_doubles_and_caps() {
    assert_eq!(backoff_delay(100, 1), 100);
    assert_eq!(backoff_delay(100, 2), 200);
    assert_eq!(backoff_delay(100, 4), 800);
    assert_eq!(backoff_delay(100, 6), 2000);
    assert_eq!(backoff_delay(10, 10), 320);
    assert_eq!(backoff_delay(u64::MAX, 3), 2000);
    assert_eq!(backoff_delay(100, 0), 100);
    assert!(is_retryable_status(429) && is_retryable_status(502) && is_retryable_status(503) && is_retryable_status(504));
    assert!(!is_retryable_status(500));
}

#[test]
fn retry_policy_is_at_least_one() {
    assert_eq!(RetryPolicy::new(0, 0), RetryPolicy { max_attempts: 1, base_delay_ms: 1 });
    assert_eq!(RetryPolicy::new(3, 100), RetryPolicy { max_attempts: 3, base_delay_ms: 100 });
}

#[test]
fn proxy_steps() {
    let p = RetryPolicy::new(3, 100);
    assert_eq!(proxy_attempt_step(p, 1, AttemptOutcome::Answered { status: 503 }), ProxyStep::Retry { delay_ms: 100 });
    assert_eq!(proxy_attempt_step(p, 3, AttemptOutcome::Answered { status: 503 }), ProxyStep::Deliver);
    assert_eq!(proxy_attempt_step(p, 1, AttemptOutcome::Answered { status: 404 }), ProxyStep::Deliver);
    assert_eq!(proxy_attempt_step(p, 2, AttemptOutcome::Failed { retryable: true, timeout: true }), ProxyStep::Retry { delay_ms: 200 });
    assert_eq!(proxy_attempt_step(p, 1, AttemptOutcome::Failed { retryable: false, timeout: false }), ProxyStep::Fail { status: 502 });
    assert_eq!(proxy_attempt_step(p, 3, AttemptOutcome::Failed { retryable: true, timeout: false }), ProxyStep::Fail { status: 502 });
}

fn fail_of(s: LookupStep) -> ApiError {
    match s {
        LookupStep::Fail { error } => error,
        _ => panic!("expected a failure"),
    }
}

#[test]
fn lookup_steps() {
    let p = RetryPolicy::new(2, 50);
    assert!(matches!(lookup_attempt_step(p, 1, AttemptOutcome::Answered { status: 200 }), LookupStep::ReadBody));
    assert!(matches!(lookup_attempt_step(p, 1, AttemptOutcome::Answered { status: 502 }), LookupStep::Retry { delay_ms: 50 }));
    assert_eq!(fail_of(lookup_attempt_step(p, 2, AttemptOutcome::Answered { status: 502 })).message, "users returned invalid response");
    assert_eq!(fail_of(lookup_attempt_step(p, 1, AttemptOutcome::Answered { status: 404 })).code, "UPSTREAM_INVALID_RESPONSE");
    assert_eq!(fail_of(lookup_attempt_step(p, 2, AttemptOutcome::Failed { retryable: true, timeout: true })).status, 504);
    assert_eq!(fail_of(lookup_attempt_step(p, 1, AttemptOutcome::Failed { retryable: false, timeout: false })).message, "users service unreachable");
}

#[test]
fn resource_ids_for_access_check() {
    assert_eq!(access_resource_id("GET", "labs", UUID), Some(UUID.to_string()));
    assert_eq!(access_resource_id("GET", "starpaths", &format!("labs/{UUID}")), Some(UUID.to_string()));
    assert_eq!(access_resource_id("GET", "labs", "1"), None);
    assert_eq!(access_resource_id("POST", "labs", UUID), None);
    assert_eq!(access_resource_id("GET", "users", UUID), None);
    assert_eq!(access_resource_id("GET", "labs", &format!("{UUID}/steps/1")), None);
}

fn info(visibility: Option<&str>, creator: Option<&str>) -> ResourceInfo {
    ResourceInfo { visibility: visibility.map(String::from), creator_id: creator.map(String::from) }
}

#[test]
fn access_steps() {
    let r = registry();
    assert!(matches!(access_step(&r, "labs", UUID, &info(Some("PRIVATE"), None), None), Err(401)));
    assert!(matches!(access_step(&r, "labs", UUID, &info(Some("PRIVATE"), Some("u1")), Some("u1")), Ok(AccessStep::Deliver)));
    assert!(matches!(access_step(&r, "labs", UUID, &info(None, None), Some("u1")), Ok(AccessStep::Deliver)));
    assert!(matches!(access_step(&r, "labs", UUID, &info(Some("PUBLIC"), Some("u2")), Some("u1")), Ok(AccessStep::Deliver)));
    match access_step(&r, "labs", UUID, &info(Some("PRIVATE"), Some("u2")), Some("u1")) {
        Ok(AccessStep::AskGroups { url }) => assert_eq!(url, format!("http://localhost:3006/internal/access/lab?user_id=u1&lab_id={UUID}")),
        _ => panic!("expected a group check"),
    }
    match access_step(&r, "starpaths", "s1", &info(Some("PRIVATE"), None), Some("u1")) {
        Ok(AccessStep::AskGroups { url }) => assert_eq!(url, "http://localhost:3006/internal/access/starpath?user_id=u1&starpath_id=s1"),
        _ => panic!("expected a group check"),
    }
    assert!(matches!(access_step(&ServiceRegistry::new(), "labs", UUID, &info(Some("PRIVATE"), None), Some("u1")), Err(502)));
    assert_eq!(group_access_verdict(Some(true)), Ok(()));
    assert_eq!(group_access_verdict(Some(false)), Err(403));
    assert_eq!(group_access_verdict(None), Err(403));
}

#[test]
fn users_service_calls() {
    assert_eq!(users_me_url("http://users"), "http://users/me");
    assert_eq!(users_service_url(&registry()).unwrap(), "https://users.example/");
    assert_eq!(users_service_url(&ServiceRegistry::new()).err().unwrap().message, "users service unreachable");
    assert_eq!(user_id_from_reply(Some(UUID)).unwrap(), 0x67e55044_10b1_426f_9247_bb680e5fe0c8);
    assert_eq!(user_id_from_reply(Some("nope")).err().unwrap().code, "UPSTREAM_INVALID_RESPONSE");
    assert_eq!(user_id_from_reply(None).err().unwrap().message, "users returned invalid response");
    let id = Identity {
        keycloak_id: "kc".into(),
        roles: vec![],
        name: "N".into(),
        email: "e@x".into(),
        pseudo: "p".into(),
    };
    let hs = user_lookup_headers(&id);
    let got: Vec<(&str, &str)> = hs.iter().map(|(a, b)| (a.as_str(), b.as_str())).collect();
    assert_eq!(got, vec![
        ("x-altair-keycloak-id", "kc"),
        ("x-altair-email", "e@x"),
        ("x-altair-name", "N"),
        ("x-altair-pseudo", "p"),
        ("x-altair-roles", ""),
    ]);
}

#[test]
fn upstream_replies() {
    let body = serde_json::Value::from("ok");
    assert_eq!(upstream_reply(200, Some(body.clone())).unwrap(), body);
    assert_eq!(upstream_reply(201, None).err().unwrap().message, "upstream returned invalid response");
    let e = upstream_reply(404, Some(body)).err().unwrap();
    assert_eq!((e.status, e.code.as_str()), (404, "RESOURCE_NOT_FOUND"));
    assert_eq!(transport_error(true).status, 504);
    assert_eq!(transport_error(false).message, "upstream service unreachable");
}
