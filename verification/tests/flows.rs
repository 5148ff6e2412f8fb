use altair_gateway::middleware::rbac::rbac_allowed;
use altair_gateway::security::roles::Role;
use altair_gateway::services::proxy::{
    ProxyAction, ProxyEvent, ProxyFlow, ProxyPhase, ResourceInfo, ServiceRegistry,
};
use altair_gateway::services::retry::{AttemptOutcome, RetryPolicy};
use altair_gateway::services::users_client::{LookupAction, LookupEvent, UserLookup};

const UUID: &str = "67e55044-10b1-426f-9247-bb680e5fe0c8";

fn registry() -> ServiceRegistry {
    ServiceRegistry::from_settings(None, None, None, None, None)
}

fn answered(status: u16) -> ProxyEvent {
    ProxyEvent::Outcome(AttemptOutcome::Answered { status })
}

fn body(visibility: Option<&str>, creator: Option<&str>) -> ProxyEvent {
    ProxyEvent::ResourceBody(Some(ResourceInfo {
        visibility: visibility.map(String::from),
        creator_id: creator.map(String::from),
    }))
}

#[test]
fn unknown_service_is_not_found() {
    let r = ProxyFlow::start(&registry(), "GET", "nope", "x", None, None, RetryPolicy::new(3, 100));
    assert!(matches!(r, Err(404)));
}

#[test]
fn plain_requests_are_forwarded_after_retries() {
    let reg = registry();
    let (mut flow, url) =
        ProxyFlow::start(&reg, "POST", "users", "me", Some("a=1"), None, RetryPolicy::new(2, 100)).unwrap();
    assert_eq!(url, "http://localhost:3001/me?a=1");
    assert!(matches!(flow.step(&reg, answered(503)), ProxyAction::RetryAfter { delay_ms: 100, attempt: 2 }));
    assert!(matches!(flow.phase, ProxyPhase::Attempting { attempt: 2 }));
    assert!(matches!(flow.step(&reg, answered(503)), ProxyAction::ForwardAnswer));
    assert!(matches!(flow.phase, ProxyPhase::Done));
}

#[test]
fn transport_failures_end_in_bad_gateway() {
    let reg = registry();
    let (mut flow, _) = ProxyFlow::start(&reg, "GET", "users", "me", None, None, RetryPolicy::new(1, 100)).unwrap();
    let ev = ProxyEvent::Outcome(AttemptOutcome::Failed { retryable: true, timeout: true });
    assert!(flow.accepts(&ev));
    assert!(matches!(flow.step(&reg, ev), ProxyAction::Reject { status: 502 }));
}

#[test]
fn public_resource_is_delivered() {
    let reg = registry();
    let (mut flow, _) =
        ProxyFlow::start(&reg, "GET", "labs", UUID, None, Some("u1".into()), RetryPolicy::new(3, 100)).unwrap();
    assert!(matches!(flow.step(&reg, answered(200)), ProxyAction::ReadResourceBody));
    assert!(!flow.accepts(&answered(200)));
    assert!(matches!(flow.step(&reg, body(None, None)), ProxyAction::DeliverResource { status: 200 }));
}

#[test]
fn private_resource_needs_creator_or_group_approval() {
    let reg = registry();
    let start = |user: Option<&str>| {
        ProxyFlow::start(&reg, "GET", "labs", UUID, None, user.map(String::from), RetryPolicy::new(3, 100)).unwrap().0
    };

    let mut flow = start(Some("u1"));
    flow.step(&reg, answered(200));
    assert!(matches!(flow.step(&reg, body(Some("PRIVATE"), Some("u1"))), ProxyAction::DeliverResource { status: 200 }));

    let mut flow = start(Some("u1"));
    flow.step(&reg, answered(200));
    match flow.step(&reg, body(Some("PRIVATE"), Some("u2"))) {
        ProxyAction::AskGroups { url } => assert_eq!(url, format!("http://localhost:3006/internal/access/lab?user_id=u1&lab_id={UUID}")),
        _ => panic!("expected a group check"),
    }
    assert!(matches!(flow.step(&reg, ProxyEvent::GroupReply(Some(Some(false)))), ProxyAction::Reject { status: 403 }));

    let mut flow = start(Some("u1"));
    flow.step(&reg, answered(200));
    flow.step(&reg, body(Some("PRIVATE"), None));
    assert!(matches!(flow.step(&reg, ProxyEvent::GroupReply(Some(Some(true)))), ProxyAction::DeliverResource { status: 200 }));

    let mut flow = start(Some("u1"));
    flow.step(&reg, answered(200));
    flow.step(&reg, body(Some("PRIVATE"), None));
    assert!(matches!(flow.step(&reg, ProxyEvent::GroupReply(None)), ProxyAction::Reject { status: 502 }));

    let mut flow = start(None);
    flow.step(&reg, answered(200));
    assert!(matches!(flow.step(&reg, body(None, None)), ProxyAction::Reject { status: 401 }));

    let mut flow = start(Some("u1"));
    flow.step(&reg, answered(404));
    assert!(matches!(flow.step(&reg, ProxyEvent::ResourceBody(None)), ProxyAction::Reject { status: 502 }));
}

#[test]
fn user_lookup_flow() {
    let mut lookup = UserLookup::start(RetryPolicy::new(2, 10));
    let ev = LookupEvent::Outcome(AttemptOutcome::Answered { status: 503 });
    assert!(matches!(lookup.step(ev), LookupAction::RetryAfter { delay_ms: 10, attempt: 2 }));
    assert!(matches!(lookup.step(LookupEvent::Outcome(AttemptOutcome::Answered { status: 200 })), LookupAction::ReadBody));
    assert!(!lookup.accepts(&LookupEvent::Outcome(AttemptOutcome::Answered { status: 200 })));
    match lookup.step(LookupEvent::Body(Some(UUID.into()))) {
        LookupAction::Resolved { user_id } => assert_eq!(user_id, 0x67e55044_10b1_426f_9247_bb680e5fe0c8),
        _ => panic!("expected the user id"),
    }

    let mut lookup = UserLookup::start(RetryPolicy::new(1, 10));
    match lookup.step(LookupEvent::Outcome(AttemptOutcome::Failed { retryable: true, timeout: true })) {
        LookupAction::Failed { error } => assert_eq!(error.message, "users service timeout"),
        _ => panic!("expected a failure"),
    }

    let mut lookup = UserLookup::start(RetryPolicy::new(1, 10));
    lookup.step(LookupEvent::Outcome(AttemptOutcome::Answered { status: 200 }));
    match lookup.step(LookupEvent::Body(None)) {
        LookupAction::Failed { error } => assert_eq!(error.code, "UPSTREAM_INVALID_RESPONSE"),
        _ => panic!("expected a failure"),
    }
}

#[test]
fn more_roles_never_take_access_away() {
    let paths = ["/labs/1", "/users/me", "/sessions/sessions/1", "/lab-builder/x", "/groups"];
    let methods = ["GET", "POST", "PUT", "DELETE", "PATCH"];
    let role_sets = [vec![], vec![Role::Learner], vec![Role::Creator], vec![Role::Learner, Role::Creator]];
    for p in paths {
        for m in methods {
            for r in &role_sets {
                if rbac_allowed(m, p, r) {
                    let mut more = r.clone();
                    more.push(Role::Creator);
                    assert!(rbac_allowed(m, p, &more), "{m} {p}");
                    more.push(Role::Admin);
                    assert!(rbac_allowed(m, p, &more), "{m} {p}");
                }
            }
        }
    }
}

#[test]
fn role_names_round_trip() {
    for r in [Role::Admin, Role::Creator, Role::Learner] {
        assert_eq!(Role::from_str(r.as_str()), Some(r));
    }
}
