use altair_gateway::error::ApiError;
use altair_gateway::middleware::auth::{AuthAction, AuthEvent, AuthFlow, AuthPhase};
use altair_gateway::middleware::jwt::{Claims, RealmAccess, TokenAlgorithm};
use altair_gateway::security::jwks_cache::Jwk;
use altair_gateway::security::roles::Role;
use altair_gateway::state::CachedUserId;

const TOKEN: &str = "eyJhbGciOiJSUzI1NiIsInR5cCI6IkpXVCIsImtpZCI6ImtleS0xIn0.e30.sig";
const BEARER: &str = "Bearer eyJhbGciOiJSUzI1NiIsInR5cCI6IkpXVCIsImtpZCI6ImtleS0xIn0.e30.sig";

fn learner_claims(name: &str) -> Claims {
    Claims {
        sub: "kc-123".to_string(),
        exp: 0,
        iss: "http://kc/realms/altair".to_string(),
        aud: serde_json::Value::Null,
        realm_access: Some(RealmAccess { roles: vec!["learner".to_string()] }),
        resource_access: None,
        email: Some("ada@example.org".to_string()),
        name: Some(name.to_string()),
        preferred_username: None,
    }
}

fn good_key() -> Jwk {
    Jwk { kid: "key-1".into(), kty: "RSA".into(), n: "AQAB".into(), e: "AQAB".into() }
}

fn rejected_with(action: AuthAction) -> String {
    match action {
        AuthAction::Reject(e) => e.message,
        _ => panic!("expected a refusal"),
    }
}

/// Runs the flow up to the cache lookup of a verified learner.
fn verified(name: &str) -> AuthFlow {
    let (mut flow, action) = AuthFlow::start(
        "/labs/1",
        Some(BEARER),
        Some("http://kc/realms/altair".to_string()),
        None,
    );
    match action {
        AuthAction::FindKey { jwks_url, kid } => {
            assert_eq!(jwks_url, "http://kc/realms/altair/protocol/openid-connect/certs");
            assert_eq!(kid, "key-1");
        }
        _ => panic!("expected a key lookup"),
    }
    let event = AuthEvent::KeyFound(Ok(good_key()));
    assert!(flow.accepts(&event));
    match flow.step(event) {
        AuthAction::Verify { token, validation, .. } => {
            assert_eq!(token, TOKEN);
            assert_eq!(validation.algorithm, TokenAlgorithm::Rs256);
            assert_eq!(validation.issuer, "http://kc/realms/altair");
            assert!(validation.validate_exp && !validation.validate_aud);
        }
        _ => panic!("expected a verification"),
    }
    match flow.step(AuthEvent::Verified(Some(learner_claims(name)))) {
        AuthAction::LookUpCache { keycloak_id } => assert_eq!(keycloak_id, "kc-123"),
        _ => panic!("expected a cache lookup"),
    }
    flow
}

#[test]
fn health_is_forwarded_without_a_token() {
    let (flow, action) = AuthFlow::start("/health", None, None, None);
    assert!(matches!(action, AuthAction::Forward));
    assert!(matches!(flow.phase, AuthPhase::Done));
}

#[test]
fn missing_or_malformed_credentials_are_refused() {
    let (_, action) = AuthFlow::start("/labs", None, None, None);
    assert_eq!(rejected_with(action), "Missing Authorization header");
    let (_, action) = AuthFlow::start("/labs", Some("Basic abc"), None, None);
    assert_eq!(rejected_with(action), "Invalid Authorization header");
    let (_, action) = AuthFlow::start("/labs", Some("Bearer not-a-token"), None, None);
    assert_eq!(rejected_with(action), "Invalid JWT header");
    let (flow, action) =
        AuthFlow::start("/labs", Some("Bearer eyJhbGciOiJSUzI1NiIsInR5cCI6IkpXVCJ9.e30.sig"), None, None);
    assert_eq!(rejected_with(action), "Missing kid in JWT");
    assert!(matches!(flow.phase, AuthPhase::Done));
}

#[test]
fn configured_key_set_address_wins() {
    let (_, action) = AuthFlow::start("/labs", Some(BEARER), None, Some("http://keys".to_string()));
    match action {
        AuthAction::FindKey { jwks_url, .. } => assert_eq!(jwks_url, "http://keys"),
        _ => panic!("expected a key lookup"),
    }
}

#[test]
fn key_and_signature_failures_are_refused() {
    let (mut flow, _) = AuthFlow::start("/labs", Some(BEARER), None, None);
    let e = flow.step(AuthEvent::KeyFound(Err(ApiError::unauthorized("Unknown signing key (kid)"))));
    assert_eq!(rejected_with(e), "Unknown signing key (kid)");

    let (mut flow, _) = AuthFlow::start("/labs", Some(BEARER), None, None);
    let bad = Jwk { kid: "key-1".into(), kty: "RSA".into(), n: "@@@".into(), e: "AQAB".into() };
    assert_eq!(rejected_with(flow.step(AuthEvent::KeyFound(Ok(bad)))), "Invalid JWKS key");

    let (mut flow, _) = AuthFlow::start("/labs", Some(BEARER), None, None);
    flow.step(AuthEvent::KeyFound(Ok(good_key())));
    assert_eq!(rejected_with(flow.step(AuthEvent::Verified(None))), "Invalid JWT");
    assert!(!flow.accepts(&AuthEvent::Remembered));
}

#[test]
fn cached_user_id_is_forwarded_without_resolving() {
    let mut flow = verified("Ada");
    match flow.step(AuthEvent::Cached(Some(CachedUserId::new(0x67e55044_10b1_426f_9247_bb680e5fe0c8, 300, 0)))) {
        AuthAction::ForwardAs { roles, headers } => {
            assert_eq!(roles, vec![Role::Learner]);
            let got: Vec<(&str, &str)> = headers.iter().map(|(a, b)| (a.as_str(), b.as_str())).collect();
            assert_eq!(got, vec![
                ("x-altair-user-id", "67e55044-10b1-426f-9247-bb680e5fe0c8"),
                ("x-altair-keycloak-id", "kc-123"),
                ("x-altair-name", "Ada"),
                ("x-altair-email", "ada@example.org"),
                ("x-altair-roles", "learner"),
            ]);
        }
        _ => panic!("expected forwarding"),
    }
    assert!(matches!(flow.phase, AuthPhase::Done));
}

#[test]
fn missing_user_id_is_resolved_then_remembered() {
    let mut flow = verified("Ada");
    match flow.step(AuthEvent::Cached(None)) {
        AuthAction::Resolve { identity } => {
            assert_eq!(identity.keycloak_id, "kc-123");
            assert_eq!(identity.pseudo, "Ada");
        }
        _ => panic!("expected resolution"),
    }
    match flow.step(AuthEvent::Resolved(Ok(7))) {
        AuthAction::Remember { keycloak_id, user_id } => {
            assert_eq!(keycloak_id, "kc-123");
            assert_eq!(user_id, 7);
        }
        _ => panic!("expected the id to be cached"),
    }
    match flow.step(AuthEvent::Remembered) {
        AuthAction::ForwardAs { headers, .. } => {
            assert_eq!(headers[0].1, "00000000-0000-0000-0000-000000000007");
        }
        _ => panic!("expected forwarding"),
    }
}

#[test]
fn resolution_failure_and_bad_header_values_are_refused() {
    let mut flow = verified("Ada");
    flow.step(AuthEvent::Cached(None));
    let action = flow.step(AuthEvent::Resolved(Err(ApiError::upstream_unavailable("users"))));
    assert_eq!(rejected_with(action), "users service unreachable");

    let mut flow = verified("bad\nname");
    let action = flow.step(AuthEvent::Cached(Some(CachedUserId::new(1, 300, 0))));
    assert_eq!(rejected_with(action), "Invalid name");
}
