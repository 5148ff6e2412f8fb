use altair_gateway::middleware::jwt::{
    bearer_token, decoding_key, extract_roles, identity_from_claims, is_identity_header,
    identity_headers, is_public_path, token_endpoints, token_kid, token_validation, Claims,
    RealmAccess, ResourceAccess, TokenAlgorithm,
};
use altair_gateway::middleware::rbac::{learner_can_access_session_route, rbac_allowed, rbac_check};
use altair_gateway::security::jwks_cache::Jwk;
use altair_gateway::security::roles::{roles_csv, Role};

fn strings(v: &[&str]) -> Vec<String> {
    v.iter().map(|s| s.to_string()).collect()
}

fn claims(realm: Option<&[&str]>, clients: Option<Vec<(&str, &[&str])>>) -> Claims {
    Claims {
        sub: "kc-123".to_string(),
        exp: 0,
        iss: "issuer".to_string(),
        aud: serde_json::Value::Null,
        realm_access: realm.map(|r| RealmAccess { roles: strings(r) }),
        resource_access: clients.map(|cs| {
            cs.into_iter()
                .map(|(c, r)| (c.to_string(), ResourceAccess { roles: strings(r) }))
                .collect()
        }),
        email: None,
        name: None,
        preferred_username: None,
    }
}

#[test]
fn role_names_are_exact() {
    assert_eq!(Role::from_str("learner"), Some(Role::Learner));
    assert_eq!(Role::from_str("creator"), Some(Role::Creator));
    assert_eq!(Role::from_str("admin"), Some(Role::Admin));
    assert_eq!(Role::from_str("Admin"), None);
    assert_eq!(Role::from_str(""), None);
    assert_eq!(Role::Creator.as_str(), "creator");
}

#[test]
fn roles_csv_joins_in_order() {
    assert_eq!(roles_csv(&vec![]), "");
    assert_eq!(roles_csv(&vec![Role::Learner, Role::Creator]), "learner,creator");
}

#[test]
fn roles_come_from_realm_and_frontend_client_once_each() {
    let c = claims(
        Some(&["learner", "offline_access", "learner"]),
        Some(vec![("account", &["admin"][..]), ("frontend", &["creator", "learner"][..])]),
    );
    assert_eq!(extract_roles(&c), vec![Role::Learner, Role::Creator]);
    assert_eq!(extract_roles(&claims(None, None)), vec![]);
    assert_eq!(extract_roles(&claims(None, Some(vec![("frontend", &["admin"][..])]))), vec![Role::Admin]);
}

#[test]
fn identity_defaults() {
    let mut c = claims(Some(&["learner"]), None);
    let id = identity_from_claims(&c);
    assert_eq!(id.keycloak_id, "kc-123");
    assert_eq!(id.name, "unknown");
    assert_eq!(id.email, "unknown@altair.local");
    assert_eq!(id.pseudo, "unknown");
    assert_eq!(roles_csv(&id.roles), "learner");
    c.preferred_username = Some("ada".to_string());
    c.email = Some("ada@example.org".to_string());
    let id = identity_from_claims(&c);
    assert_eq!((id.name.as_str(), id.pseudo.as_str(), id.email.as_str()), ("ada", "ada", "ada@example.org"));
    c.name = Some("Ada Lovelace".to_string());
    let id = identity_from_claims(&c);
    assert_eq!((id.name.as_str(), id.pseudo.as_str()), ("Ada Lovelace", "ada"));
}

#[test]
fn bearer_token_errors() {
    assert_eq!(bearer_token(None).err().unwrap().message, "Missing Authorization header");
    assert_eq!(bearer_token(Some("Basic abc")).err().unwrap().message, "Invalid Authorization header");
    assert_eq!(bearer_token(Some("Bearer abc.def.ghi")).unwrap(), "abc.def.ghi");
}

#[test]
fn token_kid_reads_the_header() {
    let with_kid = "eyJhbGciOiJSUzI1NiIsInR5cCI6IkpXVCIsImtpZCI6ImtleS0xIn0.e30.sig";
    assert_eq!(token_kid(with_kid).unwrap(), "key-1");
    let without_kid = "eyJhbGciOiJSUzI1NiIsInR5cCI6IkpXVCJ9.e30.sig";
    let e = token_kid(without_kid).err().unwrap();
    assert_eq!((e.status, e.message.as_str()), (401, "Missing kid in JWT"));
    assert_eq!(token_kid("not-a-token").err().unwrap().message, "Invalid JWT header");
}

#[test]
fn decoding_key_needs_base64_components() {
    let good = Jwk { kid: "k".into(), kty: "RSA".into(), n: "AQAB".into(), e: "AQAB".into() };
    assert!(decoding_key(&good).is_ok());
    let bad = Jwk { kid: "k".into(), kty: "RSA".into(), n: "@@@".into(), e: "AQAB".into() };
    assert_eq!(decoding_key(&bad).err().unwrap().message, "Invalid JWKS key");
}

#[test]
fn endpoints_default_to_local_realm() {
    let (iss, url) = token_endpoints(None, None);
    assert_eq!(iss, "http://localhost:8080/realms/altair");
    assert_eq!(url, "http://localhost:8080/realms/altair/protocol/openid-connect/certs");
    let (iss, url) = token_endpoints(Some("https://auth/realms/x".into()), None);
    assert_eq!(iss, "https://auth/realms/x");
    assert_eq!(url, "https://auth/realms/x/protocol/openid-connect/certs");
    let (_, url) = token_endpoints(None, Some("https://keys".into()));
    assert_eq!(url, "https://keys");
}

#[test]
fn identity_headers_are_injected_in_order() {
    let mut c = claims(Some(&["learner", "creator"]), None);
    c.name = Some("Ada".into());
    let id = identity_from_claims(&c);
    let hs = identity_headers(0x67e55044_10b1_426f_9247_bb680e5fe0c8, &id).unwrap();
    let expected = vec![
        ("x-altair-user-id", "67e55044-10b1-426f-9247-bb680e5fe0c8"),
        ("x-altair-keycloak-id", "kc-123"),
        ("x-altair-name", "Ada"),
        ("x-altair-email", "unknown@altair.local"),
        ("x-altair-roles", "learner,creator"),
    ];
    let got: Vec<(&str, &str)> = hs.iter().map(|(a, b)| (a.as_str(), b.as_str())).collect();
    assert_eq!(got, expected);
    for (n, _) in &expected {
        assert!(is_identity_header(n));
    }
    c.name = Some("bad\nname".into());
    let id = identity_from_claims(&c);
    assert_eq!(identity_headers(1, &id).err().unwrap().message, "Invalid name");
}

#[test]
fn health_is_the_only_public_path() {
    assert!(is_public_path("/health"));
    assert!(!is_public_path("/users/health"));
}

#[test]
fn readme_rbac_examples() {
    let learner = vec![Role::Learner];
    let creator = vec![Role::Creator];
    let admin = vec![Role::Admin];
    assert!(rbac_allowed("GET", "/labs/123", &learner));
    assert!(!rbac_allowed("POST", "/labs", &learner));
    assert_eq!(rbac_check("POST", "/labs", &learner).err().unwrap().message, "You do not have permission to access this resource");
    assert_eq!(rbac_check("POST", "/labs", &learner).err().unwrap().status, 403);
    assert!(rbac_allowed("POST", "/labs", &creator));
    assert!(rbac_allowed("PATCH", "/anything/at/all", &admin));
    assert!(rbac_allowed("GET", "/health", &vec![]));
    assert!(!rbac_allowed("GET", "/users/health", &vec![]));
    assert!(!rbac_allowed("GET", "/labs", &vec![]));
}

#[test]
fn rbac_service_rules() {
    let learner = vec![Role::Learner];
    let creator = vec![Role::Creator];
    assert!(rbac_allowed("GET", "/users/me", &learner));
    assert!(rbac_allowed("GET", "/starpaths/1", &learner));
    assert!(rbac_allowed("GET", "/groups", &learner));
    assert!(!rbac_allowed("GET", "/lab-builder/x", &learner));
    assert!(rbac_allowed("GET", "/lab-builder/x", &creator));
    assert!(rbac_allowed("DELETE", "/groups/1", &creator));
    assert!(!rbac_allowed("PATCH", "/labs/1", &creator));
    assert!(!rbac_allowed("GET", "/unknown", &creator));
    assert!(rbac_allowed("GET", "//labs", &learner));
}

#[test]
fn session_routes_for_learners() {
    assert!(learner_can_access_session_route("POST", "/sessions/labs/42/start"));
    assert!(learner_can_access_session_route("GET", "/sessions/sessions/7"));
    assert!(learner_can_access_session_route("GET", "/sessions/sessions/7/progress"));
    assert!(learner_can_access_session_route("POST", "/sessions/sessions/7/validate-step"));
    assert!(learner_can_access_session_route("POST", "/sessions/sessions/7/request-hint"));
    assert!(learner_can_access_session_route("POST", "/sessions/sessions/7/complete"));
    assert!(learner_can_access_session_route("DELETE", "/sessions/sessions/7"));
    assert!(!learner_can_access_session_route("GET", "/sessions/sessions"));
    assert!(!learner_can_access_session_route("PUT", "/sessions/sessions/7"));
    assert!(!learner_can_access_session_route("GET", "/sessions/labs/42/start"));
}

#[test]
fn sessions_follow_the_role_matrix() {
    let learner = vec![Role::Learner];
    let creator = vec![Role::Creator];
    assert!(rbac_allowed("GET", "/sessions/sessions/7", &learner));
    assert!(rbac_allowed("GET", "/sessions/", &learner));
    assert!(!rbac_allowed("POST", "/sessions/labs/42/start", &learner));
    assert!(!rbac_allowed("DELETE", "/sessions/sessions/7", &learner));
    assert!(rbac_allowed("PUT", "/sessions/sessions/7", &creator));
    assert!(rbac_allowed("POST", "/sessions/labs/42/start", &creator));
    assert!(!rbac_allowed("GET", "/sessions/sessions/7", &vec![]));
}

#[test]
fn every_x_altair_header_is_stripped() {
    assert!(is_identity_header("x-altair-pseudo"));
    assert!(is_identity_header("x-altair-user-id"));
    assert!(is_identity_header("X-Altair-Roles"));
    assert!(is_identity_header("x-altair-"));
    assert!(!is_identity_header("x-altair"));
    assert!(!is_identity_header("authorization"));
    assert!(!is_identity_header("x-other-altair-id"));
}

#[test]
fn token_checks() {
    let v = token_validation("http://kc/realms/altair".to_string());
    assert_eq!(v.algorithm, TokenAlgorithm::Rs256);
    assert!(v.validate_exp);
    assert_eq!(v.issuer, "http://kc/realms/altair");
    assert!(!v.validate_aud);
}
