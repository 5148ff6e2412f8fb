use altair_gateway::error::ApiError;
use altair_gateway::security::jwks_cache::{
    find_rsa_key, jwk_after_forced_refresh, jwks_fetch_result, parse_max_age_seconds, Jwk, Jwks,
    JwksCache, JwksCacheConfig, KidAction, KidEvent, KidLookup,
};

fn key(kid: &str, kty: &str) -> Jwk {
    Jwk { kid: kid.to_string(), kty: kty.to_string(), n: "n-value".to_string(), e: "AQAB".to_string() }
}

fn key_set(kids: &[&str]) -> Jwks {
    Jwks { keys: kids.iter().map(|k| key(k, "RSA")).collect() }
}

fn kids(jwks: &Jwks) -> Vec<String> {
    jwks.keys.iter().map(|k| k.kid.clone()).collect()
}

#[test]
fn parse_max_age_from_cache_control() {
    assert_eq!(parse_max_age_seconds("public, max-age=600"), Some(600));
    assert_eq!(
        parse_max_age_seconds("max-age=90, must-revalidate"),
        Some(90)
    );
    assert_eq!(parse_max_age_seconds("no-cache"), None);
}

#[test]
fn max_age_first_directive_wins_even_when_invalid() {
    assert_eq!(parse_max_age_seconds("max-age=abc, max-age=5"), None);
    assert_eq!(parse_max_age_seconds("  max-age=+7  "), Some(7));
    assert_eq!(parse_max_age_seconds("max-age="), None);
    assert_eq!(parse_max_age_seconds("max-age=18446744073709551616"), None);
    assert_eq!(parse_max_age_seconds("s-maxage=10,max-age=20"), Some(20));
    assert_eq!(parse_max_age_seconds(""), None);
}

#[test]
fn clamp_ttl_keeps_within_bounds() {
    let config = JwksCacheConfig::new(300, 120, 30, 3600);
    assert_eq!(config.clamp_ttl(5), 30);
    assert_eq!(config.clamp_ttl(600), 600);
    assert_eq!(config.clamp_ttl(100_000), 3600);
}

#[test]
fn config_defaults_and_settings() {
    let c = JwksCacheConfig::from_settings(None, None, None, None);
    assert_eq!(c, JwksCacheConfig::new(300, 120, 30, 3600));
    let c = JwksCacheConfig::from_settings(Some("60"), Some("x"), Some("0"), Some("+10"));
    assert_eq!(c, JwksCacheConfig::new(60, 120, 0, 10));
}

#[test]
fn find_rsa_key_needs_matching_kid_and_type() {
    let jwks = Jwks { keys: vec![key("a", "EC"), key("a", "RSA"), key("b", "RSA")] };
    let found = find_rsa_key(&jwks, "a").unwrap();
    assert_eq!(found.kid, "a");
    assert_eq!(found.kty, "RSA");
    assert!(find_rsa_key(&jwks, "c").is_none());
    assert!(find_rsa_key(&Jwks { keys: vec![key("a", "EC")] }, "a").is_none());
}

#[test]
fn refreshed_keys_are_served_until_expiry() {
    let mut cache = JwksCache::new(JwksCacheConfig::new(300, 120, 30, 3600));
    assert!(cache.fresh_jwks(0).is_none());
    let got = cache.complete_refresh(1_000, Ok((key_set(&["k1"]), Some(60)))).unwrap();
    assert_eq!(kids(&got), vec!["k1"]);
    let cached = cache.cached.as_ref().unwrap();
    assert_eq!(cached.expires_at, 61_000);
    assert_eq!(cached.stale_until, 181_000);
    assert_eq!(kids(&cache.fresh_jwks(60_999).unwrap()), vec!["k1"]);
    assert!(cache.fresh_jwks(61_000).is_none());
}

#[test]
fn default_ttl_is_used_without_max_age_and_clamped() {
    let mut cache = JwksCache::new(JwksCacheConfig::new(5, 0, 30, 3600));
    cache.complete_refresh(0, Ok((key_set(&["k1"]), None))).unwrap();
    assert_eq!(cache.cached.as_ref().unwrap().expires_at, 30_000);
    cache.complete_refresh(0, Ok((key_set(&["k2"]), Some(999_999)))).unwrap();
    assert_eq!(cache.cached.as_ref().unwrap().expires_at, 3_600_000);
}

#[test]
fn failed_refresh_falls_back_to_stale_keys_within_window() {
    let mut cache = JwksCache::new(JwksCacheConfig::new(300, 120, 30, 3600));
    cache.complete_refresh(0, Ok((key_set(&["k1"]), Some(100)))).unwrap();
    let stale = cache
        .complete_refresh(150_000, Err(ApiError::upstream_unavailable("keycloak")))
        .unwrap();
    assert_eq!(kids(&stale), vec!["k1"]);
    assert_eq!(cache.cached.as_ref().unwrap().expires_at, 100_000);
    let err = cache
        .complete_refresh(220_000, Err(ApiError::upstream_unavailable("keycloak")))
        .err()
        .unwrap();
    assert_eq!(err.status, 502);
    assert_eq!(err.code, "UPSTREAM_UNAVAILABLE");
    assert_eq!(err.message, "keycloak service unreachable");
}

#[test]
fn failed_refresh_without_cache_is_an_error() {
    let mut cache = JwksCache::new(JwksCacheConfig::new(300, 120, 30, 3600));
    let err = cache
        .complete_refresh(0, Err(ApiError::upstream_invalid_response("keycloak")))
        .err()
        .unwrap();
    assert_eq!(err.code, "UPSTREAM_INVALID_RESPONSE");
    assert!(cache.cached.is_none());
}

#[test]
fn fetch_result_classifies_answers() {
    let e = jwks_fetch_result(None, None, None).err().unwrap();
    assert_eq!((e.status, e.code.as_str()), (502, "UPSTREAM_UNAVAILABLE"));
    let e = jwks_fetch_result(Some(500), None, Some(key_set(&["k"]))).err().unwrap();
    assert_eq!(e.message, "keycloak returned invalid response");
    let e = jwks_fetch_result(Some(200), None, None).err().unwrap();
    assert_eq!(e.code, "UPSTREAM_INVALID_RESPONSE");
    let (j, max_age) =
        jwks_fetch_result(Some(200), Some("public, max-age=600"), Some(key_set(&["k"]))).unwrap();
    assert_eq!(kids(&j), vec!["k"]);
    assert_eq!(max_age, Some(600));
    let (_, max_age) = jwks_fetch_result(Some(204), Some("no-store"), Some(key_set(&[]))).unwrap();
    assert_eq!(max_age, None);
}

#[test]
fn unknown_kid_after_forced_refresh_is_unauthorized() {
    let e = jwk_after_forced_refresh(&key_set(&["a"]), "b").err().unwrap();
    assert_eq!(e.status, 401);
    assert_eq!(e.message, "Unknown signing key (kid)");
    assert_eq!(jwk_after_forced_refresh(&key_set(&["a"]), "a").unwrap().kid, "a");
}

#[test]
fn fresh_keys_are_also_the_fallback() {
    let mut cache = JwksCache::new(JwksCacheConfig::new(300, 0, 30, 3600));
    cache.complete_refresh(0, Ok((key_set(&["k1"]), Some(30)))).unwrap();
    assert_eq!(kids(&cache.fresh_jwks(29_999).unwrap()), vec!["k1"]);
    let fallback = cache
        .complete_refresh(29_999, Err(ApiError::upstream_unavailable("keycloak")))
        .unwrap();
    assert_eq!(kids(&fallback), vec!["k1"]);
    assert!(cache
        .complete_refresh(30_000, Err(ApiError::upstream_unavailable("keycloak")))
        .is_err());
}

#[test]
fn kid_search_forces_one_refresh_for_unknown_keys() {
    let mut search = KidLookup::start("b");
    assert!(matches!(search.step(KidEvent::Cached(Some(key_set(&["a"])))), KidAction::Refresh { force: true }));
    match search.step(KidEvent::Refreshed(Ok(key_set(&["a"])))) {
        KidAction::Failed(e) => assert_eq!(e.message, "Unknown signing key (kid)"),
        _ => panic!("expected a failure"),
    }

    let mut search = KidLookup::start("b");
    assert!(matches!(search.step(KidEvent::Cached(None)), KidAction::Refresh { force: false }));
    assert!(matches!(search.step(KidEvent::Refreshed(Ok(key_set(&["a"])))), KidAction::Refresh { force: true }));
    match search.step(KidEvent::Refreshed(Ok(key_set(&["a", "b"])))) {
        KidAction::Found(k) => assert_eq!(k.kid, "b"),
        _ => panic!("expected the key"),
    }

    let mut search = KidLookup::start("a");
    match search.step(KidEvent::Cached(Some(key_set(&["a"])))) {
        KidAction::Found(k) => assert_eq!(k.kid, "a"),
        _ => panic!("expected the key"),
    }

    let mut search = KidLookup::start("a");
    search.step(KidEvent::Cached(None));
    match search.step(KidEvent::Refreshed(Err(ApiError::upstream_unavailable("keycloak")))) {
        KidAction::Failed(e) => assert_eq!(e.code, "UPSTREAM_UNAVAILABLE"),
        _ => panic!("expected a failure"),
    }
}

#[test]
fn refresh_lifetimes_and_clock_range() {
    let cache = JwksCache::new(JwksCacheConfig::new(300, 120, 30, 3600));
    assert_eq!(cache.refreshed_ttl_seconds(None), 300);
    assert_eq!(cache.refreshed_ttl_seconds(Some(1)), 30);
    assert!(cache.refresh_fits_at(0, Some(60)));
    assert!(!cache.refresh_fits_at(u64::MAX - 1000, Some(60)));
    let huge = JwksCache::new(JwksCacheConfig::new(300, u64::MAX, 30, 3600));
    assert!(!huge.refresh_fits_at(0, None));
}

#[test]
fn refresh_shortcut_skips_fetch_only_when_fresh_and_unforced() {
    let mut cache = JwksCache::new(JwksCacheConfig::new(300, 120, 30, 3600));
    assert!(cache.refresh_shortcut(0, false).is_none());
    cache.complete_refresh(0, Ok((key_set(&["k1"]), Some(60)))).unwrap();
    assert_eq!(kids(&cache.refresh_shortcut(59_999, false).unwrap()), vec!["k1"]);
    assert!(cache.refresh_shortcut(59_999, true).is_none());
    assert!(cache.refresh_shortcut(60_000, false).is_none());
}
