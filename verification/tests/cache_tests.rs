use oidc_gate::discovery::CachedDiscovery;
use oidc_gate::errors::AuthError;
use oidc_gate::keys::{parse_key_set, CachedKeys};

fn discovery_body() -> String {
    r#"{"issuer":"https://accounts.google.com","authorization_endpoint":"https://accounts.google.com/o/oauth2/v2/auth","token_endpoint":"https://oauth2.googleapis.com/token","userinfo_endpoint":"https://openidconnect.googleapis.com/v1/userinfo","revocation_endpoint":"https://oauth2.googleapis.com/revoke","jwks_uri":"https://example/certs","response_types_supported":["code","token"],"subject_types_supported":["public"],"id_token_signing_alg_values_supported":["RS256"],"token_endpoint_auth_methods_supported":["client_secret_basic"],"claims_supported":["iss","sub","aud","exp"],"code_challenge_methods_supported":["S256"]}"#.to_string()
}

fn keys_body() -> String {
    r#"{"keys":[{"kty":"RSA","alg":"RS256","use":"sig","kid":"abc123","n":"3Jt0...","e":"AQAB"}]}"#.to_string()
}

#[test]
fn discovery_response_caches_until_expiry() {
    let body = discovery_body();
    let cached = CachedDiscovery::from_response(body.as_bytes(), Some("max-age=3600"), 1000)
        .expect("well-formed discovery must cache");
    // Expiry is exactly 1000 + 3600.
    assert!(cached.discovery_opt(4599).is_some());
    assert!(cached.discovery_opt(4600).is_none());
    let doc = cached.discovery_opt(1000).unwrap();
    assert_eq!(doc.issuer, "https://accounts.google.com");
    assert_eq!(doc.jwks_uri, "https://example/certs");
    assert_eq!(doc.response_types_supported, vec!["code".to_string(), "token".to_string()]);
}

#[test]
fn discovery_response_without_header_is_already_expired() {
    let body = discovery_body();
    let cached = CachedDiscovery::from_response(body.as_bytes(), None, 1000).unwrap();
    assert!(cached.discovery_opt(1000).is_none());
    assert!(!cached.is_expired(999));
    assert!(cached.is_expired(1000));
}

#[test]
fn discovery_missing_field_is_decode_failure() {
    let body = "{\"issuer\":\"https://accounts.google.com\"}";
    let err = CachedDiscovery::from_response(body.as_bytes(), Some("max-age=60"), 0).unwrap_err();
    assert_eq!(err, AuthError::DecodeFailure);
}

#[test]
fn fresh_read_returns_exact_cached_value() {
    let body = discovery_body();
    let mut cached = CachedDiscovery::from_response(body.as_bytes(), Some("max-age=100"), 50)
        .unwrap();
    let before_issuer = cached.discovery_opt(60).unwrap().issuer.clone();
    // A read never mutates: a second read at another fresh instant sees
    // the same value.
    let again = cached.discovery_opt(149).unwrap().issuer.clone();
    assert_eq!(before_issuer, again);
    // A failed refresh leaves the held value untouched for later reads.
    let res = cached.refresh_from(b"not json", Some("max-age=100"), 60);
    assert_eq!(res.unwrap_err(), AuthError::DecodeFailure);
    assert_eq!(cached.discovery_opt(149).unwrap().issuer, before_issuer);
}

#[test]
fn expired_read_never_returns_stale_data() {
    let body = discovery_body();
    let mut cached = CachedDiscovery::from_response(body.as_bytes(), Some("max-age=10"), 0)
        .unwrap();
    assert!(cached.discovery_opt(10).is_none());
    // A failing refresh propagates its error and the read still fails:
    // stale data is never served.
    let res = cached.refresh_from(b"{}", None, 10);
    assert_eq!(res.unwrap_err(), AuthError::DecodeFailure);
    assert!(cached.discovery_opt(10).is_none());
    // A succeeding refresh replaces document and expiry together.
    cached.refresh_from(discovery_body().as_bytes(), Some("max-age=5"), 10).unwrap();
    assert!(cached.discovery_opt(14).is_some());
    assert!(cached.discovery_opt(15).is_none());
}

#[test]
fn warm_start_carries_an_explicit_expiry() {
    // Starting from a stored snapshot never assumes an expiry rode along
    // inside it: the caller fixes one, and freshness follows it alone.
    let doc = oidc_gate::discovery::parse_discovery(discovery_body().as_bytes()).unwrap();
    let cached = CachedDiscovery::from_parts(doc, 500);
    assert!(cached.discovery_opt(499).is_some());
    assert!(cached.discovery_opt(500).is_none());

    let keys = parse_key_set(keys_body().as_bytes()).unwrap();
    let cached_keys = CachedKeys::from_parts(keys, 500);
    assert_eq!(cached_keys.keys_opt(499).unwrap()[0].kid, "abc123");
    assert!(cached_keys.keys_opt(500).is_none());
}

#[test]
fn key_set_parses_in_order() {
    let body = r#"{"keys":[{"kty":"RSA","alg":"RS256","use":"sig","kid":"first","n":"AAAA","e":"AQAB"},{"kty":"RSA","alg":"RS256","use":"sig","kid":"second","n":"BBBB","e":"AQAB"}]}"#;
    let keys = parse_key_set(body.as_bytes()).unwrap();
    assert_eq!(keys.len(), 2);
    assert_eq!(keys[0].kid, "first");
    assert_eq!(keys[1].kid, "second");
    assert_eq!(keys[0].use_on, "sig");
    assert_eq!(keys[0].e, "AQAB");
}

#[test]
fn key_set_missing_member_is_decode_failure() {
    let body = "{\"keys\":[{\"kty\":\"RSA\",\"kid\":\"abc\"}]}";
    assert_eq!(parse_key_set(body.as_bytes()).unwrap_err(), AuthError::DecodeFailure);
    let body = "{\"nokeys\":true}";
    assert_eq!(parse_key_set(body.as_bytes()).unwrap_err(), AuthError::DecodeFailure);
}

#[test]
fn concurrent_expiry_refreshes_settle_fresh() {
    // Two requests hit the cache the instant it turns expired. Each
    // observes the expiry, each performs its own refresh from the same
    // provider response; the duplicate install is idempotent, both then
    // observe a fresh cache, and the key list always travels with the
    // expiry computed from its own response.
    let body = keys_body();
    let mut cached = CachedKeys::from_response(body.as_bytes(), Some("max-age=10"), 0).unwrap();
    let now: u64 = 10;
    assert!(cached.keys_opt(now).is_none());

    // First request refreshes.
    cached.refresh_from(body.as_bytes(), Some("max-age=10"), now).unwrap();
    let first_seen: Vec<String> = cached.keys_opt(now).unwrap().iter().map(|k| k.kid.clone()).collect();
    // Second request lost the race and refreshes again with its own copy
    // of the same response.
    cached.refresh_from(body.as_bytes(), Some("max-age=10"), now).unwrap();
    let second_seen: Vec<String> = cached.keys_opt(now).unwrap().iter().map(|k| k.kid.clone()).collect();

    assert_eq!(first_seen, second_seen);
    // The pair (keys, expiry) comes from one response: expiry is exactly
    // now + 10, never a leftover from the earlier fill.
    assert!(cached.keys_opt(19).is_some());
    assert!(cached.keys_opt(20).is_none());
}
