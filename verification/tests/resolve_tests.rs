use base64::Engine;

use oidc_gate::errors::{AuthError, ResolveFault, TokenFault};
use oidc_gate::keys::parse_key_set;
use oidc_gate::resolve::{decode_header, resolve, split_token};

fn b64url(s: &str) -> String {
    base64::engine::general_purpose::URL_SAFE_NO_PAD.encode(s.as_bytes())
}

fn token_with_header(header_json: &str) -> String {
    format!("{}.{}.{}", b64url(header_json), b64url("{}"), b64url("sig"))
}

#[test]
fn split_needs_exactly_three_segments() {
    assert_eq!(split_token("a.b.c"), Some(("a", "b", "c")));
    assert_eq!(split_token("..") , Some(("", "", "")));
    assert_eq!(split_token("a.b"), None);
    assert_eq!(split_token("a.b.c.d"), None);
    assert_eq!(split_token("abc"), None);
    assert_eq!(split_token(""), None);
}

#[test]
fn header_decodes_algorithm_and_kid() {
    let token = token_with_header(r#"{"alg":"RS256","kid":"abc123"}"#);
    let header = decode_header(&token).unwrap();
    assert_eq!(header.alg, "RS256");
    assert_eq!(header.kid, Some("abc123".to_string()));
}

#[test]
fn header_faults_are_told_apart() {
    assert_eq!(
        decode_header("x.y").unwrap_err(),
        AuthError::TokenFormat(TokenFault::WrongSegmentCount)
    );
    let bad_b64 = format!("{}.{}.{}", "!!!", b64url("{}"), b64url("s"));
    assert_eq!(
        decode_header(&bad_b64).unwrap_err(),
        AuthError::TokenFormat(TokenFault::BadBase64)
    );
    let not_json = format!("{}.{}.{}", b64url("not json"), b64url("{}"), b64url("s"));
    assert_eq!(
        decode_header(&not_json).unwrap_err(),
        AuthError::TokenFormat(TokenFault::MalformedHeader)
    );
    let no_alg = token_with_header(r#"{"kid":"abc123"}"#);
    assert_eq!(
        decode_header(&no_alg).unwrap_err(),
        AuthError::TokenFormat(TokenFault::MalformedHeader)
    );
}

#[test]
fn resolution_finds_the_published_key() {
    let body = r#"{"keys":[{"kty":"RSA","alg":"RS256","use":"sig","kid":"abc123","n":"3Jt0...","e":"AQAB"}]}"#;
    let keys = parse_key_set(body.as_bytes()).unwrap();
    let token = token_with_header(r#"{"alg":"RS256","kid":"abc123"}"#);
    let key = resolve(&token, &keys).unwrap();
    assert_eq!(key.kid, "abc123");
    assert_eq!(key.kty, "RSA");
}

#[test]
fn resolution_without_kid_is_missing_identifier() {
    let body = r#"{"keys":[{"kty":"RSA","alg":"RS256","use":"sig","kid":"abc123","n":"x","e":"AQAB"}]}"#;
    let keys = parse_key_set(body.as_bytes()).unwrap();
    let token = token_with_header(r#"{"alg":"RS256"}"#);
    assert_eq!(
        resolve(&token, &keys).unwrap_err(),
        AuthError::KeyResolution(ResolveFault::MissingKeyId)
    );
}

#[test]
fn resolution_with_unknown_kid_finds_no_key() {
    let body = r#"{"keys":[{"kty":"RSA","alg":"RS256","use":"sig","kid":"abc123","n":"x","e":"AQAB"}]}"#;
    let keys = parse_key_set(body.as_bytes()).unwrap();
    let token = token_with_header(r#"{"alg":"RS256","kid":"xyz"}"#);
    assert_eq!(
        resolve(&token, &keys).unwrap_err(),
        AuthError::KeyResolution(ResolveFault::NoMatchingKey)
    );
}

#[test]
fn resolution_takes_the_first_match() {
    let body = r#"{"keys":[{"kty":"RSA","alg":"RS256","use":"sig","kid":"dup","n":"first","e":"AQAB"},{"kty":"RSA","alg":"RS256","use":"sig","kid":"dup","n":"second","e":"AQAB"}]}"#;
    let keys = parse_key_set(body.as_bytes()).unwrap();
    let token = token_with_header(r#"{"alg":"RS256","kid":"dup"}"#);
    let key = resolve(&token, &keys).unwrap();
    assert_eq!(key.n, "first");
}

#[test]
fn resolution_on_empty_key_set_finds_no_key() {
    let keys = parse_key_set(br#"{"keys":[]}"#).unwrap();
    let token = token_with_header(r#"{"alg":"RS256","kid":"abc123"}"#);
    assert_eq!(
        resolve(&token, &keys).unwrap_err(),
        AuthError::KeyResolution(ResolveFault::NoMatchingKey)
    );
}
