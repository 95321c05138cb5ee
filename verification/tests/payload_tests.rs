use oidc_gate::errors::AuthError;
use oidc_gate::models::extract_credentials;

#[test]
fn credentials_come_out_of_the_payload() {
    let body = r#"{"user":{"id":"u1","name":"Ada","email":"ada@example.com"},"jwt":"h.p.s"}"#;
    let (user, jwt) = extract_credentials(body.as_bytes()).unwrap();
    assert_eq!(user.id, "u1");
    assert_eq!(user.name, "Ada");
    assert_eq!(user.email, "ada@example.com");
    assert_eq!(jwt, "h.p.s");
}

#[test]
fn payload_without_token_is_decode_failure() {
    let body = r#"{"user":{"id":"u1","name":"Ada","email":"ada@example.com"}}"#;
    assert_eq!(extract_credentials(body.as_bytes()).unwrap_err(), AuthError::DecodeFailure);
}

#[test]
fn payload_with_incomplete_user_is_decode_failure() {
    let body = r#"{"user":{"id":"u1"},"jwt":"h.p.s"}"#;
    assert_eq!(extract_credentials(body.as_bytes()).unwrap_err(), AuthError::DecodeFailure);
    let body = r#"{"jwt":"h.p.s"}"#;
    assert_eq!(extract_credentials(body.as_bytes()).unwrap_err(), AuthError::DecodeFailure);
}

#[test]
fn nested_user_values_are_not_read_from_the_top_level() {
    // The user's fields live inside the `user` object; top-level fields
    // of the same names do not satisfy the payload shape.
    let body = r#"{"id":"u1","name":"Ada","email":"a@b","user":"not an object","jwt":"h.p.s"}"#;
    assert_eq!(extract_credentials(body.as_bytes()).unwrap_err(), AuthError::DecodeFailure);
}
