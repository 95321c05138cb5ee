use oidc_gate::errors::{
    AuthError, ResolveFault, ResponseClass, TokenFault, VerifyFault,
};

#[test]
fn client_caused_errors_map_to_the_client_class() {
    let client_errors = vec![
        AuthError::TokenFormat(TokenFault::WrongSegmentCount),
        AuthError::TokenFormat(TokenFault::BadBase64),
        AuthError::TokenFormat(TokenFault::MalformedHeader),
        AuthError::KeyResolution(ResolveFault::MissingKeyId),
        AuthError::KeyResolution(ResolveFault::NoMatchingKey),
        AuthError::Verification(VerifyFault::BadSignature),
        AuthError::Verification(VerifyFault::UnusableKey),
        AuthError::Verification(VerifyFault::MalformedPayload),
        AuthError::Verification(VerifyFault::WrongIssuer),
        AuthError::Verification(VerifyFault::Expired),
    ];
    for err in client_errors {
        assert_eq!(err.class(), ResponseClass::ClientError);
    }
}

#[test]
fn infrastructure_errors_map_to_the_server_class() {
    let server_errors = vec![
        AuthError::NetworkFailure,
        AuthError::DecodeFailure,
        AuthError::CacheUnusable,
    ];
    for err in server_errors {
        assert_eq!(err.class(), ResponseClass::ServerError);
    }
}

#[test]
fn descriptions_name_the_failure() {
    assert_eq!(
        AuthError::NetworkFailure.describe(),
        "the identity provider could not be reached"
    );
    assert_eq!(AuthError::DecodeFailure.describe(), "a document could not be decoded");
    assert_eq!(
        AuthError::CacheUnusable.describe(),
        "a cache could not be read or refreshed"
    );
    assert_eq!(
        AuthError::TokenFormat(TokenFault::BadBase64).describe(),
        "the token is malformed"
    );
    assert_eq!(
        AuthError::KeyResolution(ResolveFault::NoMatchingKey).describe(),
        "no signing key matches the token"
    );
    assert_eq!(
        AuthError::Verification(VerifyFault::Expired).describe(),
        "the token failed verification"
    );
}
