//! The error taxonomy: every failure a request can meet, and the coarse
//! client/server split that the boundary layer maps to response classes.

use vstd::prelude::*;

verus! {

/// How a token failed before any key was consulted.
#[derive(Clone, Copy, Debug, PartialEq, Eq, Structural)]
pub enum TokenFault {
    /// The compact form did not have exactly three dot-separated segments.
    WrongSegmentCount,
    /// A segment was not valid unpadded base64url text.
    BadBase64,
    /// The decoded header was not the JSON object expected.
    MalformedHeader,
}

/// Why no signing key could be chosen for a token.
#[derive(Clone, Copy, Debug, PartialEq, Eq, Structural)]
pub enum ResolveFault {
    /// The token's header names no key identifier.
    MissingKeyId,
    /// No key in the set carries the header's key identifier.
    NoMatchingKey,
}

/// Why a resolved key rejected a token.
#[derive(Clone, Copy, Debug, PartialEq, Eq, Structural)]
pub enum VerifyFault {
    /// The signature does not match the key.
    BadSignature,
    /// The key material or its algorithm could not be used.
    UnusableKey,
    /// The payload lacked a required claim or was not a JSON object.
    MalformedPayload,
    /// The issuer claim differs from the expected issuer.
    WrongIssuer,
    /// The expiry claim is not in the future.
    Expired,
}

/// Every terminal outcome short of "allow".
#[derive(Clone, Copy, Debug, PartialEq, Eq, Structural)]
pub enum AuthError {
    /// The provider could not be reached.
    NetworkFailure,
    /// A provider response was malformed JSON or missed a required field.
    DecodeFailure,
    /// A cache's guard was poisoned or its refresh could not be attempted.
    CacheUnusable,
    /// The presented token was malformed.
    TokenFormat(TokenFault),
    /// No signing key matched the presented token.
    KeyResolution(ResolveFault),
    /// A resolved key rejected the presented token.
    Verification(VerifyFault),
}

/// The only distinction the boundary layer keeps: who caused the failure.
#[derive(Clone, Copy, Debug, PartialEq, Eq, Structural)]
pub enum ResponseClass {
    /// The client sent something wrong; a client-error response is due.
    ClientError,
    /// The server or the provider failed; a server-error response is due.
    ServerError,
}

impl AuthError {
    /// Which response class this error maps to at the boundary.
    pub open spec fn spec_class(self) -> ResponseClass {
        match self {
            AuthError::TokenFormat(_) => ResponseClass::ClientError,
            AuthError::KeyResolution(_) => ResponseClass::ClientError,
            AuthError::Verification(_) => ResponseClass::ClientError,
            _ => ResponseClass::ServerError,
        }
    }

    /// Classifies the error by a pattern match, never by inspecting a
    /// boxed error's runtime type.
    pub fn class(&self) -> (c: ResponseClass)
        ensures
            c == self.spec_class(),
    {
        match self {
            AuthError::TokenFormat(_) => ResponseClass::ClientError,
            AuthError::KeyResolution(_) => ResponseClass::ClientError,
            AuthError::Verification(_) => ResponseClass::ClientError,
            _ => ResponseClass::ServerError,
        }
    }

    /// A short sentence for a log line or a response body.
    pub fn describe(&self) -> (s: &str)
        ensures
            s@ == match self {
                AuthError::NetworkFailure => "the identity provider could not be reached"@,
                AuthError::DecodeFailure => "a document could not be decoded"@,
                AuthError::CacheUnusable => "a cache could not be read or refreshed"@,
                AuthError::TokenFormat(_) => "the token is malformed"@,
                AuthError::KeyResolution(_) => "no signing key matches the token"@,
                AuthError::Verification(_) => "the token failed verification"@,
            },
    {
        match self {
            AuthError::NetworkFailure => "the identity provider could not be reached",
            AuthError::DecodeFailure => "a document could not be decoded",
            AuthError::CacheUnusable => "a cache could not be read or refreshed",
            AuthError::TokenFormat(_) => "the token is malformed",
            AuthError::KeyResolution(_) => "no signing key matches the token",
            AuthError::Verification(_) => "the token failed verification",
        }
    }
}

} // verus!
