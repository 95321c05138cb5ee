//! Cryptographic verification of a compact token against a resolved key,
//! and the claim checks that make its identity trustworthy.

use vstd::prelude::*;

use crate::errors::{AuthError, VerifyFault};
use crate::json::{get_json_i64, get_json_str, json_i64, json_str};
use crate::keys::Key;

verus! {

use vstd::string::StringExecFns;

/// The claims of `token`, as JSON bytes, exactly when the token is a
/// well-formed compact token whose signature checks out under the RSA
/// public key assembled from the base64url modulus `n` and exponent `e`
/// for the algorithm named `alg`, and whose payload is a claims object.
pub uninterp spec fn rsa_payload(token: Seq<char>, alg: Seq<char>, n: Seq<char>, e: Seq<char>) -> Option<
    Seq<u8>,
>;

/// Relies on jsonwebtoken: `Algorithm::from_str` names the algorithm,
/// `DecodingKey::from_rsa_components` assembles the RSA public key from
/// the modulus and exponent texts, and `decode` checks token shape,
/// header algorithm and signature. Claim validation is switched off, so
/// the outcome depends on the four texts alone; the claims come back
/// re-serialized as JSON bytes.
#[verifier::external_body]
fn rsa_check(token: &str, alg: &str, n: &str, e: &str) -> (r: Result<Vec<u8>, VerifyFault>)
    ensures
        (r is Ok) == (rsa_payload(token@, alg@, n@, e@) is Some),
        r matches Ok(p) ==> rsa_payload(token@, alg@, n@, e@) == Some(p@),
        r matches Err(f) ==> (f == VerifyFault::BadSignature || f == VerifyFault::MalformedPayload
            || f == VerifyFault::UnusableKey),
{
    let a: jsonwebtoken::Algorithm = alg.parse().map_err(|_| VerifyFault::UnusableKey)?;
    let k = jsonwebtoken::DecodingKey::from_rsa_components(n, e).map_err(|_| VerifyFault::UnusableKey)?;
    let mut v = jsonwebtoken::Validation::new(a);
    v.required_spec_claims = std::collections::HashSet::new();
    v.validate_exp = false;
    v.validate_aud = false;
    match jsonwebtoken::decode::<serde_json::Value>(token, &k, &v) {
        Ok(d) => Ok(d.claims.to_string().into_bytes()),
        Err(err) => Err(match err.kind() {
            jsonwebtoken::errors::ErrorKind::InvalidSignature => VerifyFault::BadSignature,
            jsonwebtoken::errors::ErrorKind::Json(_) => VerifyFault::MalformedPayload,
            _ => VerifyFault::UnusableKey,
        }),
    }
}

/// The validated claim set of a verified token.
#[derive(Debug)]
pub struct VerifiedIdentity {
    pub iss: String,
    pub sub: String,
    pub aud: String,
    pub azp: String,
    pub email: String,
    pub email_verified: String,
    pub iat: i64,
    pub exp: i64,
}

/// The mathematical shadow of a `VerifiedIdentity`.
pub ghost struct IdentityView {
    pub iss: Seq<char>,
    pub sub: Seq<char>,
    pub aud: Seq<char>,
    pub azp: Seq<char>,
    pub email: Seq<char>,
    pub email_verified: Seq<char>,
    pub iat: i64,
    pub exp: i64,
}

impl View for VerifiedIdentity {
    type V = IdentityView;

    open spec fn view(&self) -> IdentityView {
        IdentityView {
            iss: self.iss@,
            sub: self.sub@,
            aud: self.aud@,
            azp: self.azp@,
            email: self.email@,
            email_verified: self.email_verified@,
            iat: self.iat,
            exp: self.exp,
        }
    }
}

/// The claim set the JSON bytes `p` describe, if every required claim is
/// present with its required shape.
pub open spec fn spec_identity_of(p: Seq<u8>) -> Option<IdentityView> {
    if json_str(p, "iss"@) is Some && json_str(p, "sub"@) is Some && json_str(p, "aud"@) is Some
        && json_str(p, "azp"@) is Some && json_str(p, "email"@) is Some && json_str(
        p,
        "email_verified"@,
    ) is Some && json_i64(p, "iat"@) is Some && json_i64(p, "exp"@) is Some {
        Some(
            IdentityView {
                iss: json_str(p, "iss"@)->Some_0,
                sub: json_str(p, "sub"@)->Some_0,
                aud: json_str(p, "aud"@)->Some_0,
                azp: json_str(p, "azp"@)->Some_0,
                email: json_str(p, "email"@)->Some_0,
                email_verified: json_str(p, "email_verified"@)->Some_0,
                iat: json_i64(p, "iat"@)->Some_0,
                exp: json_i64(p, "exp"@)->Some_0,
            },
        )
    } else {
        None
    }
}

/// Builds the claim set out of verified payload bytes.
fn parse_identity(p: &Vec<u8>) -> (r: Option<VerifiedIdentity>)
    ensures
        match r {
            Some(id) => spec_identity_of(p@) == Some(id@),
            None => spec_identity_of(p@) is None,
        },
{
    let iss = match get_json_str(p.as_slice(), "iss") {
        Some(s) => s,
        None => { return None },
    };
    let sub = match get_json_str(p.as_slice(), "sub") {
        Some(s) => s,
        None => { return None },
    };
    let aud = match get_json_str(p.as_slice(), "aud") {
        Some(s) => s,
        None => { return None },
    };
    let azp = match get_json_str(p.as_slice(), "azp") {
        Some(s) => s,
        None => { return None },
    };
    let email = match get_json_str(p.as_slice(), "email") {
        Some(s) => s,
        None => { return None },
    };
    let email_verified = match get_json_str(p.as_slice(), "email_verified") {
        Some(s) => s,
        None => { return None },
    };
    let iat = match get_json_i64(p.as_slice(), "iat") {
        Some(v) => v,
        None => { return None },
    };
    let exp = match get_json_i64(p.as_slice(), "exp") {
        Some(v) => v,
        None => { return None },
    };
    Some(VerifiedIdentity { iss, sub, aud, azp, email, email_verified, iat, exp })
}

/// Whether `token`, checked against `key`, yields a claim set issued by
/// `issuer` that has not expired at `now`.
pub open spec fn spec_verdict(
    token: Seq<char>,
    key: crate::keys::KeyView,
    issuer: Seq<char>,
    now: u64,
) -> bool {
    &&& rsa_payload(token, key.alg, key.n, key.e) matches Some(p)
    &&& spec_identity_of(p) matches Some(id)
    &&& id.iss == issuer
    &&& id.exp > now
}

/// Verifies a token against one resolved key.
///
/// Success needs all of: a good signature under the key for its named
/// algorithm, a complete claim set, the expected issuer, and an expiry
/// strictly after `now`. Each way of failing keeps its own fault, and no
/// partial success leaks: an identity comes back only on full success.
pub fn verify(token: &str, key: &Key, expected_issuer: &str, now: u64) -> (r: Result<
    VerifiedIdentity,
    AuthError,
>)
    ensures
        (r is Ok) == spec_verdict(token@, key@, expected_issuer@, now),
        match r {
            Ok(id) => {
                &&& rsa_payload(token@, key@.alg, key@.n, key@.e) matches Some(p)
                &&& spec_identity_of(p) == Some(id@)
                &&& id@.iss == expected_issuer@
                &&& id@.exp > now
            },
            Err(e) => match e {
                AuthError::Verification(VerifyFault::WrongIssuer) => {
                    &&& rsa_payload(token@, key@.alg, key@.n, key@.e) matches Some(p)
                    &&& spec_identity_of(p) matches Some(id)
                    &&& id.iss != expected_issuer@
                },
                AuthError::Verification(VerifyFault::Expired) => {
                    &&& rsa_payload(token@, key@.alg, key@.n, key@.e) matches Some(p)
                    &&& spec_identity_of(p) matches Some(id)
                    &&& id.iss == expected_issuer@ && id.exp <= now
                },
                AuthError::Verification(VerifyFault::MalformedPayload) => rsa_payload(
                    token@,
                    key@.alg,
                    key@.n,
                    key@.e,
                ) is None || (rsa_payload(token@, key@.alg, key@.n, key@.e) matches Some(p)
                    && spec_identity_of(p) is None),
                AuthError::Verification(VerifyFault::BadSignature) => rsa_payload(
                    token@,
                    key@.alg,
                    key@.n,
                    key@.e,
                ) is None,
                AuthError::Verification(VerifyFault::UnusableKey) => rsa_payload(
                    token@,
                    key@.alg,
                    key@.n,
                    key@.e,
                ) is None,
                _ => false,
            },
        },
{
    let payload = match rsa_check(token, &key.alg, &key.n, &key.e) {
        Ok(p) => p,
        Err(f) => { return Err(AuthError::Verification(f)) },
    };
    let id = match parse_identity(&payload) {
        Some(id) => id,
        None => { return Err(AuthError::Verification(VerifyFault::MalformedPayload)) },
    };
    let expected = String::from_str(expected_issuer);
    if !id.iss.eq(&expected) {
        return Err(AuthError::Verification(VerifyFault::WrongIssuer));
    }
    if id.exp <= 0 || (id.exp as u64) <= now {
        return Err(AuthError::Verification(VerifyFault::Expired));
    }
    Ok(id)
}

} // verus!
