//! The provider's discovery document and its cached, expiring copy.

use vstd::prelude::*;

use crate::errors::AuthError;
use crate::json::{get_json_str, get_json_str_list, json_str, json_str_list};
use crate::ttl::{spec_expiry, expiry_for};

verus! {

use vstd::string::StringSliceAdditionalSpecFns;

/// The provider metadata this crate reads: endpoints, the key-set
/// location, and the capability lists the provider advertises.
/// A value is immutable; a refresh builds a wholly new one.
#[derive(Debug)]
pub struct Discovery {
    pub issuer: String,
    pub authorization_endpoint: String,
    pub token_endpoint: String,
    pub userinfo_endpoint: String,
    pub revocation_endpoint: String,
    pub jwks_uri: String,
    pub response_types_supported: Vec<String>,
    pub subject_types_supported: Vec<String>,
    pub id_token_signing_alg_values_supported: Vec<String>,
    pub token_endpoint_auth_methods_supported: Vec<String>,
    pub claims_supported: Vec<String>,
    pub code_challenge_methods_supported: Vec<String>,
}

/// The mathematical shadow of a `Discovery`.
pub ghost struct DiscoveryView {
    pub issuer: Seq<char>,
    pub authorization_endpoint: Seq<char>,
    pub token_endpoint: Seq<char>,
    pub userinfo_endpoint: Seq<char>,
    pub revocation_endpoint: Seq<char>,
    pub jwks_uri: Seq<char>,
    pub response_types_supported: Seq<Seq<char>>,
    pub subject_types_supported: Seq<Seq<char>>,
    pub id_token_signing_alg_values_supported: Seq<Seq<char>>,
    pub token_endpoint_auth_methods_supported: Seq<Seq<char>>,
    pub claims_supported: Seq<Seq<char>>,
    pub code_challenge_methods_supported: Seq<Seq<char>>,
}

impl View for Discovery {
    type V = DiscoveryView;

    open spec fn view(&self) -> DiscoveryView {
        DiscoveryView {
            issuer: self.issuer@,
            authorization_endpoint: self.authorization_endpoint@,
            token_endpoint: self.token_endpoint@,
            userinfo_endpoint: self.userinfo_endpoint@,
            revocation_endpoint: self.revocation_endpoint@,
            jwks_uri: self.jwks_uri@,
            response_types_supported: self.response_types_supported.deep_view(),
            subject_types_supported: self.subject_types_supported.deep_view(),
            id_token_signing_alg_values_supported: self.id_token_signing_alg_values_supported.deep_view(),
            token_endpoint_auth_methods_supported: self.token_endpoint_auth_methods_supported.deep_view(),
            claims_supported: self.claims_supported.deep_view(),
            code_challenge_methods_supported: self.code_challenge_methods_supported.deep_view(),
        }
    }
}

/// The document the JSON bytes `body` describe, if every required member
/// is present with its required shape.
pub open spec fn spec_discovery_of(body: Seq<u8>) -> Option<DiscoveryView> {
    if json_str(body, "issuer"@) is Some && json_str(body, "authorization_endpoint"@) is Some
        && json_str(body, "token_endpoint"@) is Some && json_str(body, "userinfo_endpoint"@)
        is Some && json_str(body, "revocation_endpoint"@) is Some && json_str(body, "jwks_uri"@)
        is Some && json_str_list(body, "response_types_supported"@) is Some && json_str_list(
        body,
        "subject_types_supported"@,
    ) is Some && json_str_list(body, "id_token_signing_alg_values_supported"@) is Some
        && json_str_list(body, "token_endpoint_auth_methods_supported"@) is Some && json_str_list(
        body,
        "claims_supported"@,
    ) is Some && json_str_list(body, "code_challenge_methods_supported"@) is Some {
        Some(
            DiscoveryView {
                issuer: json_str(body, "issuer"@)->Some_0,
                authorization_endpoint: json_str(body, "authorization_endpoint"@)->Some_0,
                token_endpoint: json_str(body, "token_endpoint"@)->Some_0,
                userinfo_endpoint: json_str(body, "userinfo_endpoint"@)->Some_0,
                revocation_endpoint: json_str(body, "revocation_endpoint"@)->Some_0,
                jwks_uri: json_str(body, "jwks_uri"@)->Some_0,
                response_types_supported: json_str_list(body, "response_types_supported"@)->Some_0,
                subject_types_supported: json_str_list(body, "subject_types_supported"@)->Some_0,
                id_token_signing_alg_values_supported: json_str_list(
                    body,
                    "id_token_signing_alg_values_supported"@,
                )->Some_0,
                token_endpoint_auth_methods_supported: json_str_list(
                    body,
                    "token_endpoint_auth_methods_supported"@,
                )->Some_0,
                claims_supported: json_str_list(body, "claims_supported"@)->Some_0,
                code_challenge_methods_supported: json_str_list(
                    body,
                    "code_challenge_methods_supported"@,
                )->Some_0,
            },
        )
    } else {
        None
    }
}

/// Builds a `Discovery` out of a provider response body.
///
/// Fails with `DecodeFailure` exactly when a required member is absent or
/// of the wrong shape.
pub fn parse_discovery(body: &[u8]) -> (r: Result<Discovery, AuthError>)
    ensures
        match r {
            Ok(d) => spec_discovery_of(body@) == Some(d@),
            Err(e) => e == AuthError::DecodeFailure && spec_discovery_of(body@) is None,
        },
{
    let issuer = match get_json_str(body, "issuer") {
        Some(s) => s,
        None => { return Err(AuthError::DecodeFailure) },
    };
    let authorization_endpoint = match get_json_str(body, "authorization_endpoint") {
        Some(s) => s,
        None => { return Err(AuthError::DecodeFailure) },
    };
    let token_endpoint = match get_json_str(body, "token_endpoint") {
        Some(s) => s,
        None => { return Err(AuthError::DecodeFailure) },
    };
    let userinfo_endpoint = match get_json_str(body, "userinfo_endpoint") {
        Some(s) => s,
        None => { return Err(AuthError::DecodeFailure) },
    };
    let revocation_endpoint = match get_json_str(body, "revocation_endpoint") {
        Some(s) => s,
        None => { return Err(AuthError::DecodeFailure) },
    };
    let jwks_uri = match get_json_str(body, "jwks_uri") {
        Some(s) => s,
        None => { return Err(AuthError::DecodeFailure) },
    };
    let response_types_supported = match get_json_str_list(body, "response_types_supported") {
        Some(l) => l,
        None => { return Err(AuthError::DecodeFailure) },
    };
    let subject_types_supported = match get_json_str_list(body, "subject_types_supported") {
        Some(l) => l,
        None => { return Err(AuthError::DecodeFailure) },
    };
    let id_token_signing_alg_values_supported = match get_json_str_list(
        body,
        "id_token_signing_alg_values_supported",
    ) {
        Some(l) => l,
        None => { return Err(AuthError::DecodeFailure) },
    };
    let token_endpoint_auth_methods_supported = match get_json_str_list(
        body,
        "token_endpoint_auth_methods_supported",
    ) {
        Some(l) => l,
        None => { return Err(AuthError::DecodeFailure) },
    };
    let claims_supported = match get_json_str_list(body, "claims_supported") {
        Some(l) => l,
        None => { return Err(AuthError::DecodeFailure) },
    };
    let code_challenge_methods_supported = match get_json_str_list(
        body,
        "code_challenge_methods_supported",
    ) {
        Some(l) => l,
        None => { return Err(AuthError::DecodeFailure) },
    };
    let d = Discovery {
        issuer,
        authorization_endpoint,
        token_endpoint,
        userinfo_endpoint,
        revocation_endpoint,
        jwks_uri,
        response_types_supported,
        subject_types_supported,
        id_token_signing_alg_values_supported,
        token_endpoint_auth_methods_supported,
        claims_supported,
        code_challenge_methods_supported,
    };
    proof {
        let dv = spec_discovery_of(body@)->Some_0;
        assert(d@.response_types_supported =~= dv.response_types_supported);
        assert(d@.subject_types_supported =~= dv.subject_types_supported);
        assert(d@.id_token_signing_alg_values_supported
            =~= dv.id_token_signing_alg_values_supported);
        assert(d@.token_endpoint_auth_methods_supported
            =~= dv.token_endpoint_auth_methods_supported);
        assert(d@.claims_supported =~= dv.claims_supported);
        assert(d@.code_challenge_methods_supported =~= dv.code_challenge_methods_supported);
    }
    Ok(d)
}

/// One `Discovery` together with the absolute time at which it stops
/// being served. The pair is only ever replaced as a whole.
#[derive(Debug)]
pub struct CachedDiscovery {
    discovery: Discovery,
    expires: u64,
}

impl CachedDiscovery {
    /// The document currently held.
    pub closed spec fn spec_discovery(self) -> DiscoveryView {
        self.discovery@
    }

    /// The absolute expiry of the held document.
    pub closed spec fn spec_expires(self) -> u64 {
        self.expires
    }

    /// Builds the cache entry a provider response earns: the parsed
    /// document, expiring `max-age` seconds after `now`.
    pub fn from_response(body: &[u8], cache_control: Option<&str>, now: u64) -> (r: Result<
        CachedDiscovery,
        AuthError,
    >)
        ensures
            match r {
                Ok(c) => spec_discovery_of(body@) == Some(c.spec_discovery())
                    && c.spec_expires() == spec_expiry(
                    now,
                    match cache_control {
                        None => None::<Seq<u8>>,
                        Some(h) => Some(h.spec_bytes()),
                    },
                ),
                Err(e) => e == AuthError::DecodeFailure && spec_discovery_of(body@) is None,
            },
    {
        let discovery = parse_discovery(body)?;
        Ok(CachedDiscovery { discovery, expires: expiry_for(now, cache_control) })
    }

    /// Adopts a document with an expiry fixed by the caller, for starting
    /// from a snapshot taken earlier; the expiry is explicit, never
    /// assumed to ride along inside the snapshot.
    pub fn from_parts(discovery: Discovery, expires: u64) -> (c: CachedDiscovery)
        ensures
            c.spec_discovery() == discovery@,
            c.spec_expires() == expires,
    {
        CachedDiscovery { discovery, expires }
    }

    /// Whether the held document may no longer be served at `now`.
    pub fn is_expired(&self, now: u64) -> (r: bool)
        ensures
            r == (now >= self.spec_expires()),
    {
        now >= self.expires
    }

    /// The held document, exactly as fetched, and only while fresh.
    pub fn discovery_opt(&self, now: u64) -> (r: Option<&Discovery>)
        ensures
            match r {
                Some(d) => now < self.spec_expires() && d@ == self.spec_discovery(),
                None => now >= self.spec_expires(),
            },
    {
        if now >= self.expires {
            None
        } else {
            Some(&self.discovery)
        }
    }

    /// Replaces document and expiry together from a fresh response; a
    /// response that does not decode leaves the held pair untouched.
    pub fn refresh_from(&mut self, body: &[u8], cache_control: Option<&str>, now: u64) -> (r:
        Result<(), AuthError>)
        ensures
            match r {
                Ok(()) => spec_discovery_of(body@) == Some(final(self).spec_discovery())
                    && final(self).spec_expires() == spec_expiry(
                    now,
                    match cache_control {
                        None => None::<Seq<u8>>,
                        Some(h) => Some(h.spec_bytes()),
                    },
                ),
                Err(e) => e == AuthError::DecodeFailure && spec_discovery_of(body@) is None
                    && *final(self) == *old(self),
            },
    {
        let fresh = CachedDiscovery::from_response(body, cache_control, now)?;
        *self = fresh;
        Ok(())
    }
}

} // verus!
