//! The request-time orchestrator: whether a path needs authentication,
//! what must be fetched before a token can be judged, and the judgement
//! itself once both caches are fresh.
//!
//! No I/O happens here. A serving loop calls `plan`, does the one fetch
//! that `plan` names, installs the response into the matching cache, and
//! calls `plan` once more; discovery is always settled before the key
//! set, so a key-set fetch location always comes from a discovery
//! document that is fresh at that instant.

use vstd::prelude::*;

use crate::discovery::CachedDiscovery;
use crate::errors::{AuthError, ResolveFault};
use crate::json::{json_member, json_str};
use crate::keys::{CachedKeys, KeyView};
use crate::models::{spec_credentials_of, extract_credentials};
use crate::resolve::{first_key_match_from, resolve, spec_header_member};
use crate::verify::{spec_identity_of, spec_verdict, rsa_payload, verify, VerifiedIdentity};

verus! {

use vstd::string::StringExecFns;

/// What a request needs next, as decided by `AuthGate::plan`.
#[derive(Debug)]
pub enum GateAction {
    /// The path is unprotected: allow at once, touching nothing.
    AllowUnprotected,
    /// The discovery document is missing or stale: fetch it first.
    FetchDiscovery,
    /// The key set is missing or stale: fetch it from this location,
    /// taken from the currently fresh discovery document.
    FetchKeys(String),
    /// Both caches are fresh: the token itself can be judged.
    CheckToken,
}

/// The fixed request-time configuration: which exact paths require a
/// verified identity before they may be served.
pub struct AuthGate {
    protected: Vec<String>,
}

/// Whether `body`, read as a request payload, carries a token that the
/// key set accepts for the given issuer at time `now`.
pub open spec fn spec_authorized(
    body: Seq<u8>,
    keys: Seq<KeyView>,
    issuer: Seq<char>,
    now: u64,
) -> bool {
    &&& spec_credentials_of(body) matches Some(cred)
    &&& spec_header_member(cred.1, "alg"@) is Some
    &&& spec_header_member(cred.1, "kid"@) matches Some(kid)
    &&& first_key_match_from(keys, kid, 0) matches Some(i)
    &&& spec_verdict(cred.1, keys[i], issuer, now)
}

impl AuthGate {
    /// The protected paths, in configuration order.
    pub closed spec fn spec_protected(self) -> Seq<Seq<char>> {
        self.protected.deep_view()
    }

    /// Whether `path` is one of the protected paths.
    pub open spec fn spec_protects(self, path: Seq<char>) -> bool {
        self.spec_protected().contains(path)
    }

    /// Fixes the set of protected paths for the process lifetime.
    pub fn new(protected: Vec<String>) -> (g: AuthGate)
        ensures
            g.spec_protected() == protected.deep_view(),
    {
        AuthGate { protected }
    }

    /// Decides whether `path` requires authentication.
    pub fn protects(&self, path: &str) -> (r: bool)
        ensures
            r == self.spec_protects(path@),
    {
        let owned = String::from_str(path);
        let mut i: usize = 0;
        while i < self.protected.len()
            invariant
                i <= self.protected@.len(),
                owned@ == path@,
                forall|q: int| 0 <= q < i ==> self.spec_protected()[q] != path@,
            decreases self.protected@.len() - i,
        {
            if self.protected[i].eq(&owned) {
                proof {
                    assert(self.spec_protected()[i as int] == path@);
                }
                return true;
            }
            i = i + 1;
        }
        false
    }

    /// Decides what a request to `path` needs next at time `now`.
    ///
    /// An unprotected path is allowed at once, whatever the payload and
    /// the caches hold. A protected one demands a fresh discovery
    /// document before anything else, then a fresh key set fetched from
    /// that fresh document's key-set location, and only then a token
    /// judgement.
    pub fn plan(
        &self,
        path: &str,
        discovery: Option<&CachedDiscovery>,
        keys: Option<&CachedKeys>,
        now: u64,
    ) -> (a: GateAction)
        ensures
            !self.spec_protects(path@) ==> a == GateAction::AllowUnprotected,
            self.spec_protects(path@) && (match discovery {
                None => true,
                Some(d) => now >= d.spec_expires(),
            }) ==> a == GateAction::FetchDiscovery,
            self.spec_protects(path@) && (discovery matches Some(d) && now < d.spec_expires())
                && (match keys {
                None => true,
                Some(k) => now >= k.spec_expiry(),
            }) ==> (a matches GateAction::FetchKeys(u) && u@ == discovery->Some_0.spec_discovery().jwks_uri),
            self.spec_protects(path@) && (discovery matches Some(d) && now < d.spec_expires())
                && (keys matches Some(k) && now < k.spec_expiry()) ==> a == GateAction::CheckToken,
    {
        if !self.protects(path) {
            return GateAction::AllowUnprotected;
        }
        let doc = match discovery {
            None => { return GateAction::FetchDiscovery },
            Some(d) => match d.discovery_opt(now) {
                None => { return GateAction::FetchDiscovery },
                Some(doc) => doc,
            },
        };
        let fresh_keys = match keys {
            None => false,
            Some(k) => !k.is_expired(now),
        };
        if !fresh_keys {
            return GateAction::FetchKeys(doc.jwks_uri.clone());
        }
        GateAction::CheckToken
    }

    /// Judges the token a request payload carries, under fresh caches.
    ///
    /// The payload must decode to credentials; the token's key must
    /// resolve in the fresh key set; the token must verify for the fresh
    /// discovery document's issuer at `now`. Each failing stage hands its
    /// own error through, and an identity comes back only on full
    /// success.
    pub fn authorize(
        &self,
        body: &[u8],
        discovery: &CachedDiscovery,
        keys: &CachedKeys,
        now: u64,
    ) -> (r: Result<VerifiedIdentity, AuthError>)
        requires
            now < discovery.spec_expires(),
            now < keys.spec_expiry(),
        ensures
            (r is Ok) == spec_authorized(
                body@,
                keys.spec_keys(),
                discovery.spec_discovery().issuer,
                now,
            ),
            match r {
                Ok(id) => {
                    &&& spec_credentials_of(body@) matches Some(cred)
                    &&& spec_header_member(cred.1, "kid"@) matches Some(kid)
                    &&& first_key_match_from(keys.spec_keys(), kid, 0) matches Some(i)
                    &&& rsa_payload(
                        cred.1,
                        keys.spec_keys()[i].alg,
                        keys.spec_keys()[i].n,
                        keys.spec_keys()[i].e,
                    ) matches Some(p)
                    &&& spec_identity_of(p) == Some(id@)
                    &&& id@.iss == discovery.spec_discovery().issuer
                    &&& id@.exp > now
                },
                Err(e) => match e {
                    AuthError::DecodeFailure => spec_credentials_of(body@) is None,
                    AuthError::TokenFormat(_) => spec_credentials_of(body@) matches Some(cred)
                        && spec_header_member(cred.1, "alg"@) is None,
                    AuthError::KeyResolution(ResolveFault::MissingKeyId) => spec_credentials_of(
                        body@,
                    ) matches Some(cred) && spec_header_member(cred.1, "alg"@) is Some
                        && spec_header_member(cred.1, "kid"@) is None,
                    AuthError::KeyResolution(ResolveFault::NoMatchingKey) => spec_credentials_of(
                        body@,
                    ) matches Some(cred) && (spec_header_member(cred.1, "kid"@) matches Some(kid)
                        && first_key_match_from(keys.spec_keys(), kid, 0) is None),
                    AuthError::Verification(_) => spec_credentials_of(body@) matches Some(cred)
                        && (spec_header_member(cred.1, "kid"@) matches Some(kid)
                        && first_key_match_from(keys.spec_keys(), kid, 0) is Some),
                    _ => false,
                },
            },
    {
        let (_user, token) = extract_credentials(body)?;
        let fresh_keys = match keys.keys_opt(now) {
            Some(ks) => ks,
            None => unreached(),
        };
        let key = resolve(token.as_str(), fresh_keys)?;
        let doc = match discovery.discovery_opt(now) {
            Some(d) => d,
            None => unreached(),
        };
        let id = verify(token.as_str(), key, doc.issuer.as_str(), now)?;
        Ok(id)
    }
}

} // verus!
