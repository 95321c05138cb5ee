//! The provider's published signing keys and their cached, expiring copy.

use vstd::prelude::*;

use crate::errors::AuthError;
use crate::json::{get_json_member_list, get_json_str, json_member_list, json_str};
use crate::ttl::{spec_expiry, expiry_for};

verus! {

use vstd::string::StringSliceAdditionalSpecFns;

/// One published signing key: an RSA public key carried as JWK text, with
/// its modulus and exponent still in unpadded base64url form.
#[derive(Debug)]
pub struct Key {
    pub kty: String,
    pub alg: String,
    pub use_on: String,
    pub kid: String,
    pub n: String,
    pub e: String,
}

/// The mathematical shadow of a `Key`.
pub ghost struct KeyView {
    pub kty: Seq<char>,
    pub alg: Seq<char>,
    pub use_on: Seq<char>,
    pub kid: Seq<char>,
    pub n: Seq<char>,
    pub e: Seq<char>,
}

impl View for Key {
    type V = KeyView;

    open spec fn view(&self) -> KeyView {
        KeyView {
            kty: self.kty@,
            alg: self.alg@,
            use_on: self.use_on@,
            kid: self.kid@,
            n: self.n@,
            e: self.e@,
        }
    }
}

impl DeepView for Key {
    type V = KeyView;

    open spec fn deep_view(&self) -> KeyView {
        self.view()
    }
}

/// The key the JSON bytes `blob` describe, if every member is present as a
/// string. The `use` member travels under its wire name; the field holds
/// it as `use_on`.
pub open spec fn spec_key_of(blob: Seq<u8>) -> Option<KeyView> {
    if json_str(blob, "kty"@) is Some && json_str(blob, "alg"@) is Some && json_str(blob, "use"@)
        is Some && json_str(blob, "kid"@) is Some && json_str(blob, "n"@) is Some && json_str(
        blob,
        "e"@,
    ) is Some {
        Some(
            KeyView {
                kty: json_str(blob, "kty"@)->Some_0,
                alg: json_str(blob, "alg"@)->Some_0,
                use_on: json_str(blob, "use"@)->Some_0,
                kid: json_str(blob, "kid"@)->Some_0,
                n: json_str(blob, "n"@)->Some_0,
                e: json_str(blob, "e"@)->Some_0,
            },
        )
    } else {
        None
    }
}

/// The ordered key list the JSON bytes `body` describe under a `keys`
/// member, if the member is an array and every element describes a key.
pub open spec fn spec_key_set_of(body: Seq<u8>) -> Option<Seq<KeyView>> {
    match json_member_list(body, "keys"@) {
        None => None,
        Some(blobs) => if forall|i: int| 0 <= i < blobs.len() ==> spec_key_of(#[trigger] blobs[i])
            is Some {
            Some(Seq::new(blobs.len(), |i: int| spec_key_of(blobs[i])->Some_0))
        } else {
            None
        },
    }
}

/// Builds one `Key` out of one element of the `keys` array.
fn parse_key(blob: &Vec<u8>) -> (r: Result<Key, AuthError>)
    ensures
        match r {
            Ok(k) => spec_key_of(blob@) == Some(k@),
            Err(e) => e == AuthError::DecodeFailure && spec_key_of(blob@) is None,
        },
{
    let kty = match get_json_str(blob.as_slice(), "kty") {
        Some(s) => s,
        None => { return Err(AuthError::DecodeFailure) },
    };
    let alg = match get_json_str(blob.as_slice(), "alg") {
        Some(s) => s,
        None => { return Err(AuthError::DecodeFailure) },
    };
    let use_on = match get_json_str(blob.as_slice(), "use") {
        Some(s) => s,
        None => { return Err(AuthError::DecodeFailure) },
    };
    let kid = match get_json_str(blob.as_slice(), "kid") {
        Some(s) => s,
        None => { return Err(AuthError::DecodeFailure) },
    };
    let n = match get_json_str(blob.as_slice(), "n") {
        Some(s) => s,
        None => { return Err(AuthError::DecodeFailure) },
    };
    let e = match get_json_str(blob.as_slice(), "e") {
        Some(s) => s,
        None => { return Err(AuthError::DecodeFailure) },
    };
    Ok(Key { kty, alg, use_on, kid, n, e })
}

/// Builds the ordered key list out of a provider response body.
///
/// Fails with `DecodeFailure` exactly when the `keys` array is absent or
/// some element misses a member.
pub fn parse_key_set(body: &[u8]) -> (r: Result<Vec<Key>, AuthError>)
    ensures
        match r {
            Ok(ks) => spec_key_set_of(body@) == Some(ks.deep_view()),
            Err(e) => e == AuthError::DecodeFailure && spec_key_set_of(body@) is None,
        },
{
    let blobs = match get_json_member_list(body, "keys") {
        Some(l) => l,
        None => { return Err(AuthError::DecodeFailure) },
    };
    let ghost sblobs = json_member_list(body@, "keys"@)->Some_0;
    let mut keys: Vec<Key> = Vec::new();
    let mut i: usize = 0;
    while i < blobs.len()
        invariant
            i <= blobs@.len(),
            keys@.len() == i,
            json_member_list(body@, "keys"@) == Some(sblobs),
            sblobs.len() == blobs@.len(),
            forall|q: int| 0 <= q < blobs@.len() ==> sblobs[q] == #[trigger] blobs@[q]@,
            forall|q: int| 0 <= q < i ==> spec_key_of(sblobs[q]) == Some(#[trigger] keys@[q]@),
        decreases blobs@.len() - i,
    {
        let key = parse_key(&blobs[i])?;
        keys.push(key);
        i = i + 1;
    }
    proof {
        assert forall|q: int| 0 <= q < sblobs.len() implies spec_key_of(#[trigger] sblobs[q])
            is Some by {
            assert(spec_key_of(sblobs[q]) == Some(keys@[q]@));
        }
        assert(keys.deep_view() =~= Seq::new(sblobs.len(), |i: int| spec_key_of(sblobs[i])->Some_0));
    }
    Ok(keys)
}

/// The key list together with the absolute time at which it stops being
/// served. The pair is only ever replaced as a whole.
#[derive(Debug)]
pub struct CachedKeys {
    keys: Vec<Key>,
    expiry: u64,
}

impl CachedKeys {
    /// The keys currently held, in published order.
    pub closed spec fn spec_keys(self) -> Seq<KeyView> {
        self.keys.deep_view()
    }

    /// The absolute expiry of the held keys.
    pub closed spec fn spec_expiry(self) -> u64 {
        self.expiry
    }

    /// Builds the cache entry a provider response earns: the parsed key
    /// list, expiring `max-age` seconds after `now`.
    pub fn from_response(body: &[u8], cache_control: Option<&str>, now: u64) -> (r: Result<
        CachedKeys,
        AuthError,
    >)
        ensures
            match r {
                Ok(c) => spec_key_set_of(body@) == Some(c.spec_keys()) && c.spec_expiry()
                    == spec_expiry(
                    now,
                    match cache_control {
                        None => None::<Seq<u8>>,
                        Some(h) => Some(h.spec_bytes()),
                    },
                ),
                Err(e) => e == AuthError::DecodeFailure && spec_key_set_of(body@) is None,
            },
    {
        let keys = parse_key_set(body)?;
        Ok(CachedKeys { keys, expiry: expiry_for(now, cache_control) })
    }

    /// Adopts a key list with an expiry fixed by the caller, for starting
    /// from a snapshot taken earlier.
    pub fn from_parts(keys: Vec<Key>, expiry: u64) -> (c: CachedKeys)
        ensures
            c.spec_keys() == keys.deep_view(),
            c.spec_expiry() == expiry,
    {
        CachedKeys { keys, expiry }
    }

    /// Whether the held keys may no longer be served at `now`.
    pub fn is_expired(&self, now: u64) -> (r: bool)
        ensures
            r == (now >= self.spec_expiry()),
    {
        now >= self.expiry
    }

    /// The held keys, exactly as fetched, and only while fresh.
    pub fn keys_opt(&self, now: u64) -> (r: Option<&Vec<Key>>)
        ensures
            match r {
                Some(ks) => now < self.spec_expiry() && ks.deep_view() == self.spec_keys(),
                None => now >= self.spec_expiry(),
            },
    {
        if now >= self.expiry {
            None
        } else {
            Some(&self.keys)
        }
    }

    /// Replaces keys and expiry together from a fresh response; a response
    /// that does not decode leaves the held pair untouched.
    pub fn refresh_from(&mut self, body: &[u8], cache_control: Option<&str>, now: u64) -> (r:
        Result<(), AuthError>)
        ensures
            match r {
                Ok(()) => spec_key_set_of(body@) == Some(final(self).spec_keys())
                    && final(self).spec_expiry() == spec_expiry(
                    now,
                    match cache_control {
                        None => None::<Seq<u8>>,
                        Some(h) => Some(h.spec_bytes()),
                    },
                ),
                Err(e) => e == AuthError::DecodeFailure && spec_key_set_of(body@) is None
                    && *final(self) == *old(self),
            },
    {
        let fresh = CachedKeys::from_response(body, cache_control, now)?;
        *self = fresh;
        Ok(())
    }
}

} // verus!
