//! Choosing the signing key a compact token names.
//!
//! A compact token is three dot-separated segments. The first segment,
//! base64url-decoded and read as JSON, names the algorithm and usually a
//! key identifier; resolution picks the first published key carrying it.

use vstd::prelude::*;

use base64::Engine;

use crate::errors::{AuthError, ResolveFault, TokenFault};
use crate::json::{get_json_str, json_str};
use crate::keys::{Key, KeyView};

verus! {

use vstd::string::StrSliceExecFns;

/// The first dot at or after `i`, if any.
pub open spec fn first_dot_from(s: Seq<char>, i: int) -> Option<int>
    decreases s.len() - i,
{
    if i < 0 || i >= s.len() {
        None
    } else if s[i] == '.' {
        Some(i)
    } else {
        first_dot_from(s, i + 1)
    }
}

/// The three segments of a compact token: present exactly when `s` holds
/// exactly two dots, and then the parts before, between and after them.
pub open spec fn spec_segments(s: Seq<char>) -> Option<(Seq<char>, Seq<char>, Seq<char>)> {
    match first_dot_from(s, 0) {
        None => None,
        Some(i) => match first_dot_from(s, i + 1) {
            None => None,
            Some(j) => if first_dot_from(s, j + 1) is Some {
                None
            } else {
                Some((s.subrange(0, i), s.subrange(i + 1, j), s.subrange(j + 1, s.len() as int)))
            },
        },
    }
}

/// Finds the first dot at or after `from`, scanning left to right.
fn find_dot(token: &str, from: usize, len: usize) -> (r: Option<usize>)
    requires
        from <= token@.len(),
        len == token@.len(),
    ensures
        match r {
            Some(i) => first_dot_from(token@, from as int) == Some(i as int) && from <= i
                < token@.len(),
            None => first_dot_from(token@, from as int) is None,
        },
{
    let mut idx: usize = from;
    while idx < len
        invariant
            from <= idx <= len,
            len == token@.len(),
            first_dot_from(token@, from as int) == first_dot_from(token@, idx as int),
        decreases len - idx,
    {
        if token.get_char(idx) == '.' {
            return Some(idx);
        }
        idx = idx + 1;
    }
    None
}

/// Splits a compact token into its three segments.
///
/// Yields the segments exactly when the token holds exactly two dots.
pub fn split_token<'a>(token: &'a str) -> (r: Option<(&'a str, &'a str, &'a str)>)
    ensures
        match r {
            Some(segs) => spec_segments(token@) == Some((segs.0@, segs.1@, segs.2@)),
            None => spec_segments(token@) is None,
        },
{
    let len = token.unicode_len();
    let i = match find_dot(token, 0, len) {
        Some(i) => i,
        None => { return None },
    };
    let j = match find_dot(token, i + 1, len) {
        Some(j) => j,
        None => { return None },
    };
    if find_dot(token, j + 1, len).is_some() {
        return None;
    }
    let head = token.substring_char(0, i);
    let mid = token.substring_char(i + 1, j);
    let tail = token.substring_char(j + 1, len);
    Some((head, mid, tail))
}

/// The bytes the unpadded base64url text `text` encodes, if it is such.
pub uninterp spec fn b64url_bytes(text: Seq<char>) -> Option<Seq<u8>>;

/// Relies on base64's `URL_SAFE_NO_PAD` engine: strict decoding of
/// unpadded base64url text; the result depends on the text alone.
#[verifier::external_body]
pub fn b64url_decode(text: &str) -> (r: Option<Vec<u8>>)
    ensures
        (r is Some) == (b64url_bytes(text@) is Some),
        r matches Some(b) ==> b64url_bytes(text@) == Some(b@),
{
    base64::engine::general_purpose::URL_SAFE_NO_PAD.decode(text).ok()
}

/// The member `key` of a token's decoded header object.
pub open spec fn spec_header_member(token: Seq<char>, key: Seq<char>) -> Option<Seq<char>> {
    match spec_segments(token) {
        None => None,
        Some(segs) => match b64url_bytes(segs.0) {
            None => None,
            Some(hb) => json_str(hb, key),
        },
    }
}

/// The decoded first segment of a compact token, before any verification:
/// the signing algorithm it names, and the key identifier if one is named.
#[derive(Debug)]
pub struct UnverifiedHeader {
    pub alg: String,
    pub kid: Option<String>,
}

/// Decodes a compact token's header segment.
///
/// The segment must be present, base64url text, and a JSON object naming
/// an algorithm; each failure keeps its own fault.
pub fn decode_header(token: &str) -> (r: Result<UnverifiedHeader, AuthError>)
    ensures
        match r {
            Ok(h) => {
                &&& spec_header_member(token@, "alg"@) == Some(h.alg@)
                &&& match h.kid {
                    Some(k) => spec_header_member(token@, "kid"@) == Some(k@),
                    None => spec_header_member(token@, "kid"@) is None,
                }
            },
            Err(e) => match e {
                AuthError::TokenFormat(TokenFault::WrongSegmentCount) => spec_segments(token@)
                    is None,
                AuthError::TokenFormat(TokenFault::BadBase64) => spec_segments(token@) is Some
                    && b64url_bytes(spec_segments(token@)->Some_0.0) is None,
                AuthError::TokenFormat(TokenFault::MalformedHeader) => spec_segments(token@)
                    is Some && b64url_bytes(spec_segments(token@)->Some_0.0) is Some
                    && spec_header_member(token@, "alg"@) is None,
                _ => false,
            },
        },
{
    let segs = match split_token(token) {
        Some(segs) => segs,
        None => { return Err(AuthError::TokenFormat(TokenFault::WrongSegmentCount)) },
    };
    let header_bytes = match b64url_decode(segs.0) {
        Some(b) => b,
        None => { return Err(AuthError::TokenFormat(TokenFault::BadBase64)) },
    };
    let alg = match get_json_str(header_bytes.as_slice(), "alg") {
        Some(a) => a,
        None => { return Err(AuthError::TokenFormat(TokenFault::MalformedHeader)) },
    };
    let kid = get_json_str(header_bytes.as_slice(), "kid");
    Ok(UnverifiedHeader { alg, kid })
}

/// The position of the first key in `keys` at or after `i` whose
/// identifier is `kid`.
pub open spec fn first_key_match_from(keys: Seq<KeyView>, kid: Seq<char>, i: int) -> Option<int>
    decreases keys.len() - i,
{
    if i < 0 || i >= keys.len() {
        None
    } else if keys[i].kid == kid {
        Some(i)
    } else {
        first_key_match_from(keys, kid, i + 1)
    }
}

proof fn lemma_unique_match_from(keys: Seq<KeyView>, kid: Seq<char>, i: int, s: int)
    requires
        0 <= s <= i < keys.len(),
        keys[i].kid == kid,
        forall|j: int| s <= j < keys.len() && j != i ==> #[trigger] keys[j].kid != kid,
    ensures
        first_key_match_from(keys, kid, s) == Some(i),
    decreases i - s,
{
    if s < i {
        lemma_unique_match_from(keys, kid, i, s + 1);
    }
}

/// When exactly one key of the set carries the identifier, the
/// first-match rule picks precisely that key: with a well-formed
/// provider, resolution returns the unique element with the token's
/// `kid`.
pub proof fn lemma_unique_match_is_found(keys: Seq<KeyView>, kid: Seq<char>, i: int)
    requires
        0 <= i < keys.len(),
        keys[i].kid == kid,
        forall|j: int| 0 <= j < keys.len() && j != i ==> #[trigger] keys[j].kid != kid,
    ensures
        first_key_match_from(keys, kid, 0) == Some(i),
{
    lemma_unique_match_from(keys, kid, i, 0);
}

/// Picks the signing key a token names out of a published key set.
///
/// The header must name a key identifier, and the first key carrying it
/// wins; a header without one, or an identifier no key carries, each keep
/// their own fault.
pub fn resolve<'a>(token: &str, keys: &'a Vec<Key>) -> (r: Result<&'a Key, AuthError>)
    ensures
        match r {
            Ok(k) => {
                &&& spec_header_member(token@, "alg"@) is Some
                &&& spec_header_member(token@, "kid"@) matches Some(kid)
                &&& first_key_match_from(keys.deep_view(), kid, 0) matches Some(i)
                &&& 0 <= i < keys.deep_view().len() && k@ == keys.deep_view()[i]
            },
            Err(e) => match e {
                AuthError::KeyResolution(ResolveFault::MissingKeyId) => spec_header_member(
                    token@,
                    "alg"@,
                ) is Some && spec_header_member(token@, "kid"@) is None,
                AuthError::KeyResolution(ResolveFault::NoMatchingKey) => spec_header_member(
                    token@,
                    "kid"@,
                ) matches Some(kid) && first_key_match_from(keys.deep_view(), kid, 0) is None,
                AuthError::TokenFormat(_) => spec_header_member(token@, "alg"@) is None,
                _ => false,
            },
        },
{
    let header = decode_header(token)?;
    proof {
        assert(spec_header_member(token@, "alg"@) is Some);
    }
    let kid = match header.kid {
        Some(k) => k,
        None => { return Err(AuthError::KeyResolution(ResolveFault::MissingKeyId)) },
    };
    let mut i: usize = 0;
    while i < keys.len()
        invariant
            i <= keys@.len(),
            spec_header_member(token@, "alg"@) is Some,
            spec_header_member(token@, "kid"@) == Some(kid@),
            first_key_match_from(keys.deep_view(), kid@, 0) == first_key_match_from(
                keys.deep_view(),
                kid@,
                i as int,
            ),
        decreases keys@.len() - i,
    {
        if keys[i].kid.eq(&kid) {
            proof {
                assert(keys.deep_view()[i as int] == keys@[i as int]@);
                assert(first_key_match_from(keys.deep_view(), kid@, i as int) == Some(i as int));
            }
            return Ok(&keys[i]);
        }
        i = i + 1;
    }
    Err(AuthError::KeyResolution(ResolveFault::NoMatchingKey))
}

} // verus!
