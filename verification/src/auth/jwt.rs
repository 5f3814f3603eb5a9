//! The calls into the token, JSON and clock crates that the session authority
//! rests on. Verus takes the contracts in this file on trust.

use vstd::prelude::*;

verus! {

/// The claims read from a token's payload. A claim is `None` where the payload
/// lacks it or holds something that is no integer of the claim's type.
pub struct Claims {
    /// The subject: the id of the identity that the token was issued for.
    pub sub: Option<i64>,
    /// The expiry, in seconds since the Unix epoch.
    pub exp: Option<u64>,
}

/// The token that a signing with HS512 under `secret` gives for the claims
/// `sub` and `exp`.
pub uninterp spec fn hs512_token(secret: Seq<char>, sub: int, exp: int) -> Seq<char>;

/// The claims `sub` and `exp` of a token whose HS512 signature verifies under
/// `secret`, as a decoding reads them from its payload: a claim is `None`
/// where the payload lacks it or holds something that is no integer of the
/// claim's type. It is `None` for a token that is no token of three parts,
/// or whose signature is not the one that `secret` gives. The expiry is not
/// held against any clock here.
pub uninterp spec fn verified_claims(secret: Seq<char>, token: Seq<char>) -> Option<Claims>;

/// Calls `jsonwebtoken::encode` with an HS512 header, the claims `sub` and
/// `exp` in this order, and the bytes of `secret` as the key. The token is a
/// function of these three alone: the header and the claims as JSON in
/// base64, and their HMAC under the key, joined by dots, so it is not empty.
/// Its signature verifies under the same key and its payload holds the two
/// claims as they were given, so a decoding with the key reads them back.
/// With a key for HMAC, a header made for HS512 and two numbers as claims
/// the call has no path that fails: the key is of the header's family, an
/// HMAC takes a key of any length, and the two parts are written as JSON
/// without an error. The signing is that of the RustCrypto provider, the
/// only one the crate is built with; nothing installs another.
#[verifier::external_body]
pub(crate) fn encode_hs512(secret: &str, sub: i32, exp: u64) -> (r: Option<String>)
    ensures
        r is Some,
        r matches Some(token) ==> token@ == hs512_token(secret@, sub as int, exp as int)
            && token@.len() > 0 && verified_claims(secret@, token@) == Some(
            Claims { sub: Some(sub as i64), exp: Some(exp) },
        ),
{
    let mut claims = serde_json::Map::new();
    claims.insert("sub".to_string(), serde_json::Value::from(sub));
    claims.insert("exp".to_string(), serde_json::Value::from(exp));
    jsonwebtoken::encode(
        &jsonwebtoken::Header::new(jsonwebtoken::Algorithm::HS512),
        &claims,
        &jsonwebtoken::EncodingKey::from_secret(secret.as_bytes()),
    ).ok()
}

/// Calls `jsonwebtoken::decode` for HS512 with the bytes of `secret` as the
/// key and the default validation, which checks the signature and, against
/// the system clock, the expiry. Whether it succeeds depends on the time, so
/// nothing is claimed of that. Where it succeeds the signature has verified
/// under `secret`, and the claims that it hands out are those of the token's
/// payload, `sub` read with `as_i64` and `exp` with `as_u64`. A token that it
/// refuses is `None`. The decoding panics where the clock stands before the
/// Unix epoch.
#[verifier::external_body]
pub(crate) fn decode_hs512(token: &str, secret: &str) -> (r: Option<Claims>)
    ensures
        r matches Some(claims) ==> verified_claims(secret@, token@) == Some(claims),
{
    match jsonwebtoken::decode::<serde_json::Value>(
        token,
        &jsonwebtoken::DecodingKey::from_secret(secret.as_bytes()),
        &jsonwebtoken::Validation::new(jsonwebtoken::Algorithm::HS512),
    ) {
        Ok(data) => Some(Claims {
            sub: match data.claims.get("sub") { Some(v) => v.as_i64(), None => None },
            exp: match data.claims.get("exp") { Some(v) => v.as_u64(), None => None },
        }),
        Err(_) => None,
    }
}

/// Calls `chrono::Utc::now` and reads the seconds since the Unix epoch with
/// `timestamp`. The clock decides the value; it is never negative, as `now`
/// measures from the epoch and panics where the clock stands before it, and
/// it stays within the days that a date of chrono counts in 32 bits.
#[verifier::external_body]
pub(crate) fn current_timestamp() -> (r: i64)
    ensures
        0 <= r < 0x8000_0000 * 86_400,
{
    chrono::Utc::now().timestamp()
}

} // verus!
