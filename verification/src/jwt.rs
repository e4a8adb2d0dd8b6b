//! The token codec: issues and validates signed, time-bounded identity
//! tokens, built on the jsonwebtoken crate (HS256 over a shared secret).
//!
//! The codec itself never reads a clock: callers pass the current epoch
//! second, and expiry is checked here with an exclusive boundary — a token
//! whose expiry equals "now" is already invalid, with no leeway granted.

use vstd::prelude::*;
use crate::errors::{AppError, AppResult};
use crate::models::Claims;

verus! {

/// The token that signing the claims `(sub, email, iat, exp)` with `secret`
/// produces. Header, claim serialization, base64 and the HMAC signature are
/// all deterministic, so the token is a function of these five values alone.
pub uninterp spec fn token_of(
    sub: u128,
    email: Seq<char>,
    iat: u64,
    exp: u64,
    secret: Seq<char>,
) -> Seq<char>;

/// What validating `token` against `secret` yields: the claims
/// `(sub, email, iat, exp)` carried by a well-formed token whose signature
/// verifies, and `None` otherwise. Expiry is deliberately not consulted
/// here, so the result depends on the two arguments alone.
pub uninterp spec fn decode_of(token: Seq<char>, secret: Seq<char>) -> Option<
    (u128, Seq<char>, u64, u64),
>;

/// Relies on `jsonwebtoken::encode` with the default HS256 header and a
/// secret-keyed HMAC: the claims object is serialized with its keys in a
/// fixed order, so equal inputs give equal tokens; a produced token is
/// non-empty, and `jsonwebtoken::decode` with the same secret recovers
/// exactly the claims that were signed. For this configuration the call
/// always succeeds: the key family matches the header's algorithm, the
/// HMAC accepts a key of any length, and serializing a string-keyed map
/// of strings and integers cannot fail.
#[verifier::external_body]
fn jwt_encode(sub: u128, email: &str, iat: u64, exp: u64, secret: &str) -> (r: Option<String>)
    ensures
        r is Some,
        r matches Some(t) ==> t@ == token_of(sub, email@, iat, exp, secret@) && t@.len() > 0
            && decode_of(t@, secret@) == Some((sub, email@, iat, exp)),
{
    let mut claims = serde_json::Map::new();
    claims.insert("sub".to_string(), serde_json::Value::from(uuid::Uuid::from_u128(sub).to_string()));
    claims.insert("email".to_string(), serde_json::Value::from(email));
    claims.insert("iat".to_string(), serde_json::Value::from(iat));
    claims.insert("exp".to_string(), serde_json::Value::from(exp));
    let key = jsonwebtoken::EncodingKey::from_secret(secret.as_bytes());
    jsonwebtoken::encode(&jsonwebtoken::Header::default(), &claims, &key).ok()
}

/// Relies on `jsonwebtoken::decode` with expiry validation turned off: it
/// checks the token's structure and its HMAC signature against the secret
/// and deserializes the claims, consulting no clock, so the outcome is
/// deterministic in `(token, secret)`.
#[verifier::external_body]
fn jwt_decode(token: &str, secret: &str) -> (r: Option<(u128, String, u64, u64)>)
    ensures
        r matches Some(c) ==> decode_of(token@, secret@) == Some((c.0, c.1@, c.2, c.3)),
        r is None ==> decode_of(token@, secret@) is None,
{
    let mut validation = jsonwebtoken::Validation::default();
    validation.validate_exp = false;
    let key = jsonwebtoken::DecodingKey::from_secret(secret.as_bytes());
    let data = jsonwebtoken::decode::<serde_json::Map<String, serde_json::Value>>(token, &key, &validation).ok()?;
    let sub = uuid::Uuid::parse_str(data.claims.get("sub")?.as_str()?).ok()?.as_u128();
    let email = data.claims.get("email")?.as_str()?.to_string();
    let iat = data.claims.get("iat")?.as_u64()?;
    let exp = data.claims.get("exp")?.as_u64()?;
    Some((sub, email, iat, exp))
}

/// Issue a token for the subject, valid from `now` (exclusive at the far
/// end) for `ttl_seconds`. Issuance always succeeds: the result is
/// exactly the signed encoding of `(user_id, email, now, now +
/// ttl_seconds)`, and validating it against the same secret yields those
/// claims back, with expiry strictly after issuance.
pub fn create_jwt_token(
    user_id: u128,
    email: &str,
    secret: &str,
    ttl_seconds: u64,
    now: u64,
) -> (r: AppResult<String>)
    requires
        ttl_seconds >= 1,
        now + ttl_seconds <= u64::MAX,
    ensures
        r matches Ok(t) && t@ == token_of(user_id, email@, now, (now + ttl_seconds) as u64, secret@)
            && t@.len() > 0
            && decode_of(t@, secret@) == Some((user_id, email@, now, (now + ttl_seconds) as u64)),
{
    let exp = now + ttl_seconds;
    match jwt_encode(user_id, email, now, exp, secret) {
        Some(t) => Ok(t),
        None => Err(AppError::JwtError),
    }
}

/// Validate a token against the secret at time `now`. Returns the claims
/// exactly when the token's signature and structure check out and its
/// expiry lies strictly in the future; an expired, tampered or malformed
/// token yields `JwtError`, with expiry inclusive on the invalid side.
pub fn decode_jwt_token(token: &str, secret: &str, now: u64) -> (r: AppResult<Claims>)
    ensures
        r matches Ok(c) ==> decode_of(token@, secret@) == Some((c.sub, c.email@, c.iat, c.exp))
            && now < c.exp,
        r matches Err(e) ==> e == AppError::JwtError,
        decode_of(token@, secret@) is None ==> r is Err,
        r is Err ==> (decode_of(token@, secret@) matches Some(c) ==> c.3 <= now),
        decode_of(token@, secret@) matches Some(c) ==> (now < c.3 ==> (r matches Ok(k)
            && k.sub == c.0 && k.email@ == c.1 && k.iat == c.2 && k.exp == c.3)),
{
    match jwt_decode(token, secret) {
        Some((sub, email, iat, exp)) => {
            if now < exp {
                Ok(Claims { sub, email, exp, iat })
            } else {
                Err(AppError::JwtError)
            }
        },
        None => Err(AppError::JwtError),
    }
}

} // verus!
