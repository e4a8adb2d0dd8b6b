//! The authorization gate: extracts a bearer token from an inbound header
//! value, validates it, and binds the resulting identity; and the
//! self-only rule that gates mutations of a specific record.

use vstd::prelude::*;
use vstd::string::*;
use crate::errors::AppError;
use crate::jwt::{decode_jwt_token, decode_of};
use crate::models::Identity;

verus! {

/// Whether a header value begins with the literal scheme prefix
/// `"Bearer "` — case-sensitive, single space.
pub open spec fn has_bearer_prefix(h: Seq<char>) -> bool {
    h.len() >= 7 && h.subrange(0, 7) == "Bearer "@
}

/// The token part of a header value that carries the scheme prefix.
pub open spec fn bearer_token_of(h: Seq<char>) -> Seq<char> {
    h.subrange(7, h.len() as int)
}

/// Strip the `"Bearer "` scheme prefix from a header value, returning the
/// token exactly when the prefix is present.
pub fn extract_bearer_token(header: &str) -> (r: Option<&str>)
    ensures
        has_bearer_prefix(header@) ==> (r matches Some(t) && t@ == bearer_token_of(header@)),
        !has_bearer_prefix(header@) ==> r is None,
{
    proof {
        reveal_strlit("Bearer ");
    }
    let len = header.unicode_len();
    if len < 7 {
        return None;
    }
    let bearer = "Bearer ";
    let mut i: usize = 0;
    while i < 7
        invariant
            0 <= i <= 7,
            header@.len() >= 7,
            bearer@ == "Bearer "@,
            bearer@.len() == 7,
            forall|j: int| 0 <= j < i ==> header@[j] == "Bearer "@[j],
        decreases 7 - i,
    {
        if header.get_char(i) != bearer.get_char(i) {
            proof {
                assert(header@.subrange(0, 7)[i as int] != "Bearer "@[i as int]);
            }
            return None;
        }
        i += 1;
    }
    proof {
        assert(header@.subrange(0, 7) =~= "Bearer "@);
    }
    Some(header.substring_char(7, len))
}

/// Authenticate an inbound request from its authorization header value.
/// Succeeds exactly when the header is present, carries the `"Bearer "`
/// scheme, and its token validates against the secret with an unexpired
/// claim set; the identity bound on success is the token's subject. Every
/// failure collapses to `Unauthorized`, so a caller cannot tell a missing
/// header from a bad scheme or an invalid token.
pub fn authenticate(header: Option<&str>, secret: &str, now: u64) -> (r: Result<
    Identity,
    AppError,
>)
    ensures
        r matches Err(e) ==> e == AppError::Unauthorized,
        header is None ==> r is Err,
        header matches Some(h) ==> {
            let d = decode_of(bearer_token_of(h@), secret@);
            &&& (r matches Ok(ident) ==> has_bearer_prefix(h@) && (d matches Some(c)
                && c.0 == ident.subject_id && c.1 == ident.subject_email@ && now < c.3))
            &&& (has_bearer_prefix(h@) ==> (match d {
                Some(c) => now < c.3 ==> (r matches Ok(ident) && ident.subject_id == c.0
                    && ident.subject_email@ == c.1),
                None => r is Err,
            }))
            &&& (!has_bearer_prefix(h@) ==> r is Err)
        },
{
    match header {
        None => Err(AppError::Unauthorized),
        Some(h) => match extract_bearer_token(h) {
            None => Err(AppError::Unauthorized),
            Some(token) => match decode_jwt_token(token, secret, now) {
                Ok(claims) => Ok(Identity {
                    subject_id: claims.sub,
                    subject_email: claims.email,
                }),
                Err(_) => Err(AppError::Unauthorized),
            },
        },
    }
}

/// The self-only mutation rule: allowed exactly when the authenticated
/// subject is the record being acted on. No role or admin override exists.
pub fn authorize_self(identity: &Identity, target_id: u128) -> (r: Result<(), AppError>)
    ensures
        r is Ok <==> identity.subject_id == target_id,
        r matches Err(e) ==> e == AppError::Forbidden,
{
    if identity.subject_id == target_id {
        Ok(())
    } else {
        Err(AppError::Forbidden)
    }
}

/// The RPC-side interceptor: the same gate as [`authenticate`], applied to
/// the request's authorization metadata value. A request passes exactly
/// when that value carries the `"Bearer "` scheme and an unexpired token
/// that validates against the service secret; the identity it binds is
/// handed to the service methods behind it.
pub fn auth_interceptor(auth_header: Option<&str>, secret: &str, now: u64) -> (r: Result<
    Identity,
    AppError,
>)
    ensures
        r matches Err(e) ==> e == AppError::Unauthorized,
        auth_header is None ==> r is Err,
        auth_header matches Some(h) ==> {
            let d = decode_of(bearer_token_of(h@), secret@);
            &&& (r matches Ok(ident) ==> has_bearer_prefix(h@) && (d matches Some(c)
                && c.0 == ident.subject_id && c.1 == ident.subject_email@ && now < c.3))
            &&& (has_bearer_prefix(h@) ==> (match d {
                Some(c) => now < c.3 ==> (r matches Ok(ident) && ident.subject_id == c.0
                    && ident.subject_email@ == c.1),
                None => r is Err,
            }))
            &&& (!has_bearer_prefix(h@) ==> r is Err)
        },
{
    authenticate(auth_header, secret, now)
}

} // verus!
