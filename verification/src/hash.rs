//! One-way password hashing and verification, built on the bcrypt crate.
//!
//! A digest produced here embeds its own salt and cost, so checking a
//! password against a digest is a deterministic function of the pair.

use vstd::prelude::*;
use crate::errors::{AppError, AppResult};

verus! {

/// What `bcrypt::verify(password, digest)` returns: `Some(b)` when the digest
/// parses as a bcrypt hash and `b` says whether the password matches it,
/// `None` when the digest is malformed. The salt and cost are read from the
/// digest itself, so the result depends on the two arguments alone.
pub uninterp spec fn bcrypt_check(password: Seq<char>, digest: Seq<char>) -> Option<bool>;

/// Relies on `bcrypt::hash` with the crate's default cost: on success it
/// returns a 60-character digest over a fresh random salt, and
/// `bcrypt::verify` of the same password against that digest returns
/// `Ok(true)`. It fails only when the operating system's randomness source
/// does.
#[verifier::external_body]
fn bcrypt_hash(password: &str) -> (r: Option<String>)
    ensures
        r matches Some(h) ==> h@.len() == 60 && bcrypt_check(password@, h@) == Some(true),
{
    bcrypt::hash(password, bcrypt::DEFAULT_COST).ok()
}

/// Relies on `bcrypt::verify`: it re-derives the hash from the password and
/// the salt and cost stored in the digest, and compares in constant time;
/// it errs exactly when the digest does not parse as a bcrypt hash.
#[verifier::external_body]
fn bcrypt_verify(password: &str, digest: &str) -> (r: Option<bool>)
    ensures
        r == bcrypt_check(password@, digest@),
{
    bcrypt::verify(password, digest).ok()
}

/// Hash a plaintext password for storage. Fails only with `HashError`, on a
/// catastrophic internal error of the hasher; never on weak input.
pub fn hash_password(password: &str) -> (r: AppResult<String>)
    ensures
        r matches Ok(h) ==> h@.len() == 60 && bcrypt_check(password@, h@) == Some(true),
        r matches Err(e) ==> e == AppError::HashError,
{
    match bcrypt_hash(password) {
        Some(h) => Ok(h),
        None => Err(AppError::HashError),
    }
}

/// Check a plaintext password against a stored digest. A mismatch and a
/// malformed digest both yield `false`; this never fails.
pub fn verify_password(password: &str, hash: &str) -> (r: AppResult<bool>)
    ensures
        r matches Ok(b) && b == (bcrypt_check(password@, hash@) == Some(true)),
{
    match bcrypt_verify(password, hash) {
        Some(b) => Ok(b),
        None => Ok(false),
    }
}

} // verus!
