//! Shape validation of inbound request bodies: email format and field
//! length rules, mirroring what the transports enforce before an operation
//! runs.

use vstd::prelude::*;
use vstd::string::*;
use crate::errors::{AppError, AppResult};
use crate::models::{CreateUser, LoginRequest, UpdateUser};

verus! {

/// Whether a string is a well-formed email address under the HTML5 rules
/// the validator crate implements: a deterministic function of the string.
pub uninterp spec fn email_ok(s: Seq<char>) -> bool;

/// Relies on the validator crate's `ValidateEmail` for `&str`: a pure check
/// of the string against the HTML5 email shape; the empty string is
/// rejected.
#[verifier::external_body]
fn check_email(s: &str) -> (r: bool)
    ensures
        r == email_ok(s@),
        s@.len() == 0 ==> !r,
{
    validator::ValidateEmail::validate_email(&s)
}

/// A registration body is well-formed when the email has email shape, the
/// username is 3 to 50 characters, and the password at least 8.
pub open spec fn create_user_valid(c: CreateUser) -> bool {
    &&& email_ok(c.email@)
    &&& 3 <= c.username@.len() <= 50
    &&& c.password@.len() >= 8
}

/// An update patch is well-formed when each set field obeys the same rule
/// the registration shape imposes on it.
pub open spec fn update_user_valid(u: UpdateUser) -> bool {
    &&& (u.email matches Some(e) ==> email_ok(e@))
    &&& (u.username matches Some(n) ==> 3 <= n@.len() <= 50)
}

/// A login body is well-formed when the email has email shape.
pub open spec fn login_request_valid(l: LoginRequest) -> bool {
    email_ok(l.email@)
}

/// Validate a registration body: `Ok` exactly on well-formed input, and a
/// `ValidationError` naming the first offending field otherwise.
pub fn validate_create_user(c: &CreateUser) -> (r: AppResult<()>)
    ensures
        r is Ok <==> create_user_valid(*c),
        r matches Err(e) ==> e matches AppError::ValidationError(_),
        !email_ok(c.email@) ==> (r matches Err(e) && e matches AppError::ValidationError(m)
            && m@ == "Invalid email format"@),
        email_ok(c.email@) && !(3 <= c.username@.len() <= 50) ==> (r matches Err(e)
            && e matches AppError::ValidationError(m)
            && m@ == "Username must be between 3 and 50 characters"@),
        email_ok(c.email@) && 3 <= c.username@.len() <= 50 && c.password@.len() < 8 ==> (
        r matches Err(e) && e matches AppError::ValidationError(m)
            && m@ == "Password must be at least 8 characters"@),
{
    if !check_email(c.email.as_str()) {
        return Err(AppError::ValidationError(String::from_str("Invalid email format")));
    }
    let username_len = c.username.as_str().unicode_len();
    if username_len < 3 || username_len > 50 {
        return Err(AppError::ValidationError(
            String::from_str("Username must be between 3 and 50 characters"),
        ));
    }
    if c.password.as_str().unicode_len() < 8 {
        return Err(AppError::ValidationError(
            String::from_str("Password must be at least 8 characters"),
        ));
    }
    Ok(())
}

/// Validate an update patch: `Ok` exactly when every set field is
/// well-formed.
pub fn validate_update_user(u: &UpdateUser) -> (r: AppResult<()>)
    ensures
        r is Ok <==> update_user_valid(*u),
        r matches Err(e) ==> e matches AppError::ValidationError(_),
{
    match &u.email {
        Some(e) => {
            if !check_email(e.as_str()) {
                return Err(AppError::ValidationError(String::from_str("Invalid email format")));
            }
        },
        None => {},
    }
    match &u.username {
        Some(n) => {
            let username_len = n.as_str().unicode_len();
            if username_len < 3 || username_len > 50 {
                return Err(AppError::ValidationError(
                    String::from_str("Username must be between 3 and 50 characters"),
                ));
            }
        },
        None => {},
    }
    Ok(())
}

/// Validate a login body: `Ok` exactly when the email has email shape.
pub fn validate_login_request(l: &LoginRequest) -> (r: AppResult<()>)
    ensures
        r is Ok <==> login_request_valid(*l),
        r matches Err(e) ==> (e matches AppError::ValidationError(m)
            && m@ == "Invalid email format"@),
{
    if !check_email(l.email.as_str()) {
        return Err(AppError::ValidationError(String::from_str("Invalid email format")));
    }
    Ok(())
}

} // verus!
