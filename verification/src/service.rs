//! The user-directory operations, as decision functions: each takes what
//! the backing store reported for one step and decides the outcome of that
//! step. The surrounding transport performs the store calls and feeds the
//! results in, so every rule here is checked for all store behaviours.

use vstd::prelude::*;
use vstd::string::*;
use crate::auth::authorize_self;
use crate::errors::{AppError, AppResult};
use crate::hash::{bcrypt_check, hash_password, verify_password};
use crate::jwt::{create_jwt_token, token_of};
use crate::models::{CreateUser, Identity, LoginResponse, UpdateUser, User, UserResponse};
use crate::pagination::echoes;
use crate::update_builder::{
    build_update, set_field_count, spec_update_params, spec_update_sql, views_of,
    ParameterizedStatement,
};
use crate::validation::{update_user_valid, validate_update_user};

verus! {

/// The row a registration inserts: the submitted attributes with the
/// password replaced by its digest. The digest is never empty.
#[derive(Debug)]
pub struct NewUserRecord {
    pub email: String,
    pub username: String,
    pub password_hash: String,
    pub full_name: Option<String>,
}

/// Decide a registration after the store was asked whether the email or
/// username is already taken. A taken pair is a `Conflict`; otherwise the
/// password is hashed and the row to insert is returned, its digest
/// matching the submitted password.
pub fn create_user(data: CreateUser, exists: bool) -> (r: AppResult<NewUserRecord>)
    ensures
        exists ==> (r matches Err(e) && e matches AppError::Conflict(m)
            && m@ == "User with this email or username already exists"@),
        !exists ==> (match r {
            Ok(row) => row.email@ == data.email@ && row.username@ == data.username@
                && row.password_hash@.len() == 60
                && bcrypt_check(data.password@, row.password_hash@) == Some(true)
                && (match (row.full_name, data.full_name) {
                (Some(a), Some(b)) => a@ == b@,
                (None, None) => true,
                _ => false,
            }),
            Err(e) => e == AppError::HashError,
        }),
{
    if exists {
        return Err(AppError::Conflict(
            String::from_str("User with this email or username already exists"),
        ));
    }
    let password_hash = hash_password(data.password.as_str())?;
    Ok(NewUserRecord {
        email: data.email,
        username: data.username,
        password_hash,
        full_name: data.full_name,
    })
}

/// Decide a lookup by id: the record when the store found one, `NotFound`
/// when it did not.
pub fn get_user_by_id(found: Option<User>) -> (r: AppResult<User>)
    ensures
        found matches Some(u) ==> r == Ok::<User, AppError>(u),
        found is None ==> (r matches Err(e) && e matches AppError::NotFound(m)
            && m@ == "User not found"@),
{
    match found {
        Some(u) => Ok(u),
        None => Err(AppError::NotFound(String::from_str("User not found"))),
    }
}

/// Decide a lookup by email: the record when the store found one,
/// `NotFound` when it did not.
pub fn get_user_by_email(found: Option<User>) -> (r: AppResult<User>)
    ensures
        found matches Some(u) ==> r == Ok::<User, AppError>(u),
        found is None ==> (r matches Err(e) && e matches AppError::NotFound(m)
            && m@ == "User not found"@),
{
    match found {
        Some(u) => Ok(u),
        None => Err(AppError::NotFound(String::from_str("User not found"))),
    }
}

/// Decide a login after the store was asked for the record behind the
/// submitted email. An unknown email and a wrong password give the same
/// `Unauthorized` signal, so a caller cannot enumerate accounts; a
/// deactivated account is `Forbidden`; otherwise the record is returned.
pub fn verify_user_credentials(found: Option<User>, password: &str) -> (r: AppResult<User>)
    ensures
        found is None ==> r == Err::<User, AppError>(AppError::Unauthorized),
        found matches Some(u) ==> (if !u.is_active {
            r == Err::<User, AppError>(AppError::Forbidden)
        } else if bcrypt_check(password@, u.password_hash@) == Some(true) {
            r == Ok::<User, AppError>(u)
        } else {
            r == Err::<User, AppError>(AppError::Unauthorized)
        }),
{
    match found {
        None => Err(AppError::Unauthorized),
        Some(u) => {
            if !u.is_active {
                return Err(AppError::Forbidden);
            }
            let ok = verify_password(password, u.password_hash.as_str())?;
            if ok {
                Ok(u)
            } else {
                Err(AppError::Unauthorized)
            }
        },
    }
}

/// Decide an update request: the self-only rule first, then the patch's
/// shape, and only then is the parameterized statement built. A caller
/// acting on another subject's record gets `Forbidden` and no statement,
/// so the record cannot change.
pub fn update_user(identity: &Identity, target_id: u128, patch: &UpdateUser) -> (r: AppResult<
    ParameterizedStatement,
>)
    ensures
        identity.subject_id != target_id ==> r == Err::<ParameterizedStatement, AppError>(
            AppError::Forbidden,
        ),
        identity.subject_id == target_id && !update_user_valid(*patch) ==> (r matches Err(e)
            && e matches AppError::ValidationError(_)),
        identity.subject_id == target_id && update_user_valid(*patch) ==> (r matches Ok(stmt)
            && stmt.sql@ == spec_update_sql(*patch)
            && views_of(stmt.params@) == spec_update_params(*patch, target_id)
            && stmt.params@.len() == set_field_count(*patch) + 1),
{
    authorize_self(identity, target_id)?;
    validate_update_user(patch)?;
    Ok(build_update(target_id, patch))
}

/// Decide a deletion from how many rows the store removed: zero means the
/// id never existed.
pub fn delete_user(rows_affected: u64) -> (r: AppResult<()>)
    ensures
        rows_affected == 0 ==> (r matches Err(e) && e matches AppError::NotFound(m)
            && m@ == "User not found"@),
        rows_affected > 0 ==> r == Ok::<(), AppError>(()),
{
    if rows_affected == 0 {
        return Err(AppError::NotFound(String::from_str("User not found")));
    }
    Ok(())
}

/// Assemble the identity payload returned after a login, registration or
/// refresh: an access token and a refresh token over the same claim shape
/// but different lifetimes, the scheme name, the access lifetime in
/// seconds, and the record echoed without its password hash. Assembly
/// always succeeds.
pub fn login_response(
    user: User,
    secret: &str,
    access_ttl: u64,
    refresh_ttl: u64,
    now: u64,
) -> (r: AppResult<LoginResponse>)
    requires
        1 <= access_ttl <= i64::MAX,
        1 <= refresh_ttl,
        now + access_ttl <= u64::MAX,
        now + refresh_ttl <= u64::MAX,
    ensures
        r matches Ok(resp) && resp.access_token@ == token_of(
            user.id,
            user.email@,
            now,
            (now + access_ttl) as u64,
            secret@,
        ) && resp.access_token@.len() > 0 && resp.refresh_token@ == token_of(
            user.id,
            user.email@,
            now,
            (now + refresh_ttl) as u64,
            secret@,
        ) && resp.refresh_token@.len() > 0 && resp.token_type@ == "Bearer"@ && resp.expires_in
            == access_ttl as i64 && echoes(resp.user, user),
{
    let access_token = create_jwt_token(user.id, user.email.as_str(), secret, access_ttl, now)?;
    let refresh_token = create_jwt_token(user.id, user.email.as_str(), secret, refresh_ttl, now)?;
    let expires_in = access_ttl as i64;
    Ok(LoginResponse {
        access_token,
        refresh_token,
        token_type: String::from_str("Bearer"),
        expires_in,
        user: UserResponse::from(user),
    })
}

} // verus!
