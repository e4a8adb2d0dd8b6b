//! Data model of the user directory: records, request and response shapes,
//! token claims, and pagination parameters.

use vstd::prelude::*;

verus! {

/// An instant, as seconds since the Unix epoch plus a subsecond part.
#[derive(Debug, Clone, Copy, PartialEq, Eq, Structural)]
pub struct Timestamp {
    pub seconds: i64,
    pub nanos: u32,
}

/// One identity record of the directory. `password_hash` is never serialized
/// outward: no response shape below carries it.
#[derive(Debug)]
pub struct User {
    pub id: u128,
    pub email: String,
    pub username: String,
    pub password_hash: String,
    pub full_name: Option<String>,
    pub is_active: bool,
    pub is_verified: bool,
    pub created_at: Timestamp,
    pub updated_at: Timestamp,
}

/// The shape a client submits to register or create a user.
#[derive(Debug)]
pub struct CreateUser {
    pub email: String,
    pub username: String,
    pub password: String,
    pub full_name: Option<String>,
}

/// A sparse edit: every field is either unset (leave unchanged) or set to a
/// new value. An all-unset patch is a legal no-op that still refreshes the
/// updated-at column.
#[derive(Debug)]
pub struct UpdateUser {
    pub email: Option<String>,
    pub username: Option<String>,
    pub full_name: Option<String>,
    pub is_active: Option<bool>,
}

/// The credential pair presented at login; never persisted.
#[derive(Debug)]
pub struct LoginRequest {
    pub email: String,
    pub password: String,
}

/// What a transport returns after a successful login, registration or
/// token refresh.
#[derive(Debug)]
pub struct LoginResponse {
    pub access_token: String,
    pub refresh_token: String,
    pub token_type: String,
    pub expires_in: i64,
    pub user: UserResponse,
}

/// A record as echoed to clients: every attribute of [`User`] except the
/// password hash and the updated-at column.
#[derive(Debug)]
pub struct UserResponse {
    pub id: u128,
    pub email: String,
    pub username: String,
    pub full_name: Option<String>,
    pub is_active: bool,
    pub is_verified: bool,
    pub created_at: Timestamp,
}

/// The outward projection of a record.
pub open spec fn user_response_of(user: User) -> UserResponse {
    UserResponse {
        id: user.id,
        email: user.email,
        username: user.username,
        full_name: user.full_name,
        is_active: user.is_active,
        is_verified: user.is_verified,
        created_at: user.created_at,
    }
}

impl From<User> for UserResponse {
    fn from(user: User) -> (r: UserResponse) {
        UserResponse {
            id: user.id,
            email: user.email,
            username: user.username,
            full_name: user.full_name,
            is_active: user.is_active,
            is_verified: user.is_verified,
            created_at: user.created_at,
        }
    }
}

impl vstd::std_specs::convert::FromSpecImpl<User> for UserResponse {
    open spec fn obeys_from_spec() -> bool {
        true
    }

    open spec fn from_spec(user: User) -> UserResponse {
        user_response_of(user)
    }
}

/// The decoded payload of a token: subject id and email, issued-at and
/// expiry as epoch seconds. A claims value is derived from a token, never
/// stored.
#[derive(Debug)]
pub struct Claims {
    pub sub: u128,
    pub email: String,
    pub exp: u64,
    pub iat: u64,
}

/// The authenticated subject bound to a request after its token validated.
#[derive(Debug)]
pub struct Identity {
    pub subject_id: u128,
    pub subject_email: String,
}

/// The page/limit pair a client may pass to a listing; either may be absent.
#[derive(Debug, Clone, Copy, PartialEq, Eq, Structural)]
pub struct PaginationParams {
    pub page: Option<u32>,
    pub limit: Option<u32>,
}

impl Default for PaginationParams {
    fn default() -> (r: Self)
        ensures
            r.page == Some(1u32),
            r.limit == Some(20u32),
    {
        Self { page: Some(1), limit: Some(20) }
    }
}

/// One page of results together with the window that produced it.
#[derive(Debug)]
pub struct PaginatedResponse<T> {
    pub data: Vec<T>,
    pub total: i64,
    pub page: u32,
    pub limit: u32,
    pub total_pages: u32,
}

/// The body of a token-refresh request.
#[derive(Debug)]
pub struct RefreshTokenRequest {
    pub refresh_token: String,
}

/// The body of a liveness probe response.
#[derive(Debug)]
pub struct HealthResponse {
    pub status: String,
    pub version: String,
    pub timestamp: String,
}

/// The body of a readiness probe response.
#[derive(Debug)]
pub struct ReadinessResponse {
    pub status: String,
    pub database: String,
    pub timestamp: String,
}

} // verus!
