//! The error taxonomy's transport mappings, the outward record shapes, and
//! the RPC projection.

use user_directory::errors::AppError;
use user_directory::models::{Timestamp, User, UserResponse};
use user_directory::proto::ProtoTimestamp;

fn sample_user() -> User {
    User {
        id: 7,
        email: "a@x.com".to_string(),
        username: "alice".to_string(),
        password_hash: "$2b$12$abcdefghijklmnopqrstuv".to_string(),
        full_name: Some("Alice".to_string()),
        is_active: true,
        is_verified: false,
        created_at: Timestamp { seconds: 1_700_000_000, nanos: 123_456_789 },
        updated_at: Timestamp { seconds: 1_700_000_001, nanos: 5 },
    }
}

#[test]
fn status_codes_cover_the_taxonomy() {
    assert_eq!(AppError::InternalServerError.status_code(), 500);
    assert_eq!(AppError::BadRequest("x".to_string()).status_code(), 400);
    assert_eq!(AppError::Unauthorized.status_code(), 401);
    assert_eq!(AppError::Forbidden.status_code(), 403);
    assert_eq!(AppError::NotFound("x".to_string()).status_code(), 404);
    assert_eq!(AppError::Conflict("x".to_string()).status_code(), 409);
    assert_eq!(AppError::UnprocessableEntity("x".to_string()).status_code(), 422);
    assert_eq!(AppError::DatabaseError("x".to_string()).status_code(), 500);
    assert_eq!(AppError::ValidationError("x".to_string()).status_code(), 400);
    assert_eq!(AppError::JwtError.status_code(), 401);
    assert_eq!(AppError::HashError.status_code(), 500);
}

#[test]
fn messages_carry_their_detail() {
    assert_eq!(AppError::InternalServerError.message(), "Internal Server Error");
    assert_eq!(AppError::BadRequest("oops".to_string()).message(), "Bad Request: oops");
    assert_eq!(AppError::NotFound("User not found".to_string()).message(),
        "Not Found: User not found");
    assert_eq!(AppError::Conflict("taken".to_string()).message(), "Conflict: taken");
    assert_eq!(AppError::ValidationError("bad".to_string()).message(), "Validation error: bad");
    assert_eq!(AppError::JwtError.message(), "JWT error");
    assert_eq!(AppError::HashError.message(), "Hash error");
    assert_eq!(AppError::DatabaseError("io".to_string()).message(), "Database error");
}

#[test]
fn error_response_bundles_code_line_and_message() {
    let body = AppError::NotFound("User not found".to_string()).error_response();
    assert_eq!(body.code, 404);
    assert_eq!(body.error, "404 Not Found");
    assert_eq!(body.message, "Not Found: User not found");
    let body = AppError::Unauthorized.error_response();
    assert_eq!(body.code, 401);
    assert_eq!(body.error, "401 Unauthorized");
    assert_eq!(body.message, "Unauthorized");
}

#[test]
fn grpc_statuses_cover_the_taxonomy() {
    assert_eq!(AppError::InternalServerError.grpc_status().0, 13);
    assert_eq!(AppError::Unauthorized.grpc_status().0, 16);
    assert_eq!(AppError::Forbidden.grpc_status().0, 7);
    assert_eq!(
        AppError::NotFound("User not found".to_string()).grpc_status(),
        (5, "User not found".to_string())
    );
    assert_eq!(
        AppError::Conflict("taken".to_string()).grpc_status(),
        (6, "taken".to_string())
    );
    assert_eq!(
        AppError::ValidationError("bad".to_string()).grpc_status(),
        (3, "bad".to_string())
    );
    assert_eq!(AppError::JwtError.grpc_status(), (16, "Invalid token".to_string()));
    assert_eq!(AppError::HashError.grpc_status(), (13, "Authentication error".to_string()));
    assert_eq!(
        AppError::DatabaseError("io".to_string()).grpc_status(),
        (13, "Database error".to_string())
    );
}

#[test]
fn user_response_drops_exactly_the_private_fields() {
    let resp = UserResponse::from(sample_user());
    assert_eq!(resp.id, 7);
    assert_eq!(resp.email, "a@x.com");
    assert_eq!(resp.username, "alice");
    assert_eq!(resp.full_name, Some("Alice".to_string()));
    assert!(resp.is_active);
    assert!(!resp.is_verified);
    assert_eq!(resp.created_at, Timestamp { seconds: 1_700_000_000, nanos: 123_456_789 });
    assert!(!format!("{:?}", resp).contains("$2b$12$"));
}

#[test]
fn proto_projection_renders_the_canonical_id_text() {
    let user = sample_user();
    let msg = user.to_proto();
    assert_eq!(msg.id, "00000000-0000-0000-0000-000000000007");
    assert_eq!(msg.id.len(), 36);
    assert_eq!(msg.email, "a@x.com");
    assert_eq!(msg.username, "alice");
    assert_eq!(msg.full_name, Some("Alice".to_string()));
    assert_eq!(
        msg.created_at,
        Some(ProtoTimestamp { seconds: 1_700_000_000, nanos: 123_456_789 })
    );
    assert_eq!(msg.updated_at, Some(ProtoTimestamp { seconds: 1_700_000_001, nanos: 5 }));
    assert!(!format!("{:?}", msg).contains("$2b$12$"));
}

#[test]
fn proto_projection_admits_leap_second_nanos() {
    let mut user = sample_user();
    // During a leap second a clock can report up to 1_999_999_999 nanos.
    user.created_at = Timestamp { seconds: 1_483_228_799, nanos: 1_999_999_999 };
    let msg = user.to_proto();
    assert_eq!(
        msg.created_at,
        Some(ProtoTimestamp { seconds: 1_483_228_799, nanos: 1_999_999_999 })
    );
}
