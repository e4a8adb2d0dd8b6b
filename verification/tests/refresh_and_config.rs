//! The token-refresh flow, settings well-formedness, and the remaining
//! request shapes.

use user_directory::config::{DatabaseSettings, JwtSettings, ServerSettings, Settings};
use user_directory::errors::AppError;
use user_directory::jwt::{create_jwt_token, decode_jwt_token};
use user_directory::middleware::RequestId;
use user_directory::models::{LoginRequest, RefreshTokenRequest, Timestamp, UpdateUser, User};
use user_directory::service::{get_user_by_id, login_response};
use user_directory::validation::{validate_login_request, validate_update_user};

const SECRET: &str = "test-secret";

fn sample_user() -> User {
    User {
        id: 7,
        email: "a@x.com".to_string(),
        username: "alice".to_string(),
        password_hash: "$2b$12$abcdefghijklmnopqrstuv".to_string(),
        full_name: None,
        is_active: true,
        is_verified: false,
        created_at: Timestamp { seconds: 1_700_000_000, nanos: 0 },
        updated_at: Timestamp { seconds: 1_700_000_000, nanos: 0 },
    }
}

#[test]
fn refresh_scenario_redeems_a_pair_without_the_password() {
    let user = sample_user();
    let first = login_response(user, SECRET, 3600, 86400, 1_700_000_000).unwrap();
    // The client later presents only the refresh token.
    let request = RefreshTokenRequest { refresh_token: first.refresh_token };
    let claims = decode_jwt_token(&request.refresh_token, SECRET, 1_700_080_000).unwrap();
    assert_eq!(claims.sub, 7);
    assert_eq!(claims.exp, 1_700_000_000 + 86400);
    // The access token would already be expired at that time.
    assert!(decode_jwt_token(&first.access_token, SECRET, 1_700_080_000).is_err());
    // A fresh pair is issued for the subject the claims name.
    let user = get_user_by_id(Some(sample_user())).unwrap();
    assert_eq!(user.id, claims.sub);
    let fresh = login_response(user, SECRET, 3600, 86400, 1_700_080_000).unwrap();
    assert!(!fresh.access_token.is_empty());
    assert!(decode_jwt_token(&fresh.access_token, SECRET, 1_700_080_001).is_ok());
}

#[test]
fn access_and_refresh_tokens_share_shape_but_not_expiry() {
    let user = sample_user();
    let resp = login_response(user, SECRET, 3600, 86400, 1_000_000).unwrap();
    let access = decode_jwt_token(&resp.access_token, SECRET, 1_000_001).unwrap();
    let refresh = decode_jwt_token(&resp.refresh_token, SECRET, 1_000_001).unwrap();
    assert_eq!(access.sub, refresh.sub);
    assert_eq!(access.email, refresh.email);
    assert_eq!(access.iat, refresh.iat);
    assert_eq!(access.exp, 1_000_000 + 3600);
    assert_eq!(refresh.exp, 1_000_000 + 86400);
}

#[test]
fn ttl_must_be_positive_for_a_valid_token() {
    // A one-second lifetime is the shortest that yields a usable token.
    let token = create_jwt_token(1, "a@x.com", SECRET, 1, 500).unwrap();
    assert!(decode_jwt_token(&token, SECRET, 500).is_ok());
    assert!(decode_jwt_token(&token, SECRET, 501).is_err());
}

#[test]
fn settings_well_formedness() {
    let good = Settings {
        server: ServerSettings { host: "0.0.0.0".to_string(), port: 50051 },
        database: DatabaseSettings { url: "postgres://localhost".to_string(), max_connections: 10 },
        jwt: JwtSettings {
            secret: "s".to_string(),
            access_token_expiry: 3600,
            refresh_token_expiry: 86400,
        },
    };
    assert!(good.jwt.is_well_formed());
    let bad = JwtSettings {
        secret: "s".to_string(),
        access_token_expiry: 0,
        refresh_token_expiry: 86400,
    };
    assert!(!bad.is_well_formed());
}

#[test]
fn update_patch_validation() {
    let noop = UpdateUser { email: None, username: None, full_name: None, is_active: None };
    assert!(validate_update_user(&noop).is_ok());
    let good = UpdateUser {
        email: Some("b@x.com".to_string()),
        username: Some("bobby".to_string()),
        full_name: Some("Bob".to_string()),
        is_active: Some(false),
    };
    assert!(validate_update_user(&good).is_ok());
    let bad_email = UpdateUser {
        email: Some("nope".to_string()),
        username: None,
        full_name: None,
        is_active: None,
    };
    assert!(matches!(validate_update_user(&bad_email).unwrap_err(),
        AppError::ValidationError(_)));
    let bad_username = UpdateUser {
        email: None,
        username: Some("ab".to_string()),
        full_name: None,
        is_active: None,
    };
    assert!(matches!(validate_update_user(&bad_username).unwrap_err(),
        AppError::ValidationError(_)));
}

#[test]
fn login_request_validation() {
    let good = LoginRequest { email: "a@x.com".to_string(), password: "whatever".to_string() };
    assert!(validate_login_request(&good).is_ok());
    let empty = LoginRequest { email: "".to_string(), password: "whatever".to_string() };
    match validate_login_request(&empty) {
        Err(AppError::ValidationError(m)) => assert_eq!(m, "Invalid email format"),
        other => panic!("expected a validation error, got {:?}", other),
    }
    let no_at = LoginRequest { email: "ax.com".to_string(), password: "whatever".to_string() };
    assert!(validate_login_request(&no_at).is_err());
}

#[test]
fn request_id_marker_installs() {
    let _marker: RequestId = RequestId::new();
}
