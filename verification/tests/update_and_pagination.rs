//! The update-patch builder over every combination of set fields, the
//! self-only gate on updates, and the pagination window.

use user_directory::errors::AppError;
use user_directory::models::{Identity, PaginationParams, Timestamp, UpdateUser, User};
use user_directory::pagination::{offset_for, paginate_users, resolve_pagination, total_pages};
use user_directory::service::update_user;
use user_directory::update_builder::{build_update, SqlValue};

fn patch(
    email: Option<&str>,
    username: Option<&str>,
    full_name: Option<&str>,
    is_active: Option<bool>,
) -> UpdateUser {
    UpdateUser {
        email: email.map(|s| s.to_string()),
        username: username.map(|s| s.to_string()),
        full_name: full_name.map(|s| s.to_string()),
        is_active,
    }
}

/// The placeholder numbers that appear in a statement, in text order.
fn placeholder_numbers(sql: &str) -> Vec<u32> {
    let bytes = sql.as_bytes();
    let mut out = Vec::new();
    for i in 0..bytes.len() {
        if bytes[i] == b'$' {
            out.push((bytes[i + 1] - b'0') as u32);
        }
    }
    out
}

#[test]
fn all_unset_patch_is_a_noop_that_still_touches_updated_at() {
    let stmt = build_update(7, &patch(None, None, None, None));
    assert_eq!(stmt.sql, "UPDATE users SET updated_at = NOW() WHERE id = $1 RETURNING *");
    assert_eq!(stmt.params.len(), 1);
    assert!(matches!(stmt.params[0], SqlValue::Id(7)));
}

#[test]
fn fully_set_patch_binds_five_parameters_in_field_order() {
    let stmt = build_update(9, &patch(Some("b@x.com"), Some("bob"), Some("Bob"), Some(false)));
    assert_eq!(
        stmt.sql,
        "UPDATE users SET updated_at = NOW(), email = $1, username = $2, full_name = $3, \
         is_active = $4 WHERE id = $5 RETURNING *"
    );
    assert_eq!(stmt.params.len(), 5);
    assert!(matches!(&stmt.params[0], SqlValue::Text(s) if s == "b@x.com"));
    assert!(matches!(&stmt.params[1], SqlValue::Text(s) if s == "bob"));
    assert!(matches!(&stmt.params[2], SqlValue::Text(s) if s == "Bob"));
    assert!(matches!(stmt.params[3], SqlValue::Flag(false)));
    assert!(matches!(stmt.params[4], SqlValue::Id(9)));
}

#[test]
fn sparse_patch_renumbers_without_gaps() {
    let stmt = build_update(3, &patch(None, Some("bob"), None, Some(true)));
    assert_eq!(
        stmt.sql,
        "UPDATE users SET updated_at = NOW(), username = $1, is_active = $2 \
         WHERE id = $3 RETURNING *"
    );
    assert_eq!(stmt.params.len(), 3);
    assert!(matches!(&stmt.params[0], SqlValue::Text(s) if s == "bob"));
    assert!(matches!(stmt.params[1], SqlValue::Flag(true)));
    assert!(matches!(stmt.params[2], SqlValue::Id(3)));
}

#[test]
fn every_combination_has_contiguous_placeholders_and_matching_param_count() {
    for mask in 0u32..16 {
        let p = patch(
            if mask & 1 != 0 { Some("b@x.com") } else { None },
            if mask & 2 != 0 { Some("bob") } else { None },
            if mask & 4 != 0 { Some("Bob") } else { None },
            if mask & 8 != 0 { Some(true) } else { None },
        );
        let set_fields = mask.count_ones() as usize;
        let stmt = build_update(11, &p);
        // Parameter count is always (set fields) + 1.
        assert_eq!(stmt.params.len(), set_fields + 1, "mask {}", mask);
        // The id is always bound last.
        assert!(matches!(stmt.params[set_fields], SqlValue::Id(11)));
        // Placeholders are exactly $1 .. $(n) in order, with no gap.
        let numbers = placeholder_numbers(&stmt.sql);
        let expected: Vec<u32> = (1..=set_fields as u32 + 1).collect();
        assert_eq!(numbers, expected, "mask {}", mask);
    }
}

#[test]
fn update_by_another_subject_is_forbidden_and_builds_no_statement() {
    let u1 = Identity { subject_id: 1, subject_email: "a@x.com".to_string() };
    let p = patch(Some("new@x.com"), None, None, None);
    // Identity U1 targets record U2: refused outright, so nothing can change.
    let r = update_user(&u1, 2, &p);
    assert_eq!(r.unwrap_err(), AppError::Forbidden);
}

#[test]
fn update_by_the_owner_with_a_bad_patch_is_a_validation_error() {
    let u1 = Identity { subject_id: 1, subject_email: "a@x.com".to_string() };
    let r = update_user(&u1, 1, &patch(Some("not-an-email"), None, None, None));
    assert!(matches!(r.unwrap_err(), AppError::ValidationError(_)));
}

#[test]
fn update_by_the_owner_builds_the_statement() {
    let u1 = Identity { subject_id: 1, subject_email: "a@x.com".to_string() };
    let stmt = update_user(&u1, 1, &patch(Some("new@x.com"), None, None, None)).unwrap();
    assert_eq!(
        stmt.sql,
        "UPDATE users SET updated_at = NOW(), email = $1 WHERE id = $2 RETURNING *"
    );
    assert_eq!(stmt.params.len(), 2);
}

#[test]
fn pagination_defaults_and_window() {
    let explicit = PaginationParams { page: Some(3), limit: Some(10) };
    assert_eq!(resolve_pagination(&explicit), (3, 10));
    let absent = PaginationParams { page: None, limit: None };
    assert_eq!(resolve_pagination(&absent), (1, 20));
    assert_eq!(PaginationParams::default(), PaginationParams { page: Some(1), limit: Some(20) });

    assert_eq!(offset_for(1, 20), 0);
    assert_eq!(offset_for(3, 10), 20);
    assert_eq!(offset_for(u32::MAX, u32::MAX), (u32::MAX as u64 - 1) * u32::MAX as u64);
}

#[test]
fn total_pages_is_the_ceiling() {
    assert_eq!(total_pages(0, 20), 0);
    assert_eq!(total_pages(1, 20), 1);
    assert_eq!(total_pages(20, 20), 1);
    assert_eq!(total_pages(21, 20), 2);
    assert_eq!(total_pages(199, 20), 10);
    assert_eq!(total_pages(1, 1), 1);
    assert_eq!(total_pages(i64::MAX, 1), u32::MAX);
}

#[test]
fn a_listing_page_echoes_rows_in_order_without_hashes() {
    let users = vec![
        User {
            id: 1,
            email: "a@x.com".to_string(),
            username: "alice".to_string(),
            password_hash: "h1".to_string(),
            full_name: Some("Alice".to_string()),
            is_active: true,
            is_verified: true,
            created_at: Timestamp { seconds: 10, nanos: 0 },
            updated_at: Timestamp { seconds: 11, nanos: 0 },
        },
        User {
            id: 2,
            email: "b@x.com".to_string(),
            username: "bob".to_string(),
            password_hash: "h2".to_string(),
            full_name: None,
            is_active: false,
            is_verified: false,
            created_at: Timestamp { seconds: 20, nanos: 0 },
            updated_at: Timestamp { seconds: 21, nanos: 0 },
        },
    ];
    let page = paginate_users(&users, 42, 2, 20);
    assert_eq!(page.data.len(), 2);
    assert_eq!(page.data[0].id, 1);
    assert_eq!(page.data[0].email, "a@x.com");
    assert_eq!(page.data[0].full_name, Some("Alice".to_string()));
    assert_eq!(page.data[1].id, 2);
    assert_eq!(page.data[1].username, "bob");
    assert_eq!(page.data[1].full_name, None);
    assert_eq!(page.total, 42);
    assert_eq!(page.page, 2);
    assert_eq!(page.limit, 20);
    assert_eq!(page.total_pages, 3);
    assert!(!format!("{:?}", page).contains("h1"));
}
