//! The error translation boundary: statuses pass through, server-side
//! detail is redacted, and the gateway's named failures carry the statuses
//! the middleware expects.

use session_core::cache::SessionCache;
use session_core::error::{
    map_err, AuthError, ErrorKind, PostgrestError, SupabaseError,
};
use session_core::provider::{AccessToken, Claims, TokenCheck};
use session_core::session_store::{StoreError, SupabaseBackend};
use session_core::user_identity::AssuranceLevel;

fn auth_err(status: u16, msg: Option<&str>, description: Option<&str>) -> SupabaseError {
    SupabaseError {
        http_status: status,
        kind: ErrorKind::Auth(AuthError {
            msg: msg.map(|s| s.to_string()),
            error_description: description.map(|s| s.to_string()),
        }),
    }
}

fn pg_err(status: u16, message: &str, code: &str) -> SupabaseError {
    SupabaseError {
        http_status: status,
        kind: ErrorKind::Postgrest(PostgrestError {
            message: message.to_string(),
            code: code.to_string(),
        }),
    }
}

#[test]
fn server_fault_auth_detail_is_redacted() {
    let out = map_err(auth_err(500, Some("secret backend detail"), Some("more detail")));
    assert_eq!(out.status, 500);
    assert_eq!(out.message, " Oops! Something went wrong on our end.");
}

#[test]
fn client_fault_auth_description_passes_through() {
    let out = map_err(auth_err(400, Some("raw message"), Some("Invalid login credentials")));
    assert_eq!(out.status, 400);
    assert_eq!(out.message, "Invalid login credentials");
}

#[test]
fn client_fault_auth_falls_back_to_msg_then_empty() {
    let out = map_err(auth_err(403, Some("raw message"), None));
    assert_eq!(out.message, "raw message");
    let out2 = map_err(auth_err(403, None, None));
    assert_eq!(out2.message, "");
}

#[test]
fn server_fault_postgrest_keeps_only_the_code() {
    let out = map_err(pg_err(503, "relation does not exist: private.users", "42P01"));
    assert_eq!(out.status, 503);
    assert_eq!(out.message, "42P01");
}

#[test]
fn client_fault_postgrest_message_passes_through() {
    let out = map_err(pg_err(404, "row not found", "PGRST116"));
    assert_eq!(out.message, "row not found");
}

#[test]
fn boundary_status_499_is_not_redacted() {
    let out = map_err(auth_err(499, None, Some("kept")));
    assert_eq!(out.message, "kept");
}

fn grant() -> AccessToken {
    AccessToken {
        access_token: "a".to_string(),
        refresh_token: "r".to_string(),
        user_id: "u".to_string(),
        email: "e@x".to_string(),
    }
}

#[test]
fn new_session_with_invalid_token_is_403() {
    let b = SupabaseBackend::new(SessionCache::new(4));
    let err = b
        .new_session(&grant(), &TokenCheck::Invalid, 0)
        .expect_err("invalid token must be refused");
    assert_eq!(err.http_status, 403);
    assert!(matches!(err.kind, ErrorKind::Auth(_)));
}

#[test]
fn new_session_without_correlated_row_is_404() {
    let b = SupabaseBackend::new(SessionCache::new(4));
    let check = TokenCheck::Valid(Claims {
        session_id: "unknown-sb".to_string(),
        aal: AssuranceLevel::Basic,
    });
    let err = b
        .new_session(&grant(), &check, 0)
        .expect_err("a grant without its pre-inserted row must be refused");
    assert_eq!(err.http_status, 404);
    assert!(matches!(err.kind, ErrorKind::Postgrest(_)));
}

#[test]
fn create_refuses_corrupt_payload_by_name() {
    let mut b = SupabaseBackend::new(SessionCache::new(4));
    let rec = session_core::session_record::SessionRecord {
        id: "S1".to_string(),
        data: "not a payload".chars().collect(),
        expiry_date: 0,
    };
    let check = TokenCheck::Valid(Claims {
        session_id: "sb".to_string(),
        aal: AssuranceLevel::Basic,
    });
    assert_eq!(b.create(&rec, &check), Err(StoreError::CorruptPayload));
    assert_eq!(b.session_row_count(), 0);
}

#[test]
fn create_refuses_invalid_token_by_name() {
    let mut b = SupabaseBackend::new(SessionCache::new(4));
    let rec = session_core::user_identity::IdentityData {
        auth_token: "a".to_string(),
        refresh_token: "r".to_string(),
        expiry_date: 0,
        last_accessed: 0,
        user_id: "u".to_string(),
        email: "e".to_string(),
        has_mfa: false,
        aal: AssuranceLevel::Basic,
    }
    .into_session_record(&"S1".to_string());
    assert_eq!(b.create(&rec, &TokenCheck::Expired), Err(StoreError::InvalidToken));
    assert_eq!(b.session_row_count(), 0);
}
