use std::sync::Arc;

use openposterdb_api::error::AppError;

fn status_of(err: AppError) -> u16 {
    err.status_code()
}

#[test]
fn invalid_id_type_is_400() {
    assert_eq!(status_of(AppError::InvalidIdType("x".into())), 400);
}

#[test]
fn id_not_found_is_404() {
    assert_eq!(status_of(AppError::IdNotFound("x".into())), 404);
}

#[test]
fn unauthorized_is_401() {
    assert_eq!(status_of(AppError::Unauthorized), 401);
}

#[test]
fn forbidden_is_403() {
    assert_eq!(status_of(AppError::Forbidden("x".into())), 403);
}

#[test]
fn bad_request_is_400() {
    assert_eq!(status_of(AppError::BadRequest("x".into())), 400);
}

#[test]
fn db_error_is_500() {
    assert_eq!(status_of(AppError::DbError("x".into())), 500);
}

#[test]
fn other_is_500() {
    assert_eq!(status_of(AppError::Other("x".into())), 500);
}

#[test]
fn internal_errors_redact_details() {
    let msg = AppError::DbError("connection refused to 10.0.0.5:5432".into()).response_message();
    assert_eq!(msg, "Internal server error");
}

#[test]
fn internal_error_other_redacts_details() {
    let msg = AppError::Other("secret internal info".into()).response_message();
    assert_eq!(msg, "Internal server error");
}

#[test]
fn client_errors_preserve_message() {
    let msg = AppError::BadRequest("missing field".into()).response_message();
    assert_eq!(msg, "missing field");
}

#[test]
fn from_cached_sole_owner_preserves_variant() {
    let arc = Arc::new(AppError::IdNotFound("no logo available".into()));
    assert_eq!(status_of(AppError::from_cached(arc)), 404);
}

#[test]
fn from_cached_shared_arc_preserves_client_status() {
    // The concurrent-waiter case: each waiter holds a clone of the same Arc,
    // so the error cannot be moved out. This must still yield a 404.
    let arc = Arc::new(AppError::IdNotFound("no logo available".into()));
    let _waiter = arc.clone();
    assert_eq!(status_of(AppError::from_cached(arc)), 404);
}

#[test]
fn from_cached_shared_arc_collapses_internal_to_500() {
    let arc = Arc::new(AppError::DbError("connection refused".into()));
    let _waiter = arc.clone();
    assert_eq!(status_of(AppError::from_cached(arc)), 500);
}

// --- own tests ---

#[test]
fn display_strings_follow_variant_prefixes() {
    assert_eq!(AppError::InvalidIdType("x".into()).to_display_string(), "invalid id type: x");
    assert_eq!(AppError::IdNotFound("x".into()).to_display_string(), "id not found: x");
    assert_eq!(AppError::Unauthorized.to_display_string(), "unauthorized");
    assert_eq!(AppError::Forbidden("x".into()).to_display_string(), "forbidden: x");
    assert_eq!(AppError::BadRequest("x".into()).to_display_string(), "bad request: x");
    assert_eq!(AppError::DbError("x".into()).to_display_string(), "database error: x");
    assert_eq!(AppError::Other("x".into()).to_display_string(), "x");
}

#[test]
fn unauthorized_message_is_fixed() {
    assert_eq!(AppError::Unauthorized.response_message(), "Unauthorized");
}

#[test]
fn from_shared_keeps_client_errors_and_collapses_internal_ones() {
    let e = AppError::Forbidden("nope".into()).from_shared();
    assert_eq!(e.status_code(), 403);
    assert_eq!(e.response_message(), "nope");
    let e = AppError::DbError("boom".into()).from_shared();
    assert_eq!(e.status_code(), 500);
    assert_eq!(e.to_display_string(), "database error: boom");
}

#[test]
fn from_cached_sole_owner_keeps_internal_detail() {
    let arc = Arc::new(AppError::DbError("disk full".into()));
    let e = AppError::from_cached(arc);
    assert_eq!(e.to_display_string(), "database error: disk full");
}
