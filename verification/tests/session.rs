use openposterdb_api::auth::hash_refresh_token;
use openposterdb_api::session::{refresh_step, RefreshAction, RefreshEvent, RefreshState, StoredRefresh};

const NOW: i64 = 1_704_164_645;

fn stored(expires_at: &str) -> RefreshEvent {
    RefreshEvent::Stored(Some(StoredRefresh::from_row(7, 3, expires_at)))
}

#[test]
fn stored_expiry_is_read_as_utc() {
    let s = StoredRefresh::from_row(7, 3, "2024-01-02 03:04:05");
    assert_eq!(s.expires_at, Ok((NOW, 0)));
    assert!(StoredRefresh::from_row(7, 3, "tomorrow").expires_at.is_err());
}

#[test]
fn missing_cookie_is_rejected() {
    let (s, a) = refresh_step(RefreshState::Start, RefreshEvent::Cookie(None), NOW, 0);
    assert_eq!(s, RefreshState::Done);
    assert!(matches!(a, RefreshAction::Reject));
}

#[test]
fn cookie_token_is_looked_up_by_hash() {
    let (s, a) = refresh_step(RefreshState::Start, RefreshEvent::Cookie(Some("tok".into())), NOW, 0);
    assert_eq!(s, RefreshState::AwaitStored);
    match a {
        RefreshAction::Lookup(h) => assert_eq!(h, hash_refresh_token("tok")),
        _ => panic!("expected a lookup"),
    }
}

#[test]
fn unknown_token_is_rejected() {
    let (s, a) = refresh_step(RefreshState::AwaitStored, RefreshEvent::Stored(None), NOW, 0);
    assert_eq!(s, RefreshState::Done);
    assert!(matches!(a, RefreshAction::Reject));
}

#[test]
fn expired_token_is_deleted_then_rejected() {
    let (s, a) = refresh_step(RefreshState::AwaitStored, stored("2024-01-02 03:04:04"), NOW, 0);
    assert_eq!(s, RefreshState::Done);
    assert!(matches!(a, RefreshAction::DeleteThenReject(7)));
    // Expiring at this very second counts as expired once the second has begun.
    let (_, a) = refresh_step(RefreshState::AwaitStored, stored("2024-01-02 03:04:05"), NOW, 1);
    assert!(matches!(a, RefreshAction::DeleteThenReject(7)));
}

#[test]
fn valid_token_rotates() {
    let (s, a) = refresh_step(RefreshState::AwaitStored, stored("2024-01-02 03:04:05"), NOW, 0);
    assert_eq!(s, RefreshState::AwaitUser { old_id: 7, user_id: 3 });
    assert!(matches!(a, RefreshAction::FindUser(3)));
    let (s, a) = refresh_step(s, RefreshEvent::User(true), NOW, 0);
    assert_eq!(s, RefreshState::Done);
    assert!(matches!(a, RefreshAction::IssueThenDelete { old_id: 7, user_id: 3 }));
    let (_, a) = refresh_step(RefreshState::AwaitUser { old_id: 7, user_id: 3 }, RefreshEvent::User(false), NOW, 0);
    assert!(matches!(a, RefreshAction::Reject));
}

#[test]
fn unreadable_expiry_is_a_database_error() {
    let (s, a) = refresh_step(RefreshState::AwaitStored, stored("soon"), NOW, 0);
    assert_eq!(s, RefreshState::Done);
    match a {
        RefreshAction::DbError(m) => assert!(m.starts_with("Invalid expiry format: ")),
        _ => panic!("expected a database error"),
    }
}

#[test]
fn out_of_order_event_is_rejected() {
    let (s, a) = refresh_step(RefreshState::Start, RefreshEvent::User(true), NOW, 0);
    assert_eq!(s, RefreshState::Done);
    assert!(matches!(a, RefreshAction::Reject));
}
