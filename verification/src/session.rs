//! Refresh-token rotation: the decisions of a refresh request, as a state
//! machine that the server drives with what the cookie and the database say.
//! A refresh token is single-use: a valid one is exchanged for a new token
//! pair, and the old one is deleted only after the new pair is issued.

use crate::auth::{hash_refresh_token, token_hash};
use vstd::prelude::*;
use vstd::string::*;

verus! {

/// What `NaiveDateTime::parse_from_str(s, "%Y-%m-%d %H:%M:%S")` answers for a
/// stored expiry text: the instant as UTC seconds and nanoseconds (a leap
/// second carries nanoseconds of a billion or more), or the parse error's
/// message.
pub uninterp spec fn db_timestamp(s: Seq<char>) -> Result<(i64, u32), Seq<char>>;

/// `chrono::NaiveDateTime::parse_from_str` with the database's timestamp
/// format, read as a UTC instant (`and_utc().timestamp()` and
/// `timestamp_subsec_nanos()`). The result is named as a function of the text;
/// an error carries the message chrono renders.
#[verifier::external_body]
fn parse_db_timestamp(s: &str) -> (r: Result<(i64, u32), String>)
    ensures
        match r {
            Ok(t) => db_timestamp(s@) == Ok::<(i64, u32), Seq<char>>(t),
            Err(e) => db_timestamp(s@) == Err::<(i64, u32), Seq<char>>(e@),
        },
{
    match chrono::NaiveDateTime::parse_from_str(s, "%Y-%m-%d %H:%M:%S") {
        Ok(t) => Ok((t.and_utc().timestamp(), t.and_utc().timestamp_subsec_nanos())),
        Err(e) => Err(e.to_string()),
    }
}

/// A stored refresh token, as the refresh step reads it.
pub struct StoredRefresh {
    pub id: i32,
    pub user_id: i32,
    /// The expiry instant (UTC seconds, nanoseconds), or why the stored text
    /// could not be read.
    pub expires_at: Result<(i64, u32), String>,
}

impl StoredRefresh {
    /// Reads a stored refresh-token row; its expiry is stored as
    /// `%Y-%m-%d %H:%M:%S` text in UTC.
    pub fn from_row(id: i32, user_id: i32, expires_at: &str) -> (r: StoredRefresh)
        ensures
            r.id == id,
            r.user_id == user_id,
            match r.expires_at {
                Ok(t) => db_timestamp(expires_at@) == Ok::<(i64, u32), Seq<char>>(t),
                Err(e) => db_timestamp(expires_at@) == Err::<(i64, u32), Seq<char>>(e@),
            },
    {
        StoredRefresh { id, user_id, expires_at: parse_db_timestamp(expires_at) }
    }
}

/// Where a refresh request stands.
#[derive(Debug, Clone, Copy, PartialEq, Eq, Structural)]
pub enum RefreshState {
    /// Nothing read yet.
    Start,
    /// The token's hash is being looked up.
    AwaitStored,
    /// The token is valid; its user is being looked up.
    AwaitUser { old_id: i32, user_id: i32 },
    /// The request is answered.
    Done,
}

/// What the server learned since the last step.
pub enum RefreshEvent {
    /// The refresh token carried by the request's cookie, if any.
    Cookie(Option<String>),
    /// The stored token with the looked-up hash, if any.
    Stored(Option<StoredRefresh>),
    /// Whether the token's user exists.
    User(bool),
}

/// What the server does next.
pub enum RefreshAction {
    /// Answer 401 Unauthorized.
    Reject,
    /// Look up the stored token with this hash.
    Lookup(String),
    /// Delete the expired token (committing), then answer 401.
    DeleteThenReject(i32),
    /// Look up the user the token belongs to.
    FindUser(i32),
    /// Issue a new token pair for the user, then delete the old token
    /// (single use), commit, and answer with the new pair.
    IssueThenDelete { old_id: i32, user_id: i32 },
    /// Answer with a database error carrying this message.
    DbError(String),
}

/// Whether an expiry instant lies strictly before the present one.
pub open spec fn before(expiry: (i64, u32), now_secs: i64, now_nanos: u32) -> bool {
    expiry.0 < now_secs || (expiry.0 == now_secs && expiry.1 < now_nanos)
}

/// One step of a refresh request, from `state` on `event`, at the present
/// instant `now_secs`/`now_nanos` (UTC):
/// - no cookie, no stored token, or no user: 401;
/// - a cookie: look up the hash of its token;
/// - an unreadable stored expiry: a database error `Invalid expiry format: ..`;
/// - an expired token: delete it, then 401;
/// - a valid token: look up its user, then issue a new pair before deleting
///   the old token.
///
/// An event that does not fit the state answers 401.
pub fn refresh_step(state: RefreshState, event: RefreshEvent, now_secs: i64, now_nanos: u32) -> (r: (
    RefreshState,
    RefreshAction,
))
    ensures
        match (state, event) {
            (RefreshState::Start, RefreshEvent::Cookie(None)) => r.0 == RefreshState::Done && r.1 is Reject,
            (RefreshState::Start, RefreshEvent::Cookie(Some(t))) => r.0 == RefreshState::AwaitStored
                && (r.1 matches RefreshAction::Lookup(h) && h@ == token_hash(t@)),
            (RefreshState::AwaitStored, RefreshEvent::Stored(None)) => r.0 == RefreshState::Done
                && r.1 is Reject,
            (RefreshState::AwaitStored, RefreshEvent::Stored(Some(s))) => match s.expires_at {
                Err(e) => r.0 == RefreshState::Done && (r.1 matches RefreshAction::DbError(m) && m@
                    == "Invalid expiry format: "@ + e@),
                Ok(t) => if before(t, now_secs, now_nanos) {
                    r.0 == RefreshState::Done && (r.1 matches RefreshAction::DeleteThenReject(id) && id == s.id)
                } else {
                    r.0 == (RefreshState::AwaitUser { old_id: s.id, user_id: s.user_id })
                        && (r.1 matches RefreshAction::FindUser(u) && u == s.user_id)
                },
            },
            (RefreshState::AwaitUser { old_id, user_id }, RefreshEvent::User(found)) => r.0 == RefreshState::Done
                && if found {
                r.1 matches RefreshAction::IssueThenDelete { old_id: o, user_id: u } && o == old_id && u == user_id
            } else {
                r.1 is Reject
            },
            _ => r.0 == RefreshState::Done && r.1 is Reject,
        },
{
    match (state, event) {
        (RefreshState::Start, RefreshEvent::Cookie(None)) => (RefreshState::Done, RefreshAction::Reject),
        (RefreshState::Start, RefreshEvent::Cookie(Some(t))) => (
            RefreshState::AwaitStored,
            RefreshAction::Lookup(hash_refresh_token(t.as_str())),
        ),
        (RefreshState::AwaitStored, RefreshEvent::Stored(None)) => (RefreshState::Done, RefreshAction::Reject),
        (RefreshState::AwaitStored, RefreshEvent::Stored(Some(s))) => match s.expires_at {
            Err(e) => {
                let mut m = String::from_str("Invalid expiry format: ");
                m.append(e.as_str());
                proof {
                    reveal_strlit("Invalid expiry format: ");
                }
                (RefreshState::Done, RefreshAction::DbError(m))
            },
            Ok(t) => {
                if t.0 < now_secs || (t.0 == now_secs && t.1 < now_nanos) {
                    (RefreshState::Done, RefreshAction::DeleteThenReject(s.id))
                } else {
                    (
                        RefreshState::AwaitUser { old_id: s.id, user_id: s.user_id },
                        RefreshAction::FindUser(s.user_id),
                    )
                }
            },
        },
        (RefreshState::AwaitUser { old_id, user_id }, RefreshEvent::User(found)) => {
            if found {
                (RefreshState::Done, RefreshAction::IssueThenDelete { old_id, user_id })
            } else {
                (RefreshState::Done, RefreshAction::Reject)
            }
        },
        _ => (RefreshState::Done, RefreshAction::Reject),
    }
}

} // verus!
