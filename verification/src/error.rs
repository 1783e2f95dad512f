//! The service's error type, its HTTP status mapping and the text a client is
//! shown for it.

use std::sync::Arc;
use vstd::prelude::*;
use vstd::string::*;

verus! {

/// Errors raised while resolving identifiers, fetching ratings or serving images.
///
/// Errors coming from the HTTP client, the filesystem, the image decoder and the
/// database are carried by their rendered message.
#[derive(Debug, Clone)]
pub enum AppError {
    InvalidIdType(String),
    IdNotFound(String),
    Unauthorized,
    Forbidden(String),
    BadRequest(String),
    Api(String),
    Io(String),
    Image(String),
    Db(String),
    DbError(String),
    Other(String),
}

/// The mathematical value of an [`AppError`]: its variant and message.
pub enum ErrorView {
    InvalidIdType(Seq<char>),
    IdNotFound(Seq<char>),
    Unauthorized,
    Forbidden(Seq<char>),
    BadRequest(Seq<char>),
    Api(Seq<char>),
    Io(Seq<char>),
    Image(Seq<char>),
    Db(Seq<char>),
    DbError(Seq<char>),
    Other(Seq<char>),
}

impl View for AppError {
    type V = ErrorView;

    open spec fn view(&self) -> ErrorView {
        match self {
            AppError::InvalidIdType(m) => ErrorView::InvalidIdType(m@),
            AppError::IdNotFound(m) => ErrorView::IdNotFound(m@),
            AppError::Unauthorized => ErrorView::Unauthorized,
            AppError::Forbidden(m) => ErrorView::Forbidden(m@),
            AppError::BadRequest(m) => ErrorView::BadRequest(m@),
            AppError::Api(m) => ErrorView::Api(m@),
            AppError::Io(m) => ErrorView::Io(m@),
            AppError::Image(m) => ErrorView::Image(m@),
            AppError::Db(m) => ErrorView::Db(m@),
            AppError::DbError(m) => ErrorView::DbError(m@),
            AppError::Other(m) => ErrorView::Other(m@),
        }
    }
}

impl ErrorView {
    /// Whether the error is the client's fault (its message is shown to the client).
    pub open spec fn is_client_error(self) -> bool {
        match self {
            ErrorView::InvalidIdType(_) | ErrorView::IdNotFound(_) | ErrorView::Unauthorized
            | ErrorView::Forbidden(_) | ErrorView::BadRequest(_) => true,
            _ => false,
        }
    }

    /// The HTTP status code the error is answered with.
    pub open spec fn status(self) -> u16 {
        match self {
            ErrorView::InvalidIdType(_) => 400,
            ErrorView::IdNotFound(_) => 404,
            ErrorView::Unauthorized => 401,
            ErrorView::Forbidden(_) => 403,
            ErrorView::BadRequest(_) => 400,
            _ => 500,
        }
    }

    /// The `error` text of the JSON body the error is answered with: the message
    /// for client errors, a fixed text for everything else.
    pub open spec fn response_message(self) -> Seq<char> {
        match self {
            ErrorView::InvalidIdType(m) => m,
            ErrorView::IdNotFound(m) => m,
            ErrorView::Unauthorized => "Unauthorized"@,
            ErrorView::Forbidden(m) => m,
            ErrorView::BadRequest(m) => m,
            _ => "Internal server error"@,
        }
    }

    /// The human-readable rendering of the error (its `Display` text).
    pub open spec fn display(self) -> Seq<char> {
        match self {
            ErrorView::InvalidIdType(m) => "invalid id type: "@ + m,
            ErrorView::IdNotFound(m) => "id not found: "@ + m,
            ErrorView::Unauthorized => "unauthorized"@,
            ErrorView::Forbidden(m) => "forbidden: "@ + m,
            ErrorView::BadRequest(m) => "bad request: "@ + m,
            ErrorView::Api(m) => "API error: "@ + m,
            ErrorView::Io(m) => "IO error: "@ + m,
            ErrorView::Image(m) => "image error: "@ + m,
            ErrorView::Db(m) => "database error: "@ + m,
            ErrorView::DbError(m) => "database error: "@ + m,
            ErrorView::Other(m) => m,
        }
    }

    /// The error as recovered from a shared (cached) reference: client errors keep
    /// their variant and message, everything else becomes `Other` with its
    /// rendered text.
    pub open spec fn shared_copy(self) -> ErrorView {
        if self.is_client_error() {
            self
        } else {
            ErrorView::Other(self.display())
        }
    }
}

/// `Arc::try_unwrap`: the value when this is the only reference, the `Arc`
/// itself otherwise. The contract claims that the returned value is the shared
/// one in both cases; which case happens depends on other owners.
#[verifier::external_body]
fn arc_try_unwrap(arc: Arc<AppError>) -> (r: Result<AppError, Arc<AppError>>)
    ensures
        match r {
            Ok(e) => e == *arc,
            Err(a) => a == arc,
        },
{
    Arc::try_unwrap(arc)
}

fn prefixed(prefix: &str, msg: &String) -> (r: String)
    ensures
        r@ == prefix@ + msg@,
{
    let mut out = String::from_str(prefix);
    out.append(msg.as_str());
    out
}

impl AppError {
    /// The HTTP status code this error is answered with.
    pub fn status_code(&self) -> (code: u16)
        ensures
            code == self@.status(),
    {
        match self {
            AppError::InvalidIdType(_) => 400,
            AppError::IdNotFound(_) => 404,
            AppError::Unauthorized => 401,
            AppError::Forbidden(_) => 403,
            AppError::BadRequest(_) => 400,
            _ => 500,
        }
    }

    /// The message put in the `error` field of the JSON response: client errors
    /// keep their message, internal errors are not disclosed.
    pub fn response_message(&self) -> (msg: String)
        ensures
            msg@ == self@.response_message(),
    {
        match self {
            AppError::InvalidIdType(m) => m.clone(),
            AppError::IdNotFound(m) => m.clone(),
            AppError::Unauthorized => String::from_str("Unauthorized"),
            AppError::Forbidden(m) => m.clone(),
            AppError::BadRequest(m) => m.clone(),
            _ => String::from_str("Internal server error"),
        }
    }

    /// The human-readable rendering of this error.
    pub fn to_display_string(&self) -> (s: String)
        ensures
            s@ == self@.display(),
    {
        match self {
            AppError::InvalidIdType(m) => prefixed("invalid id type: ", m),
            AppError::IdNotFound(m) => prefixed("id not found: ", m),
            AppError::Unauthorized => String::from_str("unauthorized"),
            AppError::Forbidden(m) => prefixed("forbidden: ", m),
            AppError::BadRequest(m) => prefixed("bad request: ", m),
            AppError::Api(m) => prefixed("API error: ", m),
            AppError::Io(m) => prefixed("IO error: ", m),
            AppError::Image(m) => prefixed("image error: ", m),
            AppError::Db(m) => prefixed("database error: ", m),
            AppError::DbError(m) => prefixed("database error: ", m),
            AppError::Other(m) => m.clone(),
        }
    }

    /// Rebuilds an error seen only by reference: client-facing variants are kept,
    /// internal ones collapse to [`AppError::Other`] with their rendered text.
    pub fn from_shared(&self) -> (e: AppError)
        ensures
            e@ == self@.shared_copy(),
    {
        match self {
            AppError::InvalidIdType(m) => AppError::InvalidIdType(m.clone()),
            AppError::IdNotFound(m) => AppError::IdNotFound(m.clone()),
            AppError::BadRequest(m) => AppError::BadRequest(m.clone()),
            AppError::Forbidden(m) => AppError::Forbidden(m.clone()),
            AppError::Unauthorized => AppError::Unauthorized,
            other => AppError::Other(other.to_display_string()),
        }
    }

    /// Recovers an error from a cache that hands out shared references to it:
    /// the error itself when this is the only reference, otherwise a copy that
    /// keeps client-facing variants (so the HTTP status is preserved).
    pub fn from_cached(arc: Arc<AppError>) -> (e: AppError)
        ensures
            e@ == (*arc)@ || e@ == (*arc)@.shared_copy(),
            e@.status() == (*arc)@.status(),
            e@.response_message() == (*arc)@.response_message(),
    {
        match arc_try_unwrap(arc) {
            Ok(err) => err,
            Err(shared) => shared.from_shared(),
        }
    }
}

/// A shared copy answers with the same HTTP status and the same client-visible
/// message as the error it copies.
pub proof fn lemma_shared_copy_preserves_response(e: ErrorView)
    ensures
        e.shared_copy().status() == e.status(),
        e.shared_copy().response_message() == e.response_message(),
{
}

} // verus!
