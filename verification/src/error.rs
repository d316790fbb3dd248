//! What the server answers when a request fails.

use vstd::prelude::*;
use vstd::std_specs::convert::FromSpecImpl;

verus! {

/// `rusqlite::Error`, what the store says when it refuses a statement. The
/// library hands it on, or drops it, without looking inside.
#[verifier::external_type_specification]
#[verifier::external_body]
pub struct ExStoreError(rusqlite::Error);

/// HTTP status 500, Internal Server Error.
pub const STATUS_INTERNAL_SERVER_ERROR: u16 = 500;

/// HTTP status 401, Unauthorized.
pub const STATUS_UNAUTHORIZED: u16 = 401;

/// A failure as the caller of the endpoint gets to see it: a coarse status and
/// a short reason, with nothing of the store's layout in it.
#[derive(Debug, Clone, PartialEq, Eq)]
pub enum AppError {
    InternalServerError,
    Unauthorized,
    InvalidToken,
    LoginFailed,
    Description(String),
    NotLoggedIn,
    SessionExpired,
}

impl AppError {
    /// The HTTP status that answers this failure.
    pub open spec fn status(self) -> u16 {
        match self {
            AppError::InternalServerError | AppError::Description(_) => STATUS_INTERNAL_SERVER_ERROR,
            AppError::Unauthorized
            | AppError::InvalidToken
            | AppError::LoginFailed
            | AppError::NotLoggedIn
            | AppError::SessionExpired => STATUS_UNAUTHORIZED,
        }
    }

    /// The text that answers this failure.
    pub open spec fn reason(self) -> Seq<char> {
        match self {
            AppError::InternalServerError => "Internal Server Error"@,
            AppError::Unauthorized => "Unauthorized"@,
            AppError::InvalidToken => "Invalid Token"@,
            AppError::LoginFailed => "Login Failed"@,
            AppError::Description(d) => "Internal Server Error: "@ + d@,
            AppError::NotLoggedIn => "Not Logged In"@,
            AppError::SessionExpired => "Session Expired"@,
        }
    }

    /// The text of a report of what went wrong: the message, a line break,
    /// and the trace of where it happened.
    pub open spec fn report_text(message: Seq<char>, trace: Seq<char>) -> Seq<char> {
        message + "\n"@ + trace
    }

    /// The status and the body of the response to this failure.
    pub fn into_response(self) -> (parts: (u16, String))
        ensures
            parts.0 == self.status(),
            parts.1@ == self.reason(),
    {
        match self {
            AppError::InternalServerError => (
                STATUS_INTERNAL_SERVER_ERROR,
                String::from_str("Internal Server Error"),
            ),
            AppError::Unauthorized => (STATUS_UNAUTHORIZED, String::from_str("Unauthorized")),
            AppError::LoginFailed => (STATUS_UNAUTHORIZED, String::from_str("Login Failed")),
            AppError::Description(d) => (
                STATUS_INTERNAL_SERVER_ERROR,
                String::from_str("Internal Server Error: ").concat(d.as_str()),
            ),
            AppError::InvalidToken => (STATUS_UNAUTHORIZED, String::from_str("Invalid Token")),
            AppError::NotLoggedIn => (STATUS_UNAUTHORIZED, String::from_str("Not Logged In")),
            AppError::SessionExpired => (STATUS_UNAUTHORIZED, String::from_str("Session Expired")),
        }
    }

    /// The failure that tells the caller what went wrong in full: its
    /// description is `message`, a line break, then `trace`.
    pub fn from_report(message: &str, trace: &str) -> (e: AppError)
        ensures
            e matches AppError::Description(d) && d@ == AppError::report_text(message@, trace@),
    {
        AppError::Description(String::from_str(message).concat("\n").concat(trace))
    }
}

impl From<rusqlite::Error> for AppError {
    /// Whatever the store objected to, the caller learns only that the server
    /// failed.
    fn from(e: rusqlite::Error) -> (r: AppError)
    {
        AppError::InternalServerError
    }
}

impl FromSpecImpl<rusqlite::Error> for AppError {
    open spec fn obeys_from_spec() -> bool {
        true
    }

    open spec fn from_spec(e: rusqlite::Error) -> AppError {
        AppError::InternalServerError
    }
}

} // verus!
