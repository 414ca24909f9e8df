//! What can go wrong, as plain values.
use vstd::prelude::*;

verus! {

/// Why a chat account cannot be used.
#[derive(Clone, Copy, Debug, PartialEq, Eq, Structural)]
pub enum Reason {
    /// There is no account, or no organization to chat with.
    Null,
    /// No organization has a usable subscription.
    Free,
}

/// The body of an error reply of the backend.
#[derive(Debug)]
pub struct ClaudeErrorBody {
    pub message: String,
    pub kind: String,
    pub code: Option<u16>,
}

/// Errors of the relay.
#[derive(Debug)]
pub enum ClewdrError {
    /// The pool holds no credential.
    NoCookieAvailable,
    /// Every attempt failed in a way that called for another one.
    TooManyRetries,
    BadRequest { msg: &'static str },
    UnexpectedNone { msg: &'static str },
    InvalidCookie { reason: Reason },
    /// The backend answered with a status other than success.
    ClaudeHttpError { code: u16, inner: ClaudeErrorBody },
    /// The HTTP client failed; `source` is its own description.
    WreqError { msg: &'static str, source: String },
    /// The pool could not be reached.
    RactorError { detail: String },
    /// A response could not be put together.
    HttpError { source: String },
}

/// Errors of the administration endpoints.
#[derive(Debug)]
pub enum ApiError {
    Unauthorized,
    BadRequest(String),
    Internal(String),
}

} // verus!
