//! Why a request fails, the error body every failing response carries, and
//! the HTTP status that goes with it.

use vstd::prelude::*;
use vstd::string::*;

verus! {

/// Status code of a response that blames the request.
pub const BAD_REQUEST: u16 = 400;

/// Status code of a response that reports a failure of the service itself.
pub const INTERNAL_SERVER_ERROR: u16 = 500;

/// Why a request cannot be served. Failures are values; the HTTP layer alone
/// turns them into status codes and error bodies.
#[derive(Debug)]
pub enum ServiceError {
    /// The amount asked for is zero.
    InvalidAmount,
    /// No account bears the name.
    UserNotFound { username: String },
    /// Every backend that was tried failed; the message is that of the last
    /// one tried.
    AllBackendsFailed { last_error: String },
    /// The metadata document could not be serialized.
    Serialization { reason: String },
}

/// What a [`ServiceError`] holds.
pub enum ServiceErrorView {
    InvalidAmount,
    UserNotFound { username: Seq<char> },
    AllBackendsFailed { last_error: Seq<char> },
    Serialization { reason: Seq<char> },
}

impl View for ServiceError {
    type V = ServiceErrorView;

    open spec fn view(&self) -> ServiceErrorView {
        match self {
            ServiceError::InvalidAmount => ServiceErrorView::InvalidAmount,
            ServiceError::UserNotFound { username } => ServiceErrorView::UserNotFound {
                username: username@,
            },
            ServiceError::AllBackendsFailed { last_error } => ServiceErrorView::AllBackendsFailed {
                last_error: last_error@,
            },
            ServiceError::Serialization { reason } => ServiceErrorView::Serialization {
                reason: reason@,
            },
        }
    }
}

/// The error body of the pay-request protocol: a fixed status word and a
/// human-readable reason.
#[derive(Debug)]
pub struct Lud06Error {
    status: String,
    reason: String,
}

/// What a [`Lud06Error`] holds.
pub struct Lud06ErrorView {
    pub status: Seq<char>,
    pub reason: Seq<char>,
}

impl View for Lud06Error {
    type V = Lud06ErrorView;

    closed spec fn view(&self) -> Lud06ErrorView {
        Lud06ErrorView { status: self.status@, reason: self.reason@ }
    }
}

/// The error body with the given reason.
pub open spec fn error_body(reason: Seq<char>) -> Lud06ErrorView {
    Lud06ErrorView { status: "ERROR"@, reason }
}

impl Lud06Error {
    /// An error body with status `ERROR` and the given reason.
    pub fn new(reason: String) -> (e: Self)
        ensures
            e@ == error_body(reason@),
    {
        Lud06Error { status: "ERROR".to_string(), reason }
    }

    /// The status word.
    pub fn status(&self) -> (s: &str)
        ensures
            s@ == self@.status,
    {
        self.status.as_str()
    }

    /// The reason given to the client.
    pub fn reason(&self) -> (s: &str)
        ensures
            s@ == self@.reason,
    {
        self.reason.as_str()
    }

    /// The error on one line: status, a colon and a space, reason.
    pub fn to_string(&self) -> (s: String)
        ensures
            s@ == self@.status + ": "@ + self@.reason,
    {
        let mut s = self.status.clone();
        s.append(": ");
        s.append(self.reason.as_str());
        s
    }
}

/// A failed request: the status code of the response and its error body.
#[derive(Debug)]
pub struct HttpError {
    status_code: u16,
    e: Lud06Error,
}

/// What an [`HttpError`] holds.
pub struct HttpErrorView {
    pub status_code: u16,
    pub body: Lud06ErrorView,
}

impl View for HttpError {
    type V = HttpErrorView;

    closed spec fn view(&self) -> HttpErrorView {
        HttpErrorView { status_code: self.status_code, body: self.e@ }
    }
}

/// The failure that blames the request, with the given reason.
pub open spec fn bad_request(reason: Seq<char>) -> HttpErrorView {
    HttpErrorView { status_code: BAD_REQUEST, body: error_body(reason) }
}

/// The failure of the service itself, with the given reason.
pub open spec fn internal_error(reason: Seq<char>) -> HttpErrorView {
    HttpErrorView { status_code: INTERNAL_SERVER_ERROR, body: error_body(reason) }
}

impl HttpError {
    /// A failure with the given status code and error body.
    pub fn new(status_code: u16, e: Lud06Error) -> (err: HttpError)
        ensures
            err@ == (HttpErrorView { status_code, body: e@ }),
    {
        HttpError { status_code, e }
    }

    /// The failure that blames the request: status 400 and the given reason.
    pub fn bad_request(reason: String) -> (err: HttpError)
        ensures
            err@ == bad_request(reason@),
    {
        HttpError::new(BAD_REQUEST, Lud06Error::new(reason))
    }

    /// The failure that wraps the text of an internal error: status 500, the
    /// text as reason.
    pub fn internal_error(reason: String) -> (err: HttpError)
        ensures
            err@ == internal_error(reason@),
    {
        HttpError::new(INTERNAL_SERVER_ERROR, Lud06Error::new(reason))
    }

    /// The status code of the response.
    pub fn status_code(&self) -> (code: u16)
        ensures
            code == self@.status_code,
    {
        self.status_code
    }

    /// The error body of the response.
    pub fn body(&self) -> (e: &Lud06Error)
        ensures
            e@ == self@.body,
    {
        &self.e
    }
}

} // verus!
