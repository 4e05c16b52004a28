//! The application behind the bridge: the health check and the shape of an
//! error reply.

use vstd::prelude::*;

verus! {

/// The error with which `serde_json` refuses a payload.
#[verifier::external_type_specification]
#[verifier::external_body]
pub struct ExJsonError(serde_json::Error);

/// What every request handler knows of the server.
#[derive(Clone, Debug)]
pub struct AppState {
    pub version: &'static str,
}

/// The payload of a health check.
#[derive(Debug)]
pub struct HealthResponse {
    pub status: String,
    pub version: String,
}

/// The word with which a running server describes itself.
pub open spec fn healthy() -> Seq<char> {
    "healthy"@
}

/// The health check: the server is healthy and says which version it is.
pub fn healthz(state: &AppState) -> (r: HealthResponse)
    ensures
        r.status@ == healthy(),
        r.version@ == state.version@,
{
    HealthResponse { status: "healthy".to_owned(), version: state.version.to_owned() }
}

/// A failure of a request handler.
#[derive(Debug)]
pub enum ApiError {
    Internal(String),
    NotFound(String),
    BadRequest(String),
    Json(serde_json::Error),
}

/// The body of an error reply.
#[derive(Debug)]
pub struct ErrorBody {
    pub error: String,
    pub status: u16,
}

/// An error reply: the status line's code and the body to encode.
#[derive(Debug)]
pub struct ErrorReply {
    pub status: u16,
    pub body: ErrorBody,
}

/// The words in which a `serde_json::Error` describes itself.
pub uninterp spec fn error_text(e: serde_json::Error) -> Seq<char>;

/// `serde_json::Error`'s own wording of itself, by its `Display`. The
/// words depend on the error alone; `error_text` names them.
#[verifier::external_body]
pub(crate) fn json_error_text(e: &serde_json::Error) -> (text: String)
    ensures
        text@ == error_text(*e),
{
    e.to_string()
}

impl ApiError {
    /// The status code that the error is answered with.
    pub open spec fn status_code(self) -> u16 {
        match self {
            ApiError::Internal(_) => 500,
            ApiError::NotFound(_) => 404,
            ApiError::BadRequest(_) => 400,
            ApiError::Json(_) => 400,
        }
    }

    /// The reply that tells the client of the error: the status code of the
    /// variant, once in the status line and once in the body, beside the
    /// error's message.
    pub fn into_response(self) -> (r: ErrorReply)
        ensures
            r.status == self.status_code(),
            r.body.status == self.status_code(),
            400 <= r.status < 600,
            match self {
                ApiError::Internal(m) => r.body.error@ == m@,
                ApiError::NotFound(m) => r.body.error@ == m@,
                ApiError::BadRequest(m) => r.body.error@ == m@,
                ApiError::Json(e) => r.body.error@ == error_text(e),
            },
    {
        match self {
            ApiError::Internal(m) => ErrorReply {
                status: 500,
                body: ErrorBody { error: m, status: 500 },
            },
            ApiError::NotFound(m) => ErrorReply {
                status: 404,
                body: ErrorBody { error: m, status: 404 },
            },
            ApiError::BadRequest(m) => ErrorReply {
                status: 400,
                body: ErrorBody { error: m, status: 400 },
            },
            ApiError::Json(e) => ErrorReply {
                status: 400,
                body: ErrorBody { error: json_error_text(&e), status: 400 },
            },
        }
    }
}

} // verus!
