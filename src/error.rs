//! Errors of the Polygon.io client.
use vstd::prelude::*;

verus! {

#[verifier::external_type_specification]
#[verifier::external_body]
pub struct ExParseError(url::ParseError);

/// The error taxonomy surfaced to callers of the client.
#[derive(Debug)]
pub enum PolygonError {
    /// The server throttled the request; retry after this many seconds.
    RateLimit { retry_after_secs: u64 },
    /// Invalid or missing credential (HTTP 401 or 403).
    Unauthorized,
    /// Any other non-success status.
    ApiError { status: u16, message: String, request_id: Option<String> },
    /// The request could not be carried out (connection failure, timeout).
    Request(String),
    /// The URL could not be built.
    InvalidUrl(url::ParseError),
    /// The body could not be decoded.
    Json(String),
    /// No API key was configured.
    MissingApiKey,
    /// Every allowed attempt failed with a transient error.
    MaxRetriesExceeded { attempts: u32 },
    /// A tool was called with unusable arguments.
    InvalidParams(String),
}

/// Transient failures: throttling, server errors (5xx) and transport failures.
pub open spec fn retryable(e: PolygonError) -> bool {
    match e {
        PolygonError::RateLimit { .. } => true,
        PolygonError::ApiError { status, .. } => 500 <= status <= 599,
        PolygonError::Request(_) => true,
        _ => false,
    }
}

impl PolygonError {
    /// An `ApiError` with the given fields.
    pub fn api_error(status: u16, message: String, request_id: Option<String>) -> (r: Self)
        ensures
            r == (PolygonError::ApiError { status, message, request_id }),
    {
        PolygonError::ApiError { status, message, request_id }
    }

    /// Whether a retry may succeed: throttling, 5xx, transport failures.
    pub fn is_retryable(&self) -> (r: bool)
        ensures
            r == retryable(*self),
    {
        match self {
            PolygonError::RateLimit { .. } => true,
            PolygonError::ApiError { status, .. } => 500 <= *status && *status <= 599,
            PolygonError::Request(_) => true,
            _ => false,
        }
    }
}

} // verus!
