//! Errors of the data layer and the messages shown for them.

use vstd::prelude::*;
use vstd::string::*;
use crate::text::concat_str;

verus! {

/// What went wrong talking to the CI provider or the disk.
#[derive(Clone, Debug)]
pub enum JoltError {
    /// Transport failure, with the client's description.
    Api(String),
    /// The token was refused.
    Unauthorized,
    /// The named resource does not exist.
    NotFound(String),
    /// The rate limit is exhausted until `reset_at`.
    RateLimited { reset_at: String },
    /// No token was configured.
    MissingToken,
    /// A response could not be decoded.
    Json(String),
    /// A file could not be read or written.
    Io(String),
    /// Anything else, with its message.
    Other(String),
}

/// The message shown for an error.
pub open spec fn error_message(e: JoltError) -> Seq<char> {
    match e {
        JoltError::Api(m) => "GitHub API error: "@ + m@,
        JoltError::Unauthorized => "Authentication failed: invalid or expired token"@,
        JoltError::NotFound(m) => "Resource not found: "@ + m@,
        JoltError::RateLimited { reset_at } => "Rate limit exceeded, resets at "@ + reset_at@,
        JoltError::MissingToken => "Missing GITHUB_TOKEN environment variable"@,
        JoltError::Json(m) => "JSON parsing error: "@ + m@,
        JoltError::Io(m) => "IO error: "@ + m@,
        JoltError::Other(m) => m@,
    }
}

/// Message for a job log that the provider no longer (or not yet) has.
pub open spec fn logs_unavailable_text() -> Seq<char> {
    "Logs not available (may have expired or job is still running)"@
}

impl JoltError {
    /// The message shown for this error.
    pub fn message(&self) -> (r: String)
        ensures
            r@ == error_message(*self),
    {
        match self {
            JoltError::Api(m) => concat_str("GitHub API error: ", m.as_str()),
            JoltError::Unauthorized => String::from_str("Authentication failed: invalid or expired token"),
            JoltError::NotFound(m) => concat_str("Resource not found: ", m.as_str()),
            JoltError::RateLimited { reset_at } => concat_str("Rate limit exceeded, resets at ", reset_at.as_str()),
            JoltError::MissingToken => String::from_str("Missing GITHUB_TOKEN environment variable"),
            JoltError::Json(m) => concat_str("JSON parsing error: ", m.as_str()),
            JoltError::Io(m) => concat_str("IO error: ", m.as_str()),
            JoltError::Other(m) => m.clone(),
        }
    }
}

/// The error reported for a failed job-log fetch: a missing resource means the
/// log has expired or the job is still running; other errors pass unchanged.
pub fn job_logs_error(e: JoltError) -> (r: JoltError)
    ensures
        e is NotFound ==> r is Other && r->Other_0@ == logs_unavailable_text(),
        !(e is NotFound) ==> r == e,
{
    match e {
        JoltError::NotFound(_) => JoltError::Other(
            String::from_str("Logs not available (may have expired or job is still running)"),
        ),
        other => other,
    }
}

} // verus!
