//! Error taxonomy shared by the query engine, the export managers and the
//! session lifecycle.
//!
//! Authorization and scoping failures both surface as `Forbidden` so a caller
//! cannot tell which of the two gates rejected the request.

use vstd::prelude::*;

verus! {

/// What went wrong, from the caller's point of view.
///
/// `Upstream` marks collaborator failures (record store, storage, mailer);
/// callers treat it as retryable. `Conflict` marks a refresh token that was
/// already rotated or revoked.
#[derive(Debug, Clone, PartialEq, Eq)]
pub enum CoreError {
    /// No token, an invalid token, or an expired token.
    Unauthorized,
    /// Authenticated, but the authorize or scope gate refused the request.
    Forbidden,
    /// Export job, session or record absent.
    NotFound,
    /// Malformed filter value, unknown filter key under the `Error` policy,
    /// or missing required export fields.
    BadRequest,
    /// Refresh token already rotated or revoked.
    Conflict,
    /// A collaborator failed; the caller may retry.
    Upstream,
}

impl CoreError {
    /// Stable label for logging and response mapping.
    pub fn label(&self) -> (r: &'static str)
        ensures
            r@ == (match self {
                CoreError::Unauthorized => "unauthorized"@,
                CoreError::Forbidden => "forbidden"@,
                CoreError::NotFound => "not_found"@,
                CoreError::BadRequest => "bad_request"@,
                CoreError::Conflict => "conflict"@,
                CoreError::Upstream => "upstream"@,
            }),
    {
        proof {
            reveal_strlit("unauthorized");
            reveal_strlit("forbidden");
            reveal_strlit("not_found");
            reveal_strlit("bad_request");
            reveal_strlit("conflict");
            reveal_strlit("upstream");
        }
        match self {
            CoreError::Unauthorized => "unauthorized",
            CoreError::Forbidden => "forbidden",
            CoreError::NotFound => "not_found",
            CoreError::BadRequest => "bad_request",
            CoreError::Conflict => "conflict",
            CoreError::Upstream => "upstream",
        }
    }
}

} // verus!
