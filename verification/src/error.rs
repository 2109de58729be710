//! The error kinds the library surfaces: non-retryable HTTP failures,
//! exhausted retries, stream-layer faults, credential problems, and
//! malformed submissions.

use vstd::prelude::*;

verus! {

#[derive(Debug)]
pub enum CodexErr {
    /// Non-retryable HTTP failure; the body is surfaced to the user.
    UnexpectedStatus { status: u16, body: String },
    /// Retries exhausted; the last status seen.
    RetryLimit { status: u16 },
    /// Stream-layer error: timeout, parse failure, or premature close.
    Stream { message: String },
    /// Filesystem or subprocess failure, as reported by the edge.
    Io { message: String },
    /// Credential missing, refresh failed, or login restriction violated.
    Auth { message: String },
    /// Malformed submission, e.g. an approval for an unknown target.
    Protocol { message: String },
}

} // verus!
