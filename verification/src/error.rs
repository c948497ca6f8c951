//! The categories a failed request falls into, so a caller can decide
//! whether to back off, fix its input, or retry later.

use vstd::prelude::*;

verus! {

/// The category of a failure surfaced to the caller.
#[derive(Clone, Copy, Debug, PartialEq, Eq, Structural)]
pub enum ErrorKind {
    /// A malformed operator or direction, or unparsable natural language;
    /// deterministic, so never retried.
    Translation,
    /// The backend was unreachable, unhealthy, or answered nonsense;
    /// retried inside the pipeline, worth retrying later once surfaced.
    Agent,
    /// The requested agent name is not registered; terminal for the request.
    AgentNotFound,
    /// The external query engine rejected the statement or failed; retried
    /// inside the pipeline.
    Execution,
    /// Admission control rejected the request; recoverable by backing off.
    RateLimit,
}

} // verus!
