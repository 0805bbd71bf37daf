//! The errors that sessions and remote operations report.
use vstd::prelude::*;

verus! {

/// What an agent operation can fail with.
#[derive(Debug, PartialEq, Eq)]
pub enum AgentError {
    Internal(String),
    /// The session no longer takes operations.
    SessionSemaphoreClosed,
    /// The session was busy for too long.
    SessionTimeout { details: String },
    ProviderRequired,
    UnknownProvider { name: String },
    SessionNotFound { session_id: String },
    /// A session without messages cannot be forked.
    EmptySessionFork,
    /// A name could not be looked up in the mesh.
    SwarmLookupFailed { key: String, reason: String },
    /// A remote actor failed or could not be reached.
    RemoteActor(String),
    RemoteSessionNotFound { details: String },
}

} // verus!
