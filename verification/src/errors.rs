//! The error taxonomy of the session controller.

use vstd::prelude::*;

verus! {

/// Everything that can go wrong in a session, by severity.
///
/// `LaunchFailed` and `RemoteFatal` are session-fatal: the child
/// process is terminated and exactly one fatal notification is
/// surfaced.  `GraphConstructionFailed` is escalated the same way,
/// because a half-built endpoint leaves the session unusable.
/// `ProtocolError` marks a malformed or unexpected wire message, which
/// is dropped while the loops continue.  `InvalidState` is returned to
/// the caller when an operation needs a prerequisite that is absent,
/// such as re-setting the session's one-shot target stream.
#[derive(Clone, Copy, Debug, PartialEq, Eq, Structural)]
pub enum SessionError {
    LaunchFailed,
    ProtocolError,
    GraphConstructionFailed,
    RemoteFatal,
    InvalidState,
}

impl SessionError {
    /// Whether this failure makes the whole session unusable.  A fatal
    /// failure terminates the child process and surfaces the session's
    /// single fatal notification; the others are handled locally: a
    /// protocol error is dropped while the loops continue, and an
    /// invalid-state error is returned to the caller.
    pub fn is_session_fatal(&self) -> (b: bool)
        ensures
            b == (*self == SessionError::LaunchFailed || *self == SessionError::RemoteFatal
                || *self == SessionError::GraphConstructionFailed),
    {
        match self {
            SessionError::LaunchFailed => true,
            SessionError::RemoteFatal => true,
            SessionError::GraphConstructionFailed => true,
            SessionError::ProtocolError => false,
            SessionError::InvalidState => false,
        }
    }
}

} // verus!
