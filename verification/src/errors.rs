use vstd::prelude::*;

verus! {

/// The failures this subsystem reports to its callers.
///
/// Conditions that are common and recoverable (no remote configured, no
/// upstream, unborn branch) are never represented here: they are reported as
/// successful structured results with explanatory messages.
#[derive(Clone, Debug, PartialEq, Eq, Structural)]
pub enum GitError {
    /// No repository metadata was found at or above the workspace path.
    NotARepository,
    /// Every credential strategy was tried and the transport still refused us.
    AuthenticationFailed,
    /// The operation exceeded the configured timeout and was aborted.
    NetworkTimeout,
    /// The transport failed for a reason other than credentials or timeout.
    NetworkFailure,
    /// Local and remote history have both advanced; a manual merge is needed.
    /// Part of the taxonomy for callers, though no operation raises it: a
    /// pull reports diverged history as a structured failure, not an error.
    MergeDiverged,
    /// The settings store could not be read or written.
    PersistenceError,
    /// A branch or reference name did not resolve.
    InvalidReference,
}

impl GitError {
    /// A short human-readable description of the error.
    pub fn message(&self) -> (r: &'static str)
        ensures
            r@ == self.message_spec(),
    {
        match self {
            GitError::NotARepository => "Git repository not found. Please initialize git in this directory first.",
            GitError::AuthenticationFailed => "Authentication failed",
            GitError::NetworkTimeout => "Operation timed out",
            GitError::NetworkFailure => "Network failure",
            GitError::MergeDiverged => "Merge required - manual merge not yet implemented",
            GitError::PersistenceError => "Storage error",
            GitError::InvalidReference => "Invalid reference",
        }
    }

    pub open spec fn message_spec(&self) -> Seq<char> {
        match self {
            GitError::NotARepository => "Git repository not found. Please initialize git in this directory first."@,
            GitError::AuthenticationFailed => "Authentication failed"@,
            GitError::NetworkTimeout => "Operation timed out"@,
            GitError::NetworkFailure => "Network failure"@,
            GitError::MergeDiverged => "Merge required - manual merge not yet implemented"@,
            GitError::PersistenceError => "Storage error"@,
            GitError::InvalidReference => "Invalid reference"@,
        }
    }
}

} // verus!
