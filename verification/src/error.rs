//! The closed error type of the deployment core.
//!
//! One variant per failure kind: transport-level connect failure, rejected
//! credentials, protocol/channel trouble, an invalid ignore pattern, a local
//! filesystem failure, and remote command infrastructure failure. Each
//! variant carries the diagnostic text of its underlying cause.

use vstd::prelude::*;

verus! {

/// Why a deployment run failed. A remote command that merely exits with a
/// non-zero status is a logical failure handled by the sequencer, not a
/// `RemoteCmdError`.
#[derive(Clone, Debug)]
pub enum DeployError {
    /// The raw network connection to the remote host could not be opened.
    ConnectionError(String),
    /// The remote host rejected the supplied credentials.
    AuthenticationFailed(String),
    /// The protocol handshake or a channel operation failed.
    SessionError(String),
    /// An ignore pattern is syntactically invalid.
    PatternError(String),
    /// A local filesystem read, write or copy failed.
    IOError(String),
    /// The remote command machinery itself failed (not a non-zero exit).
    RemoteCmdError(String),
}

impl DeployError {
    /// The diagnostic text carried by the error, whichever kind it is.
    pub fn message(&self) -> (r: &String)
        ensures
            r@ == self.spec_message(),
    {
        match self {
            DeployError::ConnectionError(cause) => cause,
            DeployError::AuthenticationFailed(cause) => cause,
            DeployError::SessionError(cause) => cause,
            DeployError::PatternError(cause) => cause,
            DeployError::IOError(cause) => cause,
            DeployError::RemoteCmdError(cause) => cause,
        }
    }

    /// The diagnostic text, as a mathematical value.
    pub open spec fn spec_message(&self) -> Seq<char> {
        match self {
            DeployError::ConnectionError(cause) => cause@,
            DeployError::AuthenticationFailed(cause) => cause@,
            DeployError::SessionError(cause) => cause@,
            DeployError::PatternError(cause) => cause@,
            DeployError::IOError(cause) => cause@,
            DeployError::RemoteCmdError(cause) => cause@,
        }
    }
}

} // verus!
