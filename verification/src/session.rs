//! Establishing the authenticated remote-shell session.
//!
//! The transport work itself (opening the TCP connection, the protocol
//! handshake, the authentication exchange) is network I/O and is performed
//! by the caller. `SessionSetup` fixes the protocol around it: the order
//! of the three phases, which authentication method is used (the supplied
//! private key, else the ambient agent), and how a failure in each phase
//! is classified. A failure is terminal: no further action is offered, so
//! a run with bad credentials fails fast, before any upload begins.

use vstd::prelude::*;

use crate::error::DeployError;

verus! {

/// Where to connect and how to authenticate. Immutable once constructed.
#[derive(Clone, Debug)]
pub struct RemoteTarget {
    /// The remote host address, without port.
    pub host: String,
    /// The login user on the remote host.
    pub user: String,
    /// The path of the private key to authenticate with; without one the
    /// ambient authentication agent is used.
    pub key_path: Option<String>,
}

/// How the session authenticates.
pub enum AuthMethod {
    /// Public-key authentication with the private key at this path, no
    /// passphrase.
    KeyFile(String),
    /// Delegation to the caller's running authentication agent.
    Agent,
}

/// The next transport action the caller must perform.
pub enum SetupAction {
    /// Open a raw network connection to this `host:port` address.
    Connect(String),
    /// Perform the protocol handshake over the open connection.
    Handshake,
    /// Authenticate with the given method.
    Authenticate(AuthMethod),
}

/// The phase of the session establishment.
pub enum SetupState {
    /// The raw network connection is being opened.
    Connecting,
    /// The protocol handshake is being performed.
    Handshaking,
    /// The credentials are being presented.
    Authenticating,
    /// The session is established and ready for uploads and commands.
    Ready,
    /// The establishment failed; the error classifies the phase it
    /// failed in.
    Failed(DeployError),
}

/// The session-establishment protocol: connect, handshake, authenticate,
/// in that order, each phase either advancing or failing terminally.
pub struct SessionSetup {
    target: RemoteTarget,
    state: SetupState,
}

impl SessionSetup {
    /// Where this setup connects and how it authenticates.
    pub closed spec fn spec_target(&self) -> RemoteTarget {
        self.target
    }

    /// The phase the establishment is in.
    pub closed spec fn spec_state(&self) -> SetupState {
        self.state
    }

    /// The establishment is neither ready nor failed.
    pub open spec fn spec_in_progress(&self) -> bool {
        match self.spec_state() {
            SetupState::Connecting => true,
            SetupState::Handshaking => true,
            SetupState::Authenticating => true,
            SetupState::Ready => false,
            SetupState::Failed(_) => false,
        }
    }

    /// The authentication method the target calls for: its key when one
    /// was supplied, the agent otherwise.
    pub open spec fn spec_auth_method(&self) -> AuthMethod {
        match self.spec_target().key_path {
            Some(k) => AuthMethod::KeyFile(k),
            None => AuthMethod::Agent,
        }
    }

    /// A fresh establishment for `target`, about to connect.
    pub fn new(target: RemoteTarget) -> (s: SessionSetup)
        ensures
            s.spec_target() == target,
            s.spec_state() is Connecting,
    {
        SessionSetup { target, state: SetupState::Connecting }
    }

    /// The transport action the caller must perform next: `None` once the
    /// establishment is ready or has failed.
    pub fn current_action(&self) -> (r: Option<SetupAction>)
        ensures
            match self.spec_state() {
                SetupState::Connecting => {
                    &&& r matches Some(SetupAction::Connect(addr))
                    &&& addr@ == self.spec_target().host@ + ":22"@
                },
                SetupState::Handshaking => r == Some(SetupAction::Handshake),
                SetupState::Authenticating => r == Some(
                    SetupAction::Authenticate(self.spec_auth_method()),
                ),
                SetupState::Ready => r is None,
                SetupState::Failed(_) => r is None,
            },
    {
        match &self.state {
            SetupState::Connecting => {
                let addr = self.target.host.clone().concat(":22");
                Some(SetupAction::Connect(addr))
            },
            SetupState::Handshaking => Some(SetupAction::Handshake),
            SetupState::Authenticating => match &self.target.key_path {
                Some(key) => Some(SetupAction::Authenticate(AuthMethod::KeyFile(key.clone()))),
                None => Some(SetupAction::Authenticate(AuthMethod::Agent)),
            },
            SetupState::Ready => None,
            SetupState::Failed(_) => None,
        }
    }

    /// Records that the current action succeeded: the establishment moves
    /// to the next phase, and after authentication it is ready.
    pub fn advance(&mut self)
        requires
            old(self).spec_in_progress(),
        ensures
            final(self).spec_target() == old(self).spec_target(),
            match old(self).spec_state() {
                SetupState::Connecting => final(self).spec_state() is Handshaking,
                SetupState::Handshaking => final(self).spec_state() is Authenticating,
                SetupState::Authenticating => final(self).spec_state() is Ready,
                SetupState::Ready => false,
                SetupState::Failed(_) => false,
            },
    {
        let next = match &self.state {
            SetupState::Connecting => SetupState::Handshaking,
            SetupState::Handshaking => SetupState::Authenticating,
            SetupState::Authenticating => SetupState::Ready,
            SetupState::Ready => SetupState::Ready,
            SetupState::Failed(_) => SetupState::Ready,
        };
        self.state = next;
    }

    /// Records that the current action failed, with the underlying
    /// diagnostic text. The failure is classified by the phase it
    /// happened in: a connect failure is transport trouble, a handshake
    /// failure is protocol trouble, and an authentication failure means
    /// the credentials were rejected. The establishment is terminal
    /// afterwards.
    pub fn fail(&mut self, cause: String)
        requires
            old(self).spec_in_progress(),
        ensures
            final(self).spec_target() == old(self).spec_target(),
            final(self).spec_state() matches SetupState::Failed(e) && e.spec_message() == cause@
                && match old(self).spec_state() {
                SetupState::Connecting => e is ConnectionError,
                SetupState::Handshaking => e is SessionError,
                SetupState::Authenticating => e is AuthenticationFailed,
                SetupState::Ready => false,
                SetupState::Failed(_) => false,
            },
            !final(self).spec_in_progress(),
    {
        let err = match &self.state {
            SetupState::Connecting => DeployError::ConnectionError(cause),
            SetupState::Handshaking => DeployError::SessionError(cause),
            SetupState::Authenticating => DeployError::AuthenticationFailed(cause),
            SetupState::Ready => DeployError::SessionError(cause),
            SetupState::Failed(_) => DeployError::SessionError(cause),
        };
        self.state = SetupState::Failed(err);
    }

    /// The session is established and ready for uploads and commands.
    pub fn is_ready(&self) -> (r: bool)
        ensures
            r == (self.spec_state() is Ready),
    {
        match &self.state {
            SetupState::Ready => true,
            _ => false,
        }
    }

    /// The error the establishment failed with, if it failed.
    pub fn error(&self) -> (r: Option<&DeployError>)
        ensures
            match r {
                Some(e) => self.spec_state() == SetupState::Failed(*e),
                None => !(self.spec_state() is Failed),
            },
    {
        match &self.state {
            SetupState::Failed(e) => Some(e),
            _ => None,
        }
    }
}

} // verus!
