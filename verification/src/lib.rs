//! Verified core of a small deployment tool: it plans the shell commands that
//! drive a containerised web stack, packages a project tree into a gzipped tar
//! archive while honouring ignore patterns, and models the remote deployment
//! procedure (session establishment, chunked upload, ordered remote command
//! sequence with stop-on-first-failure semantics).

pub mod archive;
pub mod cmd;
pub mod deploy;
pub mod django;
pub mod docker_compose;
pub mod error;
pub mod ignore;
pub mod numstr;
pub mod runner;
pub mod sequencer;
pub mod session;
pub mod transfer;

pub use error::DeployError;
