//! Endpoint lifecycle controller for a remote media session.
//!
//! A worker process connects to a remote two-party media session and
//! reports lifecycle events (endpoint added, endpoint removed, format
//! changed, fatal error) over an IPC channel.  This crate holds the
//! verified control plane that turns those events into pipeline-graph
//! mutations: the credential model and worker invocation, the message
//! router, the per-kind stream workers with their endpoint table, and
//! the session supervisor with its running flag and child-process
//! handle.  The unverified shell (process spawning, the IPC transport,
//! the caller's media graph) consumes the actions these functions
//! return.

pub mod actions;
pub mod credentials;
pub mod errors;
pub mod graph;
pub mod media;
pub mod names;
pub mod router;
pub mod session;
pub mod worker;
