//! Verified core of a local daemon supervisor and IPC proxy layer.
//!
//! The library owns the logic: daemon status documents and their wire
//! format, the per-instance supervisor state machine with its retry and
//! notification policy, the transport handshake framing, request target
//! rewriting for the proxy, control-server routing, and the argument
//! lists handed to the external CLI. All I/O — sockets, child processes,
//! HTTP plumbing — lives outside, in thin unverified glue that feeds
//! plain values into these functions and carries their decisions out.

pub mod app_state;
pub mod client;
pub mod commands;
pub mod env;
pub mod install_cli;
pub mod json;
pub mod messages;
pub mod protocol;
pub mod providers;
pub mod server;
pub mod strutil;
pub mod supervisor;
pub mod system_tray;
pub mod transport;
pub mod watcher;
pub mod workspace_id;

use vstd::prelude::*;

verus! {

/// State reported by a daemon process.
#[derive(Debug, Clone, Copy, PartialEq, Eq, Structural)]
pub enum DaemonState {
    Stopped,
    Pending,
    Running,
}

impl Default for DaemonState {
    /// A daemon starts out `Pending` until its first status report.
    fn default() -> (r: Self)
        ensures
            r == DaemonState::Pending,
    {
        DaemonState::Pending
    }
}

/// Status document reported by a daemon over `GET /status`.
#[derive(Debug, Clone, Copy, PartialEq, Eq, Structural)]
pub struct DaemonStatus {
    pub state: DaemonState,
    pub online: bool,
    pub login_required: bool,
}

impl DaemonStatus {
    /// The default status: `Pending`, offline, no login required.
    pub open spec fn spec_default() -> DaemonStatus {
        DaemonStatus { state: DaemonState::Pending, online: false, login_required: false }
    }
}

impl Default for DaemonStatus {
    fn default() -> (r: Self)
        ensures
            r == DaemonStatus::spec_default(),
    {
        DaemonStatus { state: DaemonState::Pending, online: false, login_required: false }
    }
}

} // verus!
