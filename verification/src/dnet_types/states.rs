//! The states the daemon reports to its front ends.
use vstd::prelude::*;

verus! {

/// Connection state of the RPC link to the conductor.
#[derive(Clone, Copy, Debug, PartialEq, Eq, Structural)]
pub enum RpcState {
    Connecting,
    Connected,
    ReConnecting,
}

/// State of the tinc tunnel.
#[derive(Debug)]
pub enum TunnelState {
    Connecting,
    Connected,
    DisConnecting,
    DisConnected,
    TunnelInitFailed(String),
}

/// Whether the daemon process is still running.
#[derive(Clone, Copy, Debug, PartialEq, Eq, Structural)]
pub enum DaemonExecutionState {
    Running,
    Finished,
}

/// The whole state the daemon reports.
#[derive(Debug)]
pub struct State {
    pub rpc: RpcState,
    pub tunnel: TunnelState,
    pub daemon: DaemonExecutionState,
}

impl State {
    /// The state at start-up: connecting to the conductor, tunnel down,
    /// daemon running.
    pub fn new() -> (s: State)
        ensures
            s.rpc == RpcState::Connecting,
            s.tunnel is DisConnected,
            s.daemon == DaemonExecutionState::Running,
    {
        State {
            rpc: RpcState::Connecting,
            tunnel: TunnelState::DisConnected,
            daemon: DaemonExecutionState::Running,
        }
    }
}

} // verus!
