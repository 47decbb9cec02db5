//! Events the daemon sends to its front ends.
use vstd::prelude::*;
use super::states::{RpcState, TunnelState};
use super::settings::Settings;

verus! {

/// An event sent out from the daemon to front ends.
pub enum DaemonBroadcast {
    /// The tunnel changed state.
    TunnelState(TunnelState),
    /// The RPC link changed state.
    RpcState(RpcState),
    /// The settings changed.
    Settings(Settings),
}

} // verus!
