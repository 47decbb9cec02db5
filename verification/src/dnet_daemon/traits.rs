//! The parts of the daemon and the traits they implement.
use vstd::prelude::*;
use std::sync::mpsc::Sender;
use crate::dnet_daemon::tinc_manager::tinc_monitor::TunnelCommand;

verus! {

/// A channel end that sends values to another thread
/// (`std::sync::mpsc::Sender`); the library only hands it on.
#[verifier::external_type_specification]
#[verifier::external_body]
#[verifier::reject_recursive_types(T)]
pub struct ExSender<T>(Sender<T>);

/// A request from a front end.
pub enum RpcRequest {
    Status,
}

/// Events the daemon's parts send to its main loop.
pub enum DaemonEvent {
    /// The tunnel is up.
    TunnelConnected,
    /// The tunnel is down.
    TunnelDisconnected,
    /// The tunnel could not be set up; the payload says why.
    TunnelInitFailed(String),
    /// The process was asked to stop.
    ShutDown,
}

/// The daemon's record of itself, created when the daemon starts.
pub trait InfoTrait: Sized {
    fn new(daemon_event_tx: Sender<DaemonEvent>) -> Self;

    fn create_uid(&mut self);
}

/// The part that runs the tunnel; it takes tunnel commands on the channel
/// it returns.
pub trait TunnelTrait: Sized {
    fn new(daemon_event_tx: Sender<DaemonEvent>) -> (Self, Sender<TunnelCommand>);

    fn start_monitor(self);
}

} // verus!
