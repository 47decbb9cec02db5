//! The event loop of the router daemons: losing and regaining the
//! conductor, and shutting down.
use vstd::prelude::*;
use crate::dnet_types::states::DaemonExecutionState;

verus! {

/// Events of a daemon's main loop.  `C` is the connection to the
/// conductor that a restart hands over.
pub enum DaemonEvent<C> {
    /// The link to the conductor failed.
    RpcFailed,
    /// A new link to the conductor is ready.
    RpcRestart(C),
    /// The process was asked to stop.
    ShutDown,
}

/// What the main loop does about an event.
pub enum DaemonAction<C> {
    /// Reconnect to the conductor in the background.
    Reconnect,
    /// Watch the new link (the loop keeps it as its current link).
    MonitorRpc(C),
    /// Leave the loop.
    Stop,
}

/// The main loop's state: the current link and whether the loop runs.
pub struct Daemon<C> {
    pub client: C,
    pub status: DaemonExecutionState,
}

impl<C: Copy> Daemon<C> {
    /// A running loop with a link.
    pub fn new(client: C) -> (d: Daemon<C>)
        ensures
            d.client == client,
            d.status == DaemonExecutionState::Running,
    {
        Daemon { client, status: DaemonExecutionState::Running }
    }

    /// Handles one event: a failed link is reconnected; a new link is
    /// watched and kept; a shutdown finishes the loop.  Nothing else
    /// changes the state.
    pub fn handle_event(&mut self, event: DaemonEvent<C>) -> (a: DaemonAction<C>)
        ensures
            match event {
                DaemonEvent::RpcFailed => a is Reconnect && *final(self) == *old(self),
                DaemonEvent::RpcRestart(c) => (a matches DaemonAction::MonitorRpc(x) && x == c)
                    && final(self).client == c && final(self).status == old(self).status,
                DaemonEvent::ShutDown => a is Stop && final(self).client == old(self).client
                    && final(self).status == DaemonExecutionState::Finished,
            },
    {
        match event {
            DaemonEvent::RpcFailed => DaemonAction::Reconnect,
            DaemonEvent::RpcRestart(c) => {
                self.client = c;
                DaemonAction::MonitorRpc(c)
            },
            DaemonEvent::ShutDown => {
                self.status = DaemonExecutionState::Finished;
                DaemonAction::Stop
            },
        }
    }

    /// Whether the loop goes on.
    pub fn is_running(&self) -> (r: bool)
        ensures
            r == (self.status == DaemonExecutionState::Running),
    {
        self.status == DaemonExecutionState::Running
    }
}

/// The steps that connect the proxy to the conductor (`init_client`), in
/// order.
#[derive(Clone, Copy, Debug, PartialEq, Eq, Structural)]
pub enum InitStep {
    /// Log in.
    Login,
    /// Write the credentials file of tinc's reporter.
    WriteAuthFile,
    /// Register the proxy.
    Register,
    /// Send the first heartbeat.
    Heartbeat,
    /// Connected.
    Done,
}

/// The step after `step` ended (`ok` when it succeeded), and whether to
/// sleep a second first: the next step in order after a success; back to
/// logging in, after a pause, after a failure.
pub open spec fn init_step(step: InitStep, ok: bool) -> (InitStep, bool) {
    match step {
        InitStep::Done => (InitStep::Done, false),
        _ => if !ok {
            (InitStep::Login, true)
        } else {
            match step {
                InitStep::Login => (InitStep::WriteAuthFile, false),
                InitStep::WriteAuthFile => (InitStep::Register, false),
                InitStep::Register => (InitStep::Heartbeat, false),
                _ => (InitStep::Done, false),
            }
        },
    }
}

/// One step of connecting to the conductor (see `init_step`).
pub fn init_client_step(step: InitStep, ok: bool) -> (r: (InitStep, bool))
    ensures
        r == init_step(step, ok),
{
    match step {
        InitStep::Done => (InitStep::Done, false),
        _ => if !ok {
            (InitStep::Login, true)
        } else {
            match step {
                InitStep::Login => (InitStep::WriteAuthFile, false),
                InitStep::WriteAuthFile => (InitStep::Register, false),
                InitStep::Register => (InitStep::Heartbeat, false),
                _ => (InitStep::Done, false),
            }
        },
    }
}

/// The proxy is connected only after a heartbeat succeeded, and every
/// failure starts over from logging in.
pub proof fn lemma_init_order(step: InitStep, ok: bool)
    ensures
        step != InitStep::Done && init_step(step, ok).0 == InitStep::Done ==> step == InitStep::Heartbeat
            && ok,
        step != InitStep::Done && !ok ==> init_step(step, ok) == (InitStep::Login, true),
{
}

} // verus!
