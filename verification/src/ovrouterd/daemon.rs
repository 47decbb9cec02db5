//! The router daemon's event loop: losing and regaining the conductor.
use vstd::prelude::*;

verus! {

/// Events of the router daemon's main loop.  `C` is the connection to the
/// conductor that a restart hands over.
pub enum DaemonEvent<C> {
    /// The link to the conductor failed.
    RpcFailed,
    /// A new link to the conductor is ready.
    RpcRestart(C),
}

/// What the main loop does about an event.
pub enum DaemonAction<C> {
    /// Reconnect to the conductor in the background.
    Reconnect,
    /// Watch the new link; the loop keeps it as its current link.
    MonitorRpc(C),
}

/// The main loop's state: the current link.
pub struct Daemon<C> {
    pub client: C,
}

impl<C: Copy> Daemon<C> {
    /// A loop with a link.
    pub fn new(client: C) -> (d: Daemon<C>)
        ensures
            d.client == client,
    {
        Daemon { client }
    }

    /// Handles one event: a failed link is reconnected in the background;
    /// a new link is watched and kept.
    pub fn handle_event(&mut self, event: DaemonEvent<C>) -> (a: DaemonAction<C>)
        ensures
            match event {
                DaemonEvent::RpcFailed => a is Reconnect && final(self).client == old(self).client,
                DaemonEvent::RpcRestart(c) => (a matches DaemonAction::MonitorRpc(x) && x == c)
                    && final(self).client == c,
            },
    {
        match event {
            DaemonEvent::RpcFailed => DaemonAction::Reconnect,
            DaemonEvent::RpcRestart(c) => {
                self.client = c;
                DaemonAction::MonitorRpc(c)
            },
        }
    }
}

} // verus!
