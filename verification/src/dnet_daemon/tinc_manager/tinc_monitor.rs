//! The tunnel monitor's decisions: connecting, disconnecting and the
//! periodic health check of tinc.
use vstd::prelude::*;
use crate::dnet_types::response::Response;
use crate::dnet_types::states::TunnelState;

verus! {

/// Seconds between two health checks of tinc.
pub const TINC_FREQUENCY: u32 = 5;

/// Commands the daemon sends to the tunnel monitor.
#[derive(Clone, Copy, Debug, PartialEq, Eq, Structural)]
pub enum TunnelCommand {
    Connect,
    Disconnect,
    Reconnect,
    Connected,
    Disconnected,
}

/// Whether the periodic health check runs.
#[derive(Clone, Copy, Debug, PartialEq, Eq, Structural)]
pub enum InnerStatus {
    Start,
    Stop,
}

/// A connect request starts tinc only when the tunnel is down or going
/// down; the tunnel then becomes `Connecting`.
pub open spec fn connect_starts(t: TunnelState) -> bool {
    t is DisConnected || t is DisConnecting
}

/// The tunnel state after a connect request and whether tinc must be
/// started.
pub open spec fn connect_next(t: TunnelState) -> (TunnelState, bool) {
    if connect_starts(t) {
        (TunnelState::Connecting, true)
    } else {
        (t, false)
    }
}

/// Decides a connect request: the tunnel state after it and whether tinc
/// must be started.
pub fn connect_step(tunnel: TunnelState) -> (r: (TunnelState, bool))
    ensures
        r == connect_next(tunnel),
{
    match tunnel {
        TunnelState::DisConnected | TunnelState::DisConnecting => (TunnelState::Connecting, true),
        other => (other, false),
    }
}

/// The code and message of the reply for how starting tinc went.
pub open spec fn start_reply(result: Result<(), String>) -> (u32, Seq<char>) {
    match result {
        Ok(_) => (200, ""@),
        Err(e) => (500, e@),
    }
}

/// The reply to a connect request given how starting tinc went (`Err`
/// holds the error's text): success, or an internal error with that text.
pub fn start_response(result: Result<(), String>) -> (r: Response)
    ensures
        (r.code, r.msg@) == start_reply(result),
        r.data is None,
{
    match result {
        Ok(_) => Response::success(),
        Err(e) => Response::internal_error().set_msg(e),
    }
}

/// The reply to a disconnect request given how stopping tinc went and
/// whether the health check could be told to stop.
pub fn disconnect_response(stop_result: Result<(), String>, check_stopped: bool) -> (r: Response)
    ensures
        match stop_result {
            Err(e) => r.code == 500 && r.msg@ == e@,
            Ok(_) => if check_stopped {
                r.code == 200 && r.msg@ == ""@
            } else {
                r.code == 500 && r.msg@ == "Can't stop tinc check."@
            },
        },
        r.data is None,
{
    match stop_result {
        Err(e) => Response::internal_error().set_msg(e),
        Ok(_) => if check_stopped {
            Response::success()
        } else {
            Response::internal_error().set_msg("Can't stop tinc check.".to_string())
        },
    }
}

/// The state of the periodic health check.
pub struct MonitorInner {
    pub status: InnerStatus,
    /// Milliseconds at which tinc was last checked.
    pub check_time_ms: u64,
}

/// One turn of the health check at time `now_ms`, with the command
/// received since the last turn, if any: the new state, and whether tinc is
/// checked now.  Tinc is checked when the check runs and more than
/// `TINC_FREQUENCY` seconds have passed since the last check; the time of
/// that check is then `now_ms`.
pub open spec fn turn_step(m: MonitorInner, cmd: Option<InnerStatus>, now_ms: u64) -> (
    MonitorInner,
    bool,
) {
    let status = match cmd {
        Some(c) => c,
        None => m.status,
    };
    if status == InnerStatus::Start && now_ms > m.check_time_ms && now_ms - m.check_time_ms > 5000 {
        (MonitorInner { status, check_time_ms: now_ms }, true)
    } else {
        (MonitorInner { status, check_time_ms: m.check_time_ms }, false)
    }
}

impl MonitorInner {
    /// The health check before any command: stopped, last checked at `now_ms`.
    pub fn new(now_ms: u64) -> (m: MonitorInner)
        ensures
            m.status == InnerStatus::Stop,
            m.check_time_ms == now_ms,
    {
        MonitorInner { status: InnerStatus::Stop, check_time_ms: now_ms }
    }

    /// One turn of the loop (see `turn_step`).
    pub fn turn(&mut self, cmd: Option<InnerStatus>, now_ms: u64) -> (check: bool)
        ensures
            (*final(self), check) == turn_step(*old(self), cmd, now_ms),
    {
        if let Some(c) = cmd {
            self.status = c;
        }
        if self.status == InnerStatus::Start && now_ms > self.check_time_ms && now_ms
            - self.check_time_ms > 5000 {
            self.check_time_ms = now_ms;
            true
        } else {
            false
        }
    }
}

/// Two checks of tinc are more than five seconds apart: after a turn that
/// checks at `t1`, a later turn checks again only if more than five
/// seconds have passed, whatever commands came in between.
pub proof fn lemma_checks_spaced(
    m0: MonitorInner,
    c1: Option<InnerStatus>,
    t1: u64,
    c2: Option<InnerStatus>,
    t2: u64,
)
    requires
        turn_step(m0, c1, t1).1,
        turn_step(turn_step(m0, c1, t1).0, c2, t2).1,
    ensures
        t2 - t1 > 5000,
{
}

/// The tunnel state a health check leads to, and whether a reconnect is
/// requested.
pub open spec fn check_result(healthy: bool) -> (TunnelState, bool) {
    if healthy {
        (TunnelState::Connected, false)
    } else {
        (TunnelState::DisConnected, true)
    }
}

/// What the outcome of a health check makes of the tunnel: a healthy tinc
/// means `Connected`; otherwise the tunnel is `DisConnected` and a reconnect
/// is requested (the second component).
pub fn check_outcome(healthy: bool) -> (r: (TunnelState, bool))
    ensures
        r == check_result(healthy),
{
    if healthy {
        (TunnelState::Connected, false)
    } else {
        (TunnelState::DisConnected, true)
    }
}

/// A connect request never starts tinc twice: after a request that started
/// it, the tunnel is `Connecting` and a second request does not start it.
pub proof fn lemma_connect_idempotent(t: TunnelState, after: TunnelState)
    requires
        connect_starts(t),
        after is Connecting,
    ensures
        !connect_starts(after),
{
}

/// A connect request, whole: a tunnel that is down or going down becomes
/// `Connecting`, tinc is started once, and the reply is success or an
/// internal error with the text of what went wrong; any other tunnel is
/// left as it is, tinc is not started, and the reply is success.  `start`
/// is what starting tinc gives (`connect_step` says whether to start it,
/// `start_response` turns the outcome into the reply).
pub proof fn lemma_connect(t0: TunnelState, start: Result<(), String>)
    ensures
        connect_starts(t0) ==> connect_next(t0) == (TunnelState::Connecting, true) && start_reply(
            start,
        ) == (match start {
            Ok(_) => (200u32, ""@),
            Err(e) => (500u32, e@),
        }),
        !connect_starts(t0) ==> connect_next(t0) == (t0, false) && start_reply(Ok(())) == (
            200u32,
            ""@,
        ),
{
}

/// The health check runs no check while it is stopped; a failed check
/// marks the tunnel disconnected and asks for one reconnect, a passed one
/// marks it connected and asks for none.
pub proof fn lemma_health_check(m: MonitorInner, cmd: Option<InnerStatus>, now_ms: u64, healthy: bool)
    ensures
        turn_step(m, cmd, now_ms).0.status == InnerStatus::Stop ==> !turn_step(m, cmd, now_ms).1,
        cmd is None && m.status == InnerStatus::Stop ==> !turn_step(m, cmd, now_ms).1
            && turn_step(m, cmd, now_ms).0 == m,
        !healthy ==> check_result(healthy) == (TunnelState::DisConnected, true),
        healthy ==> check_result(healthy) == (TunnelState::Connected, false),
{
}

/// What the tunnel monitor does for a command (`TincMonitor::run`).
#[derive(Clone, Copy, Debug, PartialEq, Eq, Structural)]
pub enum TunnelAction {
    /// Start tinc if the tunnel is down, answer with the outcome, then
    /// start the health check.
    ConnectThenCheck,
    /// Stop tinc and the health check, and answer with the outcome.
    Disconnect,
    /// Restart tinc in the background and answer with the outcome.
    RestartInBackground,
    /// Start the health check and answer success.
    CheckAndSucceed,
    /// Answer success.
    Succeed,
}

/// The action for each tunnel command.
pub fn dispatch(cmd: TunnelCommand) -> (a: TunnelAction)
    ensures
        a == match cmd {
            TunnelCommand::Connect => TunnelAction::ConnectThenCheck,
            TunnelCommand::Disconnect => TunnelAction::Disconnect,
            TunnelCommand::Reconnect => TunnelAction::RestartInBackground,
            TunnelCommand::Connected => TunnelAction::CheckAndSucceed,
            TunnelCommand::Disconnected => TunnelAction::Succeed,
        },
{
    match cmd {
        TunnelCommand::Connect => TunnelAction::ConnectThenCheck,
        TunnelCommand::Disconnect => TunnelAction::Disconnect,
        TunnelCommand::Reconnect => TunnelAction::RestartInBackground,
        TunnelCommand::Connected => TunnelAction::CheckAndSucceed,
        TunnelCommand::Disconnected => TunnelAction::Succeed,
    }
}

} // verus!
