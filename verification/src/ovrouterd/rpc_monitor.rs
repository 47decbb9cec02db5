//! The conductor monitor: each turn sends a heartbeat and then fetches the
//! online proxies, each call retried for a while; a call that times out
//! ends the monitor and tells the daemon.
use vstd::prelude::*;
use super::tinc_manager::tinc_monitor::remaining_sleep_ms;

verus! {

/// Seconds between the starts of two turns.
pub const HEARTBEAT_FREQUENCY: u64 = 20;

/// Milliseconds after which a call that keeps failing has timed out.
pub const CALL_TIMEOUT_MS: u64 = 3000;

/// Milliseconds between two attempts of a call.
pub const CALL_RETRY_MS: u64 = 100;

/// What a conductor call does after an attempt.
#[derive(Clone, Copy, Debug, PartialEq, Eq, Structural)]
pub enum CallStep {
    /// The call succeeded.
    Done,
    /// Try again after this many milliseconds.
    RetryAfter(u64),
    /// The call failed for too long.
    TimedOut,
}

/// After an attempt of a conductor call that began `elapsed_ms` ago
/// (`exec_heartbeat`, `exec_online_proxy`): done when the attempt
/// succeeded; otherwise timed out once more than three seconds passed,
/// else another attempt after 100 ms.
pub fn call_step(succeeded: bool, elapsed_ms: u64) -> (r: CallStep)
    ensures
        succeeded ==> r == CallStep::Done,
        !succeeded && elapsed_ms > CALL_TIMEOUT_MS ==> r == CallStep::TimedOut,
        !succeeded && elapsed_ms <= CALL_TIMEOUT_MS ==> r == CallStep::RetryAfter(CALL_RETRY_MS),
{
    if succeeded {
        CallStep::Done
    } else if elapsed_ms > CALL_TIMEOUT_MS {
        CallStep::TimedOut
    } else {
        CallStep::RetryAfter(CALL_RETRY_MS)
    }
}

/// What the monitor does next.
#[derive(Clone, Copy, Debug, PartialEq, Eq, Structural)]
pub enum MonitorAction {
    /// Send a heartbeat.
    SendHeartbeat,
    /// Fetch the online proxies.
    QueryOnlineProxy,
    /// Wait this many milliseconds, then start the next turn.
    Sleep(u64),
    /// Tell the daemon that the conductor is lost, and stop.
    ReportFailed,
}

/// What happened last.
#[derive(Clone, Copy, Debug, PartialEq, Eq, Structural)]
pub enum MonitorEvent {
    /// A turn begins.
    TurnStarted,
    /// The heartbeat call ended: sent, or timed out.
    HeartbeatDone(bool),
    /// The online-proxy call ended (fetched, or timed out), this many
    /// milliseconds after the turn began.
    OnlineProxyDone(bool, u64),
}

/// One step of the monitor (`run`): a turn sends the heartbeat, then
/// fetches the online proxies, then sleeps for the rest of the twenty
/// seconds (not at all when the turn took longer); a call that timed out
/// reports the failure.
pub fn monitor_step(event: MonitorEvent) -> (a: MonitorAction)
    ensures
        match event {
            MonitorEvent::TurnStarted => a == MonitorAction::SendHeartbeat,
            MonitorEvent::HeartbeatDone(ok) => if ok {
                a == MonitorAction::QueryOnlineProxy
            } else {
                a == MonitorAction::ReportFailed
            },
            MonitorEvent::OnlineProxyDone(ok, elapsed) => if !ok {
                a == MonitorAction::ReportFailed
            } else if elapsed <= HEARTBEAT_FREQUENCY * 1000 {
                a == MonitorAction::Sleep((HEARTBEAT_FREQUENCY * 1000 - elapsed) as u64)
            } else {
                a == MonitorAction::Sleep(0)
            },
        },
{
    match event {
        MonitorEvent::TurnStarted => MonitorAction::SendHeartbeat,
        MonitorEvent::HeartbeatDone(ok) => if ok {
            MonitorAction::QueryOnlineProxy
        } else {
            MonitorAction::ReportFailed
        },
        MonitorEvent::OnlineProxyDone(ok, elapsed) => if !ok {
            MonitorAction::ReportFailed
        } else {
            match remaining_sleep_ms(HEARTBEAT_FREQUENCY, elapsed) {
                Some(ms) => MonitorAction::Sleep(ms),
                None => MonitorAction::Sleep(0),
            }
        },
    }
}

} // verus!
