//! Reading tinc's host events and deciding what to do about them.
use vstd::prelude::*;
use crate::dnet_types::settings::RunMode;
use crate::dnet_types::tinc_host_status_change::HostStatusChange;
use crate::text::{ascii_ws_tokens, chars_of, contains, contains_exec, split_ws, string_of, views};

verus! {

/// The event a line from tinc's subscription reports: a line of exactly
/// four whitespace-separated fields whose third is `Host-up` or
/// `Host-Down` names the host in its fourth.
pub open spec fn host_event_of(line: Seq<char>) -> Option<(bool, Seq<char>)> {
    let t = ascii_ws_tokens(line);
    if t.len() == 4 && t[2] == "Host-up"@ {
        Some((true, t[3]))
    } else if t.len() == 4 && t[2] == "Host-Down"@ {
        Some((false, t[3]))
    } else {
        None
    }
}

/// Reads a line from tinc's event subscription.
pub fn recv_parse(res: &str) -> (r: Option<HostStatusChange>)
    ensures
        match host_event_of(res@) {
            Some((true, h)) => r matches Some(HostStatusChange::HostUp(x)) && x@ == h,
            Some((false, h)) => r matches Some(HostStatusChange::HostDown(x)) && x@ == h,
            None => r is None,
        },
{
    let line = chars_of(res);
    let t = split_ws(&line, false);
    assert(views(t@) == ascii_ws_tokens(res@));
    if t.len() == 4 {
        let event = string_of(&t[2]);
        let host = string_of(&t[3]);
        assert(views(t@)[2] == t@[2]@);
        assert(views(t@)[3] == t@[3]@);
        if event == "Host-up".to_string() {
            return Some(HostStatusChange::HostUp(host));
        } else if event == "Host-Down".to_string() {
            return Some(HostStatusChange::HostDown(host));
        }
    }
    None
}

/// What the daemon does about a host event.
pub enum HostChangeAction {
    /// Report the event to the conductor (a center does this).
    NotifyCenter(HostStatusChange),
    /// Add a route to the virtual address of the named host.
    AddRoute(String),
    /// Remove the route to the virtual address of the named host.
    DelRoute(String),
    /// Nothing to do.
    Ignore,
}

/// A center reports every event; a client routes to hosts that come up and
/// drops the route to hosts that go down; a proxy does nothing.
pub fn host_status_change_handle(run_mode: RunMode, change: HostStatusChange) -> (a:
    HostChangeAction)
    ensures
        run_mode == RunMode::Center ==> (a matches HostChangeAction::NotifyCenter(c) && c == change),
        run_mode == RunMode::Client ==> match change {
            HostStatusChange::HostUp(h) => a matches HostChangeAction::AddRoute(x) && x@ == h@,
            HostStatusChange::HostDown(h) => a matches HostChangeAction::DelRoute(x) && x@ == h@,
            _ => a is Ignore,
        },
        run_mode == RunMode::Proxy ==> a is Ignore,
{
    match run_mode {
        RunMode::Center => HostChangeAction::NotifyCenter(change),
        RunMode::Client => match change {
            HostStatusChange::HostUp(h) => HostChangeAction::AddRoute(h),
            HostStatusChange::HostDown(h) => HostChangeAction::DelRoute(h),
            _ => HostChangeAction::Ignore,
        },
        RunMode::Proxy => HostChangeAction::Ignore,
    }
}

/// What a client tells its user interface about a host that came up or
/// went down.
pub struct TincEvent {
    pub state: String,
    pub device_name: String,
    pub team_id: Vec<String>,
}

/// An event as text: its state, device name and teams.
pub open spec fn event_view(e: Option<TincEvent>) -> Option<(Seq<char>, Seq<char>, Seq<String>)> {
    match e {
        Some(x) => Some((x.state@, x.device_name@, x.team_id@)),
        None => None,
    }
}

/// The event for `host` in `state`, given what the running teams say of the
/// host (its device name and the teams it runs in): a proxy is reported
/// under its own name and in no team; another host only when the teams
/// know both its name and a team of it.
pub open spec fn tinc_event_of(
    state: Seq<char>,
    host: Seq<char>,
    device_name: Seq<char>,
    team_id: Seq<String>,
) -> Option<(Seq<char>, Seq<char>, Seq<String>)> {
    if contains(host, "proxy"@) {
        Some((state, host, Seq::empty()))
    } else if device_name.len() > 0 && team_id.len() > 0 {
        Some((state, device_name, team_id))
    } else {
        None
    }
}

impl TincEvent {
    /// The event for `host` in `state`, where `running` is what the running
    /// teams say of the host: its device name and the teams it runs in.
    pub fn new(state: &str, host: &str, running: (String, Vec<String>)) -> (r: Option<TincEvent>)
        ensures
            event_view(r) == tinc_event_of(state@, host@, running.0@, running.1@),
    {
        let h = chars_of(host);
        let pat = chars_of("proxy");
        if contains_exec(&h, &pat) {
            let r = Some(
                TincEvent { state: state.to_string(), device_name: host.to_string(), team_id: Vec::new() },
            );
            assert(event_view(r) == tinc_event_of(state@, host@, running.0@, running.1@));
            return r;
        }
        let (device_name, team_id) = running;
        if chars_of(device_name.as_str()).len() > 0 && team_id.len() > 0 {
            Some(TincEvent { state: state.to_string(), device_name, team_id })
        } else {
            None
        }
    }
}

/// The event a client reports for a host status change
/// (`send_host_change`): `host-up` or `host-down` for the host, none for
/// tinc itself going up or down.
pub fn host_change_event(change: &HostStatusChange, running: (String, Vec<String>)) -> (r: Option<
    TincEvent,
>)
    ensures
        event_view(r) == match change {
            HostStatusChange::HostUp(h) => tinc_event_of("host-up"@, h@, running.0@, running.1@),
            HostStatusChange::HostDown(h) => tinc_event_of("host-down"@, h@, running.0@, running.1@),
            _ => None,
        },
{
    match change {
        HostStatusChange::HostUp(h) => TincEvent::new("host-up", h.as_str(), running),
        HostStatusChange::HostDown(h) => TincEvent::new("host-down", h.as_str(), running),
        _ => None,
    }
}

/// A step of the event reader: whether it holds a subscription after the
/// step, what it reports of the tunnel (connected, disconnected), and
/// whether it goes on.  A new subscription reports the tunnel connected and
/// goes on; a failed one stops; a line or a timeout goes on; a failed read
/// drops the subscription, reports the tunnel disconnected and stops.
pub open spec fn read_step(subscribed: bool, event: ReadEvent) -> (bool, Option<bool>, bool) {
    match event {
        ReadEvent::Subscribed(ok) => if ok {
            (true, Some(true), true)
        } else {
            (subscribed, None, false)
        },
        ReadEvent::Received(_) => (subscribed, None, true),
        ReadEvent::TimedOut => (subscribed, None, true),
        ReadEvent::Failed => (false, Some(false), false),
    }
}

/// The tunnel reports of a step, as a sequence.
pub open spec fn reports(n: Option<bool>) -> Seq<bool> {
    match n {
        Some(b) => seq![b],
        None => Seq::empty(),
    }
}

/// One call of the reader (`TincEventHandle::recv`), starting with a
/// subscription or not: subscribe when there is none (`subscribed_ok` is how
/// that went), then take what the read gave (`read`).  The result: whether
/// a subscription is held afterwards, the tunnel reports in order, and
/// whether the call gives something back.
pub open spec fn recv_call(subscribed: bool, subscribed_ok: bool, read: ReadEvent) -> (
    bool,
    Seq<bool>,
    bool,
) {
    if subscribed {
        let (s1, n1, a1) = read_step(subscribed, read);
        (s1, reports(n1), a1)
    } else {
        let (s1, n1, a1) = read_step(false, ReadEvent::Subscribed(subscribed_ok));
        if !a1 {
            (s1, reports(n1), false)
        } else {
            let (s2, n2, a2) = read_step(s1, read);
            (s2, reports(n1) + reports(n2), a2)
        }
    }
}

/// What one call of the reader does: without a subscription it subscribes,
/// and gives nothing back, reporting nothing, when that fails; a new
/// subscription is reported as the tunnel connected, once, before anything
/// is read; with a subscription it does not subscribe again.  A line or a
/// timeout keeps the subscription and gives something back; a failed read
/// drops the subscription, reports the tunnel disconnected once, and gives
/// nothing back.
pub proof fn lemma_recv(subscribed: bool, subscribed_ok: bool, read: ReadEvent)
    requires
        !(read is Subscribed),
    ensures
        !subscribed && !subscribed_ok ==> recv_call(subscribed, subscribed_ok, read) == (
            false,
            Seq::<bool>::empty(),
            false,
        ),
        !subscribed && subscribed_ok ==> recv_call(subscribed, subscribed_ok, read).1[0] == true,
        subscribed ==> !recv_call(subscribed, subscribed_ok, read).1.contains(true),
        (subscribed || subscribed_ok) && (read is Received || read is TimedOut) ==> recv_call(
            subscribed,
            subscribed_ok,
            read,
        ) == (true, if subscribed {
            Seq::<bool>::empty()
        } else {
            seq![true]
        }, true),
        (subscribed || subscribed_ok) && read is Failed ==> recv_call(subscribed, subscribed_ok, read)
            == (false, if subscribed {
            seq![false]
        } else {
            seq![true, false]
        }, false),
{
    let r = recv_call(subscribed, subscribed_ok, read);
    if subscribed {
        if r.1.contains(true) {
            let k = choose|k: int| 0 <= k < r.1.len() && r.1[k] == true;
            assert(r.1[k] == true);
        }
    }
    if !subscribed && subscribed_ok {
        assert(reports(Some(true)) + reports(read_step(true, read).1) == r.1);
        assert(reports(Some(true))[0] == true);
    }
    if !subscribed && subscribed_ok && read is Failed {
        assert(seq![true] + seq![false] =~= seq![true, false]);
    }
    if !subscribed && subscribed_ok && (read is Received || read is TimedOut) {
        assert(seq![true] + Seq::<bool>::empty() =~= seq![true]);
    }
}

/// The reader of tinc's event subscription (`TincEventHandle::recv`):
/// whether it holds a subscription.
pub struct EventReader {
    pub subscribed: bool,
}

/// What the reader does next.
#[derive(Clone, Copy, Debug, PartialEq, Eq, Structural)]
pub enum ReadStep {
    /// Subscribe to tinc's events.
    Subscribe,
    /// Wait for the next event line.
    Receive,
}

/// What came of the reader's last step.
pub enum ReadEvent {
    /// The subscription was made, or could not be.
    Subscribed(bool),
    /// A line came in.
    Received(String),
    /// No line came in time.
    TimedOut,
    /// Reading failed.
    Failed,
}

/// What the reader reports for a step.
pub struct ReadOutcome {
    /// A change of the tunnel to report: connected (`true`) or disconnected.
    pub tunnel: Option<bool>,
    /// A host event to act on.
    pub change: Option<HostStatusChange>,
    /// Whether the reader goes on (`recv` returns something).
    pub alive: bool,
}

impl EventReader {
    /// A reader without a subscription.
    pub fn new() -> (r: EventReader)
        ensures
            !r.subscribed,
    {
        EventReader { subscribed: false }
    }

    /// The next step: subscribe first, then receive.
    pub fn next_step(&self) -> (s: ReadStep)
        ensures
            s == if self.subscribed {
                ReadStep::Receive
            } else {
                ReadStep::Subscribe
            },
    {
        if self.subscribed {
            ReadStep::Receive
        } else {
            ReadStep::Subscribe
        }
    }

    /// Takes what came of a step (see `read_step`); a line is read as a
    /// host event.
    pub fn on_event(&mut self, event: ReadEvent) -> (o: ReadOutcome)
        ensures
            (final(self).subscribed, o.tunnel, o.alive) == read_step(old(self).subscribed, event),
            match event {
                ReadEvent::Received(line) => match host_event_of(line@) {
                    Some((true, h)) => o.change matches Some(HostStatusChange::HostUp(x)) && x@ == h,
                    Some((false, h)) => o.change matches Some(HostStatusChange::HostDown(x)) && x@
                        == h,
                    None => o.change is None,
                },
                _ => o.change is None,
            },
    {
        match event {
            ReadEvent::Subscribed(ok) => {
                if ok {
                    self.subscribed = true;
                    ReadOutcome { tunnel: Some(true), change: None, alive: true }
                } else {
                    ReadOutcome { tunnel: None, change: None, alive: false }
                }
            },
            ReadEvent::Received(line) => {
                ReadOutcome { tunnel: None, change: recv_parse(line.as_str()), alive: true }
            },
            ReadEvent::TimedOut => ReadOutcome { tunnel: None, change: None, alive: true },
            ReadEvent::Failed => {
                self.subscribed = false;
                ReadOutcome { tunnel: Some(false), change: None, alive: false }
            },
        }
    }
}

} // verus!
