use dnet::dnet_daemon::tinc_manager::operator::{tinc_home, tinc_run_mode, TincRunMode};
use dnet::dnet_daemon::tinc_manager::tinc_event_handle::{
    host_change_event, EventReader, ReadEvent, ReadStep, host_status_change_handle, recv_parse, HostChangeAction, TincEvent,
};
use dnet::dnet_daemon::tinc_manager::tinc_monitor::{
    check_outcome, connect_step, dispatch, TunnelAction, TunnelCommand, disconnect_response, start_response, InnerStatus, MonitorInner,
};
use dnet::dnet_types::settings::RunMode;
use dnet::dnet_types::states::TunnelState;
use dnet::dnet_types::tinc_host_status_change::HostStatusChange;

#[test]
fn tinc_home_under_daemon_home() {
    assert_eq!(tinc_home("/opt/dnet"), "/opt/dnet/tinc/");
    assert_eq!(tinc_home("/opt/dnet/"), "/opt/dnet/tinc/");
    assert_eq!(tinc_run_mode(RunMode::Center), TincRunMode::Center);
    assert_eq!(tinc_run_mode(RunMode::Proxy), TincRunMode::Proxy);
}

#[test]
fn tinc_events_are_read() {
    assert!(matches!(recv_parse("18 2 Host-up 10_1_2_3"), Some(HostStatusChange::HostUp(h)) if h == "10_1_2_3"));
    assert!(matches!(recv_parse("18 2  Host-Down\tproxy_1"), Some(HostStatusChange::HostDown(h)) if h == "proxy_1"));
    assert!(recv_parse("18 2 Host-UP x").is_none());
    assert!(recv_parse("18 2 Host-up").is_none());
    assert!(recv_parse("18 2 Host-up a b").is_none());
}

#[test]
fn host_events_are_acted_on() {
    let up = || HostStatusChange::HostUp("h".to_string());
    assert!(matches!(host_status_change_handle(RunMode::Client, up()), HostChangeAction::AddRoute(h) if h == "h"));
    assert!(matches!(
        host_status_change_handle(RunMode::Client, HostStatusChange::HostDown("h".to_string())),
        HostChangeAction::DelRoute(h) if h == "h"
    ));
    assert!(matches!(host_status_change_handle(RunMode::Client, HostStatusChange::TincUp), HostChangeAction::Ignore));
    assert!(matches!(host_status_change_handle(RunMode::Center, up()), HostChangeAction::NotifyCenter(_)));
    assert!(matches!(host_status_change_handle(RunMode::Proxy, up()), HostChangeAction::Ignore));
}

#[test]
fn connect_starts_tinc_once() {
    let (s, start) = connect_step(TunnelState::DisConnected);
    assert!(start);
    assert!(matches!(s, TunnelState::Connecting));
    let (s, start) = connect_step(s);
    assert!(!start);
    assert!(matches!(s, TunnelState::Connecting));
    let (_, start) = connect_step(TunnelState::DisConnecting);
    assert!(start);
    let (_, start) = connect_step(TunnelState::Connected);
    assert!(!start);
}

#[test]
fn monitor_responses() {
    assert_eq!(start_response(Ok(())).code, 200);
    let r = start_response(Err("TincNotExist".to_string()));
    assert_eq!((r.code, r.msg.as_str()), (500, "TincNotExist"));
    assert_eq!(disconnect_response(Ok(()), true).code, 200);
    let r = disconnect_response(Ok(()), false);
    assert_eq!((r.code, r.msg.as_str()), (500, "Can't stop tinc check."));
    let r = disconnect_response(Err("e".to_string()), true);
    assert_eq!((r.code, r.msg.as_str()), (500, "e"));
}

#[test]
fn health_check_pace() {
    let mut m = MonitorInner::new(0);
    assert!(!m.turn(None, 10_000));
    assert!(!m.turn(Some(InnerStatus::Start), 4_000));
    assert!(m.turn(None, 5_001));
    assert_eq!(m.check_time_ms, 5_001);
    assert!(!m.turn(None, 9_000));
    assert!(m.turn(None, 10_002));
    assert!(!m.turn(Some(InnerStatus::Stop), 20_000));
    assert!(matches!(check_outcome(true), (TunnelState::Connected, false)));
    assert!(matches!(check_outcome(false), (TunnelState::DisConnected, true)));
}

fn teams(name: &str, ids: &[&str]) -> (String, Vec<String>) {
    (name.to_string(), ids.iter().map(|x| x.to_string()).collect())
}

#[test]
fn tinc_events_for_the_user_interface() {
    let e = TincEvent::new("host-up", "proxy_1_2_3_4", teams("", &[])).unwrap();
    assert_eq!((e.state.as_str(), e.device_name.as_str(), e.team_id.len()), ("host-up", "proxy_1_2_3_4", 0));
    let e = TincEvent::new("host-up", "a_proxy", teams("dev", &["t"])).unwrap();
    assert_eq!(e.device_name, "a_proxy");
    let e = TincEvent::new("host-down", "10_1_2_3", teams("laptop", &["t1", "t2"])).unwrap();
    assert_eq!(e.device_name, "laptop");
    assert_eq!(e.team_id, vec!["t1".to_string(), "t2".to_string()]);
    assert!(TincEvent::new("host-down", "10_1_2_3", teams("", &["t1"])).is_none());
    assert!(TincEvent::new("host-down", "10_1_2_3", teams("laptop", &[])).is_none());
    assert!(TincEvent::new("host-down", "Proxy", teams("", &[])).is_none());
}

#[test]
fn host_changes_become_events() {
    let up = host_change_event(&HostStatusChange::HostUp("proxy_x".to_string()), teams("", &[])).unwrap();
    assert_eq!(up.state, "host-up");
    let down = host_change_event(&HostStatusChange::HostDown("h".to_string()), teams("d", &["t"])).unwrap();
    assert_eq!(down.state, "host-down");
    assert_eq!(down.device_name, "d");
    assert!(host_change_event(&HostStatusChange::TincUp, teams("d", &["t"])).is_none());
    assert!(host_change_event(&HostStatusChange::TincDown, teams("d", &["t"])).is_none());
}

#[test]
fn tunnel_commands_are_dispatched() {
    assert_eq!(dispatch(TunnelCommand::Connect), TunnelAction::ConnectThenCheck);
    assert_eq!(dispatch(TunnelCommand::Disconnect), TunnelAction::Disconnect);
    assert_eq!(dispatch(TunnelCommand::Reconnect), TunnelAction::RestartInBackground);
    assert_eq!(dispatch(TunnelCommand::Connected), TunnelAction::CheckAndSucceed);
    assert_eq!(dispatch(TunnelCommand::Disconnected), TunnelAction::Succeed);
}

#[test]
fn event_reader_subscribes_reads_and_drops() {
    let mut r = EventReader::new();
    assert_eq!(r.next_step(), ReadStep::Subscribe);
    let o = r.on_event(ReadEvent::Subscribed(false));
    assert!(!o.alive && o.tunnel.is_none());
    assert_eq!(r.next_step(), ReadStep::Subscribe);
    let o = r.on_event(ReadEvent::Subscribed(true));
    assert!(o.alive && o.tunnel == Some(true));
    assert_eq!(r.next_step(), ReadStep::Receive);
    let o = r.on_event(ReadEvent::Received("18 2 Host-up 10_1_2_3".to_string()));
    assert!(matches!(o.change, Some(HostStatusChange::HostUp(h)) if h == "10_1_2_3"));
    let o = r.on_event(ReadEvent::Received("noise".to_string()));
    assert!(o.alive && o.change.is_none());
    let o = r.on_event(ReadEvent::TimedOut);
    assert!(o.alive && o.tunnel.is_none());
    let o = r.on_event(ReadEvent::Failed);
    assert!(!o.alive && o.tunnel == Some(false));
    assert_eq!(r.next_step(), ReadStep::Subscribe);
}

#[test]
fn a_read_call_from_scratch() {
    // no subscription: subscribe, report connected, then a failed read drops it
    let mut r = EventReader::new();
    let first = r.on_event(ReadEvent::Subscribed(true));
    let second = r.on_event(ReadEvent::Failed);
    assert_eq!((first.tunnel, second.tunnel), (Some(true), Some(false)));
    assert!(!second.alive && !r.subscribed);
    // with a subscription a timeout keeps it and reports nothing
    let mut r = EventReader { subscribed: true };
    assert_eq!(r.next_step(), ReadStep::Receive);
    let o = r.on_event(ReadEvent::TimedOut);
    assert!(o.alive && o.tunnel.is_none() && r.subscribed);
}

#[test]
fn health_check_while_stopped_never_checks() {
    let mut m = MonitorInner::new(0);
    for t in [10_000u64, 100_000, 1_000_000] {
        assert!(!m.turn(None, t));
    }
    assert!(!m.turn(Some(InnerStatus::Stop), 2_000_000));
    assert_eq!(m.check_time_ms, 0);
}
