use dnet::ovrouterd::daemon::{Daemon, DaemonAction, DaemonEvent};
use dnet::ovrouterd::domain::TincInfo;
use dnet::ovrouterd::tinc_manager::check::{check_pub_key, tincd_path};
use dnet::ovrouterd::rpc_monitor::{call_step, monitor_step, CallStep, MonitorAction, MonitorEvent};
use dnet::ovrouterd::tinc_manager::operator::{
    auth_file_path, get_wan_name, host_down_report_script, host_up_report_script, tinc_down_report_script,
    tinc_up_report_script, wan_from_route_output, WanError,
};
use dnet::ovrouterd::tinc_manager::tinc_monitor::{remaining_sleep_ms, RestartBackoff, TINC_FREQUENCY};

const ROUTES: &str = "10.0.0.0/8 dev tun0 proto kernel scope link src 10.1.1.1\n  default via 192.168.1.1 dev enp3s0 proto dhcp metric 100\ndefault via 10.0.0.1 dev tun0\n";

#[test]
fn wan_device_is_read_from_the_default_route() {
    assert_eq!(wan_from_route_output(ROUTES).unwrap(), "enp3s0");
    assert!(wan_from_route_output("").is_none());
    assert!(wan_from_route_output("10.0.0.0/8 dev tun0\n").is_none());
    assert!(wan_from_route_output("default via 1.1.1.1 dev\n").is_none());
    assert_eq!(wan_from_route_output("default via 1.1.1.1\tdev  eth9").unwrap(), "eth9");
}

#[test]
fn wan_name_errors() {
    assert!(matches!(get_wan_name(Ok(ROUTES.to_string())), Ok(d) if d == "enp3s0"));
    assert!(matches!(get_wan_name(Ok("nothing".to_string())), Err(WanError::NoWanDev)));
    assert!(matches!(get_wan_name(Err("no ip".to_string())), Err(WanError::FailedToRunIp(e)) if e == "no ip"));
}

#[test]
fn tinc_files() {
    assert_eq!(tincd_path("/root/tinc"), "/root/tinc/tincd");
    assert_eq!(auth_file_path("/root/tinc/"), "/root/tinc/auth/auth.txt");
    let t = TincInfo::new("/root/tinc");
    assert_eq!(t.vip.text, "10.255.255.254");
    assert_eq!(t.pub_key, "");
    assert_eq!(t.tinc_home, "/root/tinc");
}

#[test]
fn public_key_is_fresh_for_thirty_days() {
    assert!(check_pub_key(Some(0)));
    assert!(check_pub_key(Some(30 * 24 * 3600 - 1)));
    assert!(!check_pub_key(Some(30 * 24 * 3600)));
    assert!(!check_pub_key(Some(u64::MAX)));
    assert!(!check_pub_key(None));
}

#[test]
fn the_rest_of_a_period_is_slept() {
    assert_eq!(remaining_sleep_ms(TINC_FREQUENCY, 0), Some(5000));
    assert_eq!(remaining_sleep_ms(TINC_FREQUENCY, 1200), Some(3800));
    assert_eq!(remaining_sleep_ms(TINC_FREQUENCY, 5000), Some(0));
    assert_eq!(remaining_sleep_ms(TINC_FREQUENCY, 5001), None);
    assert_eq!(remaining_sleep_ms(u64::MAX, 0), Some(u64::MAX));
    assert_eq!(remaining_sleep_ms(u64::MAX / 1000, 7), Some(u64::MAX / 1000 * 1000 - 7));
    assert_eq!(remaining_sleep_ms(u64::MAX / 1000 + 1, u64::MAX), Some(385));
}

#[test]
fn restart_waits_grow_to_a_minute() {
    let mut b = RestartBackoff::new();
    let waits: Vec<u64> = (0..14).map(|_| b.after_failure()).collect();
    assert_eq!(waits, vec![5, 10, 15, 20, 25, 30, 35, 40, 45, 50, 55, 60, 60, 60]);
}

#[test]
fn rpc_failures_reconnect_and_restarts_are_monitored() {
    let mut d = Daemon::new(1u32);
    assert!(matches!(d.handle_event(DaemonEvent::RpcFailed), DaemonAction::Reconnect));
    assert_eq!(d.client, 1);
    assert!(matches!(d.handle_event(DaemonEvent::RpcRestart(7)), DaemonAction::MonitorRpc(7)));
    assert_eq!(d.client, 7);
}

#[test]
fn report_scripts() {
    assert_eq!(tinc_up_report_script("/root/tinc"), "#!/bin/sh\n".to_string() + "/root/tinc" + "/tinc-report -u");
    assert_eq!(tinc_down_report_script("/t"), "#!/bin/sh\n/t/tinc-report -d");
    assert_eq!(host_up_report_script("/t"), "#!/bin/sh\n/t/tinc-report -hu ${NODE}");
    assert_eq!(host_down_report_script("/t"), "#!/bin/sh\n/t/tinc-report -hd ${NODE}");
}

#[test]
fn conductor_calls_are_retried_for_three_seconds() {
    assert_eq!(call_step(true, 9999), CallStep::Done);
    assert_eq!(call_step(false, 0), CallStep::RetryAfter(100));
    assert_eq!(call_step(false, 3000), CallStep::RetryAfter(100));
    assert_eq!(call_step(false, 3001), CallStep::TimedOut);
}

#[test]
fn conductor_monitor_turns() {
    assert_eq!(monitor_step(MonitorEvent::TurnStarted), MonitorAction::SendHeartbeat);
    assert_eq!(monitor_step(MonitorEvent::HeartbeatDone(true)), MonitorAction::QueryOnlineProxy);
    assert_eq!(monitor_step(MonitorEvent::HeartbeatDone(false)), MonitorAction::ReportFailed);
    assert_eq!(monitor_step(MonitorEvent::OnlineProxyDone(false, 10)), MonitorAction::ReportFailed);
    assert_eq!(monitor_step(MonitorEvent::OnlineProxyDone(true, 1500)), MonitorAction::Sleep(18500));
    assert_eq!(monitor_step(MonitorEvent::OnlineProxyDone(true, 20000)), MonitorAction::Sleep(0));
    assert_eq!(monitor_step(MonitorEvent::OnlineProxyDone(true, 25000)), MonitorAction::Sleep(0));
}
