use dnet::dnet_types::ip::IpAddr;
use dnet::dnet_types::states::DaemonExecutionState;
use dnet::ovrouter_graphql::{MutationRoot, NewScanNode};
use dnet::proxy_core::daemon::{init_client_step, Daemon, DaemonAction, DaemonEvent, InitStep};
use dnet::proxy_core::net_tool::{
    get_mac, get_wan_name, http_json, local_ip_command, local_ip_fallback, mac_command, wan_name_command, Device,
};
use dnet::proxy_core::tinc_manager::{check_pub_key, tinc_connections};

#[test]
fn http_json_gives_form_fields() {
    assert_eq!(http_json("{\"a\":1,\"b\":\"x\"}".to_string()), "a=1&b=x");
    assert_eq!(http_json("{\"k\":\"v\\\"w\"}".to_string()), "k=vw");
    assert_eq!(http_json(String::new()), "");
    let out = http_json("{\"x\":{\"y\":[1,2]},\"z\":\"::\"}".to_string());
    assert_eq!(out, "x=y=[1&2]&z===");
    assert!(!out.contains('"') && !out.contains(':') && !out.contains(',') && !out.contains('{'));
}

#[test]
fn commands_of_the_device() {
    assert_eq!(
        wan_name_command(&IpAddr::from_text("10.0.0.2")),
        "ip address|grep 10.0.0.2 | awk '{print $(7)}'"
    );
    assert_eq!(mac_command("eth0"), "ifconfig|grep eth0| awk '{print $5}'");
    assert_eq!(local_ip_command(), "ip address|grep -w inet | awk 'NR == 2' | awk '{print $(2)}'");
    let d = Device::new();
    assert_eq!(d.if_name, "");
    assert_eq!(d.ip.text, "0.0.0.0");
    assert_eq!(d.mac, "");
}

#[test]
fn command_results() {
    assert_eq!(get_wan_name(0, "eth0".to_string()), Some("eth0".to_string()));
    assert_eq!(get_wan_name(1, "eth0".to_string()), None);
    assert_eq!(get_mac(0, "aa:bb".to_string()), Some("aa:bb".to_string()));
    assert_eq!(get_mac(-1, "aa:bb".to_string()), None);
}

#[test]
fn local_address_from_the_second_inet_line() {
    assert_eq!(local_ip_fallback(0, "192.168.1.5/24"), Some("192.168.1.5".to_string()));
    assert_eq!(local_ip_fallback(1, "10.0.0.1/8"), Some("10.0.0.1".to_string()));
    assert_eq!(local_ip_fallback(0, "no-slash"), Some("no-slash".to_string()));
    assert_eq!(local_ip_fallback(-1, "10.0.0.1/8"), None);
}

#[test]
fn tinc_counters_and_key_age() {
    assert_eq!(tinc_connections(3, 4, 5), (3, 4, 5));
    assert!(check_pub_key(Some(60)));
    assert!(!check_pub_key(None));
}

#[test]
fn daemon_stops_on_shut_down() {
    let mut d = Daemon::new('a');
    assert!(d.is_running());
    assert!(matches!(d.handle_event(DaemonEvent::RpcFailed), DaemonAction::Reconnect));
    assert!(matches!(d.handle_event(DaemonEvent::RpcRestart('b')), DaemonAction::MonitorRpc('b')));
    assert_eq!(d.client, 'b');
    assert!(matches!(d.handle_event(DaemonEvent::ShutDown), DaemonAction::Stop));
    assert!(!d.is_running());
    assert_eq!(d.status, DaemonExecutionState::Finished);
}

#[test]
fn graphql_scan_node() {
    let r = MutationRoot.new_scan_node(NewScanNode { ip: "1.2.3.4".to_string() });
    assert_eq!(r.ip, "123");
}

#[test]
fn connecting_to_the_conductor_goes_in_order_and_starts_over() {
    assert_eq!(init_client_step(InitStep::Login, true), (InitStep::WriteAuthFile, false));
    assert_eq!(init_client_step(InitStep::WriteAuthFile, true), (InitStep::Register, false));
    assert_eq!(init_client_step(InitStep::Register, true), (InitStep::Heartbeat, false));
    assert_eq!(init_client_step(InitStep::Heartbeat, true), (InitStep::Done, false));
    assert_eq!(init_client_step(InitStep::Register, false), (InitStep::Login, true));
    assert_eq!(init_client_step(InitStep::Login, false), (InitStep::Login, true));
    assert_eq!(init_client_step(InitStep::Done, false), (InitStep::Done, false));
}

#[test]
fn http_json_twice_is_http_json_once() {
    for j in ["{\"a\":1,\"b\":\"x\"}", "{\"k\":\"v\\\"w\"}", "", "plain", "{\"x\":{\"y\":[1,2]},\"z\":\"::\"}"] {
        let once = http_json(j.to_string());
        assert_eq!(http_json(once.clone()), once);
    }
}
