use dnet::dnet_types::ip::is_address_text;
use dnet::dnet_path::{home_dir, ipc_path};
use dnet::dnet_types::device_type::DeviceType;
use dnet::dnet_types::ip::IpAddr;
use dnet::dnet_types::proxy::ProxyInfo;
use dnet::dnet_types::response::Response;
use dnet::dnet_types::states::{DaemonExecutionState, RpcState, State, TunnelState};
use dnet::dnet_types::team::{NetSegment, Team};
use dnet::dnet_types::user::User;

#[test]
fn device_type_from_code() {
    assert_eq!(DeviceType::from(-1), DeviceType::Cloud);
    assert_eq!(DeviceType::from(0), DeviceType::Router);
    assert_eq!(DeviceType::from(5), DeviceType::Linux);
    assert_eq!(DeviceType::from(6), DeviceType::Other);
    assert_eq!(DeviceType::from(-2), DeviceType::Other);
    assert_eq!(DeviceType::from(100), DeviceType::Other);
}

#[test]
fn device_type_code_round_trip() {
    for t in [
        DeviceType::Cloud,
        DeviceType::Router,
        DeviceType::Android,
        DeviceType::IOS,
        DeviceType::Windows,
        DeviceType::MAC,
        DeviceType::Linux,
        DeviceType::Other,
    ] {
        assert_eq!(DeviceType::from(t.code()), t);
    }
}

#[test]
fn device_type_names() {
    assert_eq!(DeviceType::Cloud.to_string(), "Cloud");
    assert_eq!(DeviceType::IOS.to_string(), "IOS");
    assert_eq!(DeviceType::MAC.to_string(), "MAC");
    assert_eq!(DeviceType::get_device_type(), DeviceType::Linux);
    assert_eq!(DeviceType::get_device_type().to_string(), "Linux");
}

#[test]
fn paths_of_the_daemon() {
    assert_eq!(home_dir(None), Some("/opt/dnet".to_string()));
    assert_eq!(home_dir(Some("/root/dnet")), Some("/root/dnet".to_string()));
    assert_eq!(ipc_path(), "/tmp/.dnet.socket");
}

#[test]
fn state_at_start() {
    let s = State::new();
    assert_eq!(s.rpc, RpcState::Connecting);
    assert!(matches!(s.tunnel, TunnelState::DisConnected));
    assert_eq!(s.daemon, DaemonExecutionState::Running);
}

#[test]
fn user_holds_credentials() {
    let u = User::new("alice", "secret");
    assert_eq!(u.name, "alice");
    assert_eq!(u.password, "secret");
}

#[test]
fn responses() {
    let r = Response::success();
    assert_eq!((r.code, r.msg.as_str()), (200, ""));
    let r = Response::unauthorized();
    assert_eq!((r.code, r.msg.as_str()), (401, "Unauthorized"));
    let r = Response::user_not_exist();
    assert_eq!((r.code, r.msg.as_str()), (919, "UserNotExist"));
    let r = Response::not_login();
    assert_eq!((r.code, r.msg.as_str()), (500, "NotLogIn."));
    let r = Response::exec_timeout();
    assert_eq!((r.code, r.msg.as_str()), (500, "Timeout"));
    let r = Response::internal_error().set_msg("boom".to_string());
    assert_eq!((r.code, r.msg.as_str()), (500, "boom"));
    let r = Response::new(201, "x".to_string(), None).set_data(Some(serde_json::Value::Bool(true)));
    assert_eq!(r.code, 201);
    assert_eq!(r.data, Some(serde_json::Value::Bool(true)));
}

#[test]
fn response_from_code() {
    let r = Response::new_from_code(401);
    assert_eq!(r.code, 401);
    assert_eq!(r.msg, "Not yet logged in or the token has expired.");
    let r = Response::new_from_code(417);
    assert_eq!(r.msg, "User already exists！");
    let r = Response::new_from_code(511);
    assert_eq!(r.msg, "No usable proxy.");
    let r = Response::new_from_code(-5);
    assert_eq!(r.code, 0);
    assert_eq!(r.msg, "");
    let r = Response::new_from_code(1234);
    assert_eq!((r.code, r.msg.as_str()), (1234, ""));
    assert_eq!(Response::get_msg_by_code(946), "Online proxy cannot be deleted");
    assert_eq!(Response::get_msg_by_code(919), "User does not exist");
}

#[test]
fn team_and_segments() {
    let t = Team::new();
    assert_eq!(t.team_id, "");
    assert!(t.members.is_empty());
    assert!(t.team_name.is_none());
    let seg = NetSegment { ip: IpAddr::from_text("192.168.1.0"), mask: 24 };
    assert_eq!(seg.to_string(), "192.168.1.0/24");
}

#[test]
fn proxy_info_defaults() {
    let p = ProxyInfo::new();
    assert_eq!(p.os.as_deref(), Some("linux"));
    assert_eq!(p.vip.to_string(), "255.255.255.255");
    assert!(p.public_flag);
    assert_eq!((p.connections, p.edges, p.nodes, p.status), (0, 0, 0, 0));
}

#[test]
fn address_text_is_what_std_writes() {
    for t in ["10.255.255.254", "0.0.0.0", "::1", "fe80::1", "2001:DB8::ffff:1.2.3.4"] {
        assert!(is_address_text(t), "{}", t);
    }
    for t in ["", "10.0.0.1 ", "host", "1.2.3.4/24", "g::1"] {
        assert!(!is_address_text(t), "{:?}", t);
    }
}
