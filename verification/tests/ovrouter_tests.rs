use dnet::dnet_types::ip::IpAddr;
use dnet::ovrouter::daemon::{DaemonEvent, DaemonStatus, ScheduleClock, ScheduleType, Status};
use dnet::ovrouter::domain::{AuthInfo, Info, OnlineProxy, ProxyInfo, TincInfo};
use dnet::ovrouterd::log_level::{arg_log_level, effective_log_level, log_dir, log_file, setting_log_level, LogLevel};
use dnet::ovrouter::tinc::{plan_goes_on, restart_step, RestartStep, Tinc, TincAction};

fn tinc() -> Tinc {
    Tinc::new("/root/tinc".to_string(), "/key/rsa_key.pub".to_string())
}

fn info(vip: &str, online: Vec<(&str, &str)>) -> Info {
    Info {
        proxy_info: ProxyInfo {
            uid: "uid-1".to_string(),
            proxy_ip: "192.168.1.2".to_string(),
            cookie: "a\r\nb\r\n".to_string(),
            online_porxy: online
                .into_iter()
                .map(|(ip, key)| OnlineProxy { ip: IpAddr::from_text(ip), pubkey: key.to_string() })
                .collect(),
        },
        tinc_info: TincInfo { vip: IpAddr::from_text(vip), pub_key: "KEY\n".to_string() },
    }
}

fn expected_tinc_up(vip: &str, wan_name: &str) -> String {
    "#! /bin/sh\n\
            dev=tun0\n\
            vpngw=".to_string() + vip + "\n\
            echo 1 > /proc/sys/net/ipv4/ip_forward\n\
            ifconfig ${dev} ${vpngw} netmask 255.0.0.0\n\
            iptables -t nat -F\n\
            iptables -t nat -A POSTROUTING -s ${vpngw}/8 -o "
        + wan_name
        + " -j MASQUERADE\n\
            exit 0"
}

fn expected_host(ip: &str, pubkey: &str) -> String {
    "Address=".to_string()
        + ip
        + "\n\
                "
        + pubkey
        + "Port=50069\n\
                "
}

#[test]
fn file_names_from_addresses() {
    let t = tinc();
    assert_eq!(t.get_filename_by_ip("10.1.2.3"), "10_1_2_3");
    assert_eq!(t.get_filename_by_ip("10.1.2.3.4"), "10_1_2_3");
    assert_eq!(t.get_client_filename_by_virtual_ip("10.1.2.3"), "1_2_3");
}

#[test]
fn tinc_paths() {
    let t = tinc();
    assert_eq!(t.hosts_file_path("CLIENT_1_2_3"), "/root/tinc/hosts/CLIENT_1_2_3");
    assert_eq!(t.pub_key_file_path(), "/root/tinc/key/rsa_key.pub");
    assert_eq!(t.tinc_up_path(), "/root/tinctinc-up");
    assert_eq!(t.auth_file_path(), "/root/tincauth/auth.txt");
    assert_eq!(Tinc::new("/h/".to_string(), String::new()).auth_file_path(), "/h/auth/auth.txt");
    assert_eq!(Tinc::self_hosts_file_path("/x", &info("10.0.0.1", vec![])), "/x/hosts/proxy_192_168_1_2");
    let c = Tinc::new("/h/".to_string(), "p".to_string()).create_pub_key_commands();
    assert_eq!(c[0], "chmod 755 /h/key/build-key-tinc.exp");
    assert_eq!(c[1], "/h/key/build-key-tinc.exp gen-ed25519-keys /h/key/rsa_key.priv /h/p");
    assert_eq!(c[2], "cp -f /h/key/rsa_key.p* /h/");
}

#[test]
fn tinc_up_script_and_its_address() {
    let s = Tinc::tinc_up_content("10.1.2.3", "eth1");
    assert_eq!(s, expected_tinc_up("10.1.2.3", "eth1"));
    assert_eq!(Tinc::get_vip(&s), "10.1.2.3");
    assert_eq!(Tinc::get_vip(""), "");
    assert_eq!(Tinc::get_vip("vpngw=1.2.3.4"), "");
    assert_eq!(Tinc::get_vip("a\nvpngw=1.2.3.4\nb"), "1.2.3.4");
}

#[test]
fn host_file_of_a_proxy_and_a_client() {
    let t = tinc();
    let (p, c) = t.set_hosts(true, "10.1.2.3", "PUB\n");
    assert_eq!(p, "/root/tinc/hosts/proxy_10_1_2_3");
    assert_eq!(c, expected_host("10.1.2.3", "PUB\n"));
    let (p, _) = t.set_hosts(false, "10.1.2.3", "PUB\n");
    assert_eq!(p, "/root/tinc/hosts/CLIENT_10_1_2_3");
}

#[test]
fn tinc_conf_connects_to_online_proxies() {
    let i = info("10.0.0.1", vec![("1.2.3.4", "k1"), ("5.6.7.8", "k2")]);
    let expected = "Name = ".to_string() + "proxy_192_168_1_2" + "\n\
        " + "ConnectTo = proxy_1_2_3_4\nConnectTo = proxy_5_6_7_8\n"
        + "DeviceType=tap\n\
        Mode=switch\n\
        Interface=tun0\n\
        Device = /dev/net/tun\n\
        BindToAddress = * 50069\n\
        ProcessPriority = high\n\
        PingTimeout=10";
    assert_eq!(tinc().tinc_conf_content(&i), expected);
}

fn write(a: &TincAction) -> (String, String, bool) {
    match a {
        TincAction::Write { path, content, required } => (path.clone(), content.clone(), *required),
        _ => panic!("expected a write"),
    }
}

#[test]
fn check_info_when_the_address_changed() {
    let i = info("10.0.0.1", vec![("1.2.3.4", "k1")]);
    let plan = tinc().check_info("10.0.0.9", &i, None);
    assert_eq!(plan.len(), 6);
    assert_eq!(write(&plan[0]), ("/root/tinc/tinc-up".to_string(), expected_tinc_up("10.0.0.1", "eth0"), true));
    assert_eq!(
        write(&plan[1]),
        ("/root/tinc/hosts/proxy_192_168_1_2".to_string(), expected_host("192.168.1.2", "KEY\n"), true)
    );
    assert_eq!(write(&plan[2]), ("/root/tinc/hosts/proxy_1_2_3_4".to_string(), expected_host("1.2.3.4", "k1"), true));
    assert!(matches!(&plan[3], TincAction::WriteIfExists { path, .. } if path == "/root/tinc/hosts/proxy_192_168_1_2"));
    assert_eq!(write(&plan[4]).0, "/root/tinc/tinc.conf");
    assert!(!write(&plan[4]).2);
    assert!(matches!(plan[5], TincAction::Restart));
    let plan = tinc().check_info("", &i, Some("wlan0".to_string()));
    assert_eq!(write(&plan[0]).1, expected_tinc_up("10.0.0.1", "wlan0"));
}

#[test]
fn check_info_when_the_address_is_unchanged() {
    let i = info("10.0.0.1", vec![("1.2.3.4", "k1"), ("5.6.7.8", "k2")]);
    let plan = tinc().check_info("10.0.0.1", &i, None);
    assert_eq!(plan.len(), 3);
    assert_eq!(write(&plan[0]).0, "/root/tinc/hosts/proxy_1_2_3_4");
    assert_eq!(write(&plan[1]).0, "/root/tinc/hosts/proxy_5_6_7_8");
    assert!(matches!(plan[2], TincAction::WriteIfExists { .. }));
}

#[test]
fn auth_info_is_loaded_from_info() {
    let a = AuthInfo::load("https://conductor", &info("10.0.0.1", vec![]));
    assert_eq!(a.url, "https://conductor/vppn/api/v2/client/statusNotify");
    assert_eq!(a.Apikey, "uid-1");
    assert_eq!(a.proxyIp, "192.168.1.2");
    assert_eq!(a.cookie, "ab");
    assert_eq!(a.Authorization, "test");
}

#[test]
fn log_levels() {
    assert_eq!(arg_log_level(Some("0")), LogLevel::Error);
    assert_eq!(arg_log_level(Some("4")), LogLevel::Trace);
    assert_eq!(arg_log_level(Some("5")), LogLevel::Off);
    assert_eq!(arg_log_level(None), LogLevel::Off);
    assert_eq!(setting_log_level(Some("Debug")), LogLevel::Debug);
    assert_eq!(setting_log_level(Some("debug")), LogLevel::Off);
    assert_eq!(effective_log_level(LogLevel::Warn, LogLevel::Debug), LogLevel::Warn);
    assert_eq!(effective_log_level(LogLevel::Off, LogLevel::Debug), LogLevel::Off);
}

#[test]
fn log_file_location() {
    assert_eq!(log_dir(None), "/var/log/ovr/");
    assert_eq!(log_dir(Some("/tmp/l".to_string())), "/tmp/l");
    assert_eq!(log_file(&log_dir(None)), "/var/log/ovr/ovrouter.log");
    assert_eq!(log_file("/tmp/l"), "/tmp/l/ovrouter.log");
}

#[test]
fn a_job_never_runs_twice_at_once() {
    let mut d = DaemonStatus::new();
    assert_eq!(d.handle_event(DaemonEvent::Schedule(ScheduleType::Heartbeat)), Some(ScheduleType::Heartbeat));
    assert_eq!(d.heartbeat_status, Status::Execute);
    assert_eq!(d.handle_event(DaemonEvent::Schedule(ScheduleType::Heartbeat)), None);
    assert_eq!(d.handle_event(DaemonEvent::Heartbeat(Status::Finish)), None);
    assert_eq!(d.heartbeat_status, Status::Finish);
    assert_eq!(d.exec_schedule(ScheduleType::Heartbeat), Some(ScheduleType::Heartbeat));
}

#[test]
fn a_failed_job_is_run_again() {
    let mut d = DaemonStatus::new();
    d.handle_event(DaemonEvent::Schedule(ScheduleType::TincCheck));
    assert_eq!(d.handle_event(DaemonEvent::TincCheck(Status::Error)), Some(ScheduleType::TincCheck));
    assert_eq!(d.tinccheck_status, Status::Execute);
    assert_eq!(d.handle_event(DaemonEvent::OnlineProxy(Status::Error)), Some(ScheduleType::OnlineProxy));
    assert_eq!(d.heartbeat_status, Status::Finish);
}

#[test]
fn schedule_clock_fires_each_job_after_its_period() {
    let mut c = ScheduleClock::new(1000);
    assert!(c.tick(1000).is_empty());
    assert!(c.tick(4000).is_empty());
    assert_eq!(c.tick(4001), vec![ScheduleType::TincCheck]);
    assert_eq!(c.tick(11001), vec![ScheduleType::TincCheck, ScheduleType::OnlineProxy]);
    assert_eq!(c.tick(21000), vec![ScheduleType::TincCheck]);
    assert_eq!(c.tick(21001), vec![ScheduleType::Heartbeat]);
    assert_eq!(c.heartbeat_time, 21001);
    assert!(c.tick(41001).iter().all(|j| *j != ScheduleType::Heartbeat));
    assert!(c.tick(u64::MAX).contains(&ScheduleType::Heartbeat));
}

#[test]
fn address_with_equals_signs_reads_back() {
    let s = Tinc::tinc_up_content("10.0.0.1=x", "e=th0");
    assert_eq!(Tinc::get_vip(&s), "10.0.0.1=x");
}

#[test]
fn restart_tries_ten_times() {
    assert_eq!(restart_step(0, true), RestartStep::Done);
    assert_eq!(restart_step(0, false), RestartStep::TryAgain(1));
    assert_eq!(restart_step(8, false), RestartStep::TryAgain(9));
    assert_eq!(restart_step(9, false), RestartStep::GiveUp);
    assert_eq!(restart_step(9, true), RestartStep::Done);
}

#[test]
fn plan_stops_only_on_a_failed_required_write() {
    let w = |required| TincAction::Write { path: "p".to_string(), content: "c".to_string(), required };
    assert!(!plan_goes_on(&w(true), false));
    assert!(plan_goes_on(&w(true), true));
    assert!(plan_goes_on(&w(false), false));
    assert!(plan_goes_on(&TincAction::WriteIfExists { path: "p".to_string(), content: "c".to_string() }, false));
    assert!(plan_goes_on(&TincAction::Restart, false));
}
