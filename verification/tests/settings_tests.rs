use dnet::dnet_daemon::settings::error::Error;
use dnet::dnet_daemon::settings::parse_file::{
    Client as FileClient, Common as FileCommon, FileSettings, IpText, Proxy as FileProxy,
    Tinc as FileTinc,
};
use dnet::dnet_daemon::settings::path::join;
use dnet::dnet_daemon::settings::run_time_settings::{Common, Settings};
use dnet::dnet_types::ip::IpAddr;
use dnet::dnet_types::settings::RunMode;

fn s(x: &str) -> Option<String> {
    Some(x.to_string())
}

fn common(url: Option<String>, mode: Option<String>) -> FileCommon {
    FileCommon {
        home_path: None,
        log_level: None,
        log_dir: None,
        mode,
        conductor_url: url,
        username: s("u"),
        password: s("p"),
    }
}

fn proxy() -> FileProxy {
    FileProxy {
        local_ip: None,
        local_port: None,
        local_https_server_certificate_file: s("cert.pem"),
        local_https_server_privkey_file: s("key.pem"),
        proxy_type: None,
    }
}

fn file(common: Option<FileCommon>, proxy: Option<FileProxy>, client: Option<FileClient>) -> FileSettings {
    FileSettings { common, proxy, client, tinc: None }
}

#[test]
fn defaults() {
    let c = Common::default().unwrap();
    assert_eq!(c.home_path, "/opt/dnet");
    assert_eq!(c.log_dir, "/opt/dnet");
    assert_eq!(c.log_level, "Error");
    assert_eq!(c.mode, RunMode::Client);
    assert_eq!(Common::default_log_dir().unwrap(), "/opt/dnet/log");
    let st = Settings::default().unwrap();
    assert!(!st.client.auto_connect);
    assert_eq!(st.proxy.local_port, "");
}

#[test]
fn path_join_follows_pathbuf() {
    for (a, b) in [("/opt/dnet", "log"), ("/opt/dnet/", "tinc"), ("", "x"), ("/a", "/b")] {
        let want = std::path::Path::new(a).join(b).to_str().unwrap().to_string();
        assert_eq!(join(a, b), want);
    }
}

#[test]
fn client_settings() {
    let f = file(
        Some(FileCommon { log_dir: s("/var/log/dnet"), ..common(s("https://c"), None) }),
        None,
        Some(FileClient { auto_connect: s("TRUE") }),
    );
    let st = Settings::parse_file_settings(f).unwrap();
    assert_eq!(st.common.conductor_url, "https://c");
    assert_eq!(st.common.mode, RunMode::Client);
    assert_eq!(st.common.home_path, "/opt/dnet");
    assert_eq!(st.common.log_dir, "/var/log/dnet");
    assert_eq!(st.common.username, "u");
    assert!(st.client.auto_connect);
    assert_eq!(st.proxy.proxy_type, "");

    let f = file(Some(common(s("c"), s("client"))), None, Some(FileClient { auto_connect: None }));
    assert!(Settings::parse_file_settings(f).unwrap().client.auto_connect);
    let f = file(Some(common(s("c"), None)), None, Some(FileClient { auto_connect: s("yes") }));
    assert!(!Settings::parse_file_settings(f).unwrap().client.auto_connect);
    let f = file(Some(common(s("c"), None)), None, None);
    assert!(!Settings::parse_file_settings(f).unwrap().client.auto_connect);
}

#[test]
fn missing_conductor_url_gives_defaults() {
    let f = file(Some(common(None, s("proxy"))), None, None);
    let st = Settings::parse_file_settings(f).unwrap();
    assert_eq!(st.common.mode, RunMode::Client);
    assert_eq!(st.common.conductor_url, "");
    assert_eq!(st.common.username, "");
    assert_eq!(st.common.log_dir, "/opt/dnet");
}

#[test]
fn proxy_settings() {
    let f = file(Some(common(s("c"), s("Proxy"))), Some(proxy()), None);
    let st = Settings::parse_file_settings(f).unwrap();
    assert_eq!(st.common.mode, RunMode::Proxy);
    assert_eq!(st.proxy.local_port, "443");
    assert_eq!(st.proxy.proxy_type, "other");
    assert_eq!(st.proxy.local_https_server_privkey_file, "key.pem");
    assert!(!st.client.auto_connect);

    let p = FileProxy {
        local_ip: Some(IpText::Parsed(IpAddr::from_text("1.2.3.4"))),
        local_port: s("8443"),
        proxy_type: s("cloud"),
        ..proxy()
    };
    let st = Settings::parse_file_settings(file(Some(common(s("c"), s("PROXY"))), Some(p), None)).unwrap();
    assert_eq!(st.proxy.local_ip.as_ref().unwrap().text, "1.2.3.4");
    assert_eq!(st.proxy.local_port, "8443");
    assert_eq!(st.proxy.proxy_type, "cloud");
    let t = st.into_type_settings();
    assert_eq!(t.proxy.local_port, "8443");
    assert_eq!(t.common.mode, RunMode::Proxy);
}

#[test]
fn proxy_errors() {
    let pc = || Some(common(s("c"), s("proxy")));
    assert!(matches!(Settings::parse_file_settings(file(pc(), None, None)), Err(Error::NoneError)));
    let p = FileProxy { local_ip: Some(IpText::Unparsable), local_port: s("x"), ..proxy() };
    match Settings::parse_file_settings(file(pc(), Some(p), None)) {
        Err(Error::Config(what)) => assert_eq!(what, "local_ip"),
        _ => panic!("expected a local_ip error"),
    }
    for port in ["70000", "abc", ""] {
        let p = FileProxy { local_port: s(port), ..proxy() };
        let st = Settings::parse_file_settings(file(pc(), Some(p), None)).unwrap();
        assert_eq!(st.proxy.local_port, port);
    }
    let p = FileProxy { local_https_server_privkey_file: None, local_https_server_certificate_file: None, ..proxy() };
    assert!(matches!(
        Settings::parse_file_settings(file(pc(), Some(p), None)),
        Err(Error::https_server_privkey_not_found)
    ));
    let p = FileProxy { local_https_server_certificate_file: None, ..proxy() };
    assert!(matches!(
        Settings::parse_file_settings(file(pc(), Some(p), None)),
        Err(Error::https_server_certificate_not_found)
    ));
}

#[test]
fn tinc_numbers() {
    let t = FileTinc {
        tinc_check_frequency: s("15"),
        tinc_allowed_out_memory_times: s("-1"),
        tinc_allowed_tcp_failed_times: s("+3"),
        tinc_debug_level: None,
    };
    let f = FileSettings { common: None, proxy: None, client: None, tinc: Some(t) };
    let st = Settings::parse_file_settings(f).unwrap();
    assert_eq!(st.tinc.tinc_check_frequency, 15);
    assert_eq!(st.tinc.tinc_allowed_out_memory_times, 0);
    assert_eq!(st.tinc.tinc_allowed_tcp_failed_times, 3);
    assert_eq!(st.tinc.tinc_debug_level, 0);
}
