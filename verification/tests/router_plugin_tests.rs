use dnet::dnet_types::ip::IpAddr;
use dnet::router_plugin::device_info::DeviceInfo;
use dnet::router_plugin::firewall::{
    firewall_script_text, start_firewall, start_tunnel_firewall, stop_firewall, stop_tunnel_firewall,
    tunnel_firewall_text, vpn_tunnel_firewall, FirewallStep, FIREWALL_SCRIPT_PATH, TUNNEL_FIREWALL_SCRIPT_PATH,
};
use dnet::router_plugin::sn::get_sn;

fn expected_firewall_script(port: u16) -> String {
    let port = format!("{}", port);
    let buf = "#! /bin/sh\n\
    if [ \"$1\" == \"start\" ]; then\n\
        \t/usr/sbin/iptables -I INPUT -i dnet -j ACCEPT\n\
        \t/usr/sbin/iptables -I OUTPUT -o dnet -j ACCEPT\n\
        \t/usr/sbin/iptables -I INPUT -i brwan -p udp --dport ".to_string() + &port + " -j ACCEPT\n\
        \t/usr/sbin/iptables -I INPUT -i ppp0 -p udp --dport " + &port + " -j ACCEPT\n\
        \t/usr/sbin/iptables -I INPUT -i brwan -p tcp --dport " + &port + " -j ACCEPT\n\
        \t/usr/sbin/iptables -I INPUT -i ppp0 -p tcp --dport " + &port + " -j ACCEPT\n\
        \t/usr/sbin/iptables -I FORWARD -i dnet -j ACCEPT\n\
        \t/usr/sbin/iptables -I FORWARD -o dnet -j ACCEPT\n\
        \t/usr/sbin/iptables -t nat -I POSTROUTING -o dnet -j MASQUERADE\n\
    fi;\n\
    if [ \"$1\" == \"stop\" ]; then\n\
        \t/usr/sbin/iptables -D INPUT -i dnet -j ACCEPT\n\
        \t/usr/sbin/iptables -D OUTPUT -o dnet -j ACCEPT\n\
        \t/usr/sbin/iptables -D INPUT -i brwan -p udp --dport " + &port + " -j ACCEPT\n\
        \t/usr/sbin/iptables -D INPUT -i ppp0 -p udp --dport " + &port + " -j ACCEPT\n\
        \t/usr/sbin/iptables -D INPUT -i brwan -p tcp --dport " + &port + " -j ACCEPT\n\
        \t/usr/sbin/iptables -D INPUT -i ppp0 -p tcp --dport " + &port + " -j ACCEPT\n\
        \t/usr/sbin/iptables -D FORWARD -i dnet -j ACCEPT\n\
        \t/usr/sbin/iptables -D FORWARD -o dnet -j ACCEPT\n\
        \t/usr/sbin/iptables -t nat -D POSTROUTING -o dnet -j MASQUERADE\n\
    fi;\n\
    ";
    buf
}

fn expected_tunnel_script(vip: &str) -> String {
    format!(
            "#! /bin/sh\n\
            if [ \"$1\" == \"start\" ]; then\n\
                \t/usr/sbin/iptables -t nat -I br0_masq -s {}/32 -j MASQUERADE\n
                \t/usr/sbin/iptables -t nat -I POSTROUTING -o br1 -s {}/32 -j MASQUERADE\n
                \t/usr/sbin/iptables -t nat -I POSTROUTING -o br2 -s {}/32 -j MASQUERADE\n
                \t/usr/sbin/iptables -t nat -I POSTROUTING -o br3 -s {}/32 -j MASQUERADE\n
                \t/usr/sbin/iptables -t nat -I brwan_masq -s {}/32 -j MASQUERADE\n
                \t/usr/sbin/iptables -t nat -I ppp0_masq -s {}/32 -j MASQUERADE\n\
            fi;\n\
            if [ \"$1\" == \"stop\" ]; then\n\
                \t/usr/sbin/iptables -t nat -D br0_masq -s {}/32 -j MASQUERADE\n
                \t/usr/sbin/iptables -t nat -D POSTROUTING -o br1 -s {}/32 -j MASQUERADE\n
                \t/usr/sbin/iptables -t nat -D POSTROUTING -o br2 -s {}/32 -j MASQUERADE\n
                \t/usr/sbin/iptables -t nat -D POSTROUTING -o br3 -s {}/32 -j MASQUERADE\n
                \t/usr/sbin/iptables -t nat -D brwan_masq -s {}/32 -j MASQUERADE\n
                \t/usr/sbin/iptables -t nat -D ppp0_masq -s {}/32 -j MASQUERADE\n\
            fi;\n\
            ",
            vip, vip, vip, vip, vip, vip,
            vip, vip, vip, vip, vip, vip,
        )
}

#[test]
fn firewall_script_matches_the_written_file() {
    assert_eq!(firewall_script_text(50069), expected_firewall_script(50069));
    assert_eq!(firewall_script_text(0), expected_firewall_script(0));
    assert_eq!(firewall_script_text(65535), expected_firewall_script(65535));
    assert!(firewall_script_text(655).contains("--dport 655 -j ACCEPT"));
}

#[test]
fn tunnel_script_matches_the_written_file() {
    let ip = IpAddr::from_text("10.1.2.3");
    assert_eq!(tunnel_firewall_text(&ip), expected_tunnel_script("10.1.2.3"));
    assert_eq!(tunnel_firewall_text(&ip).matches("10.1.2.3/32").count(), 12);
}

fn rule(step: &FirewallStep) -> (String, String, String, String, String, bool) {
    match step {
        FirewallStep::EnsureRule { query, rule_str, insert_if_found } => (
            query.table.clone(),
            query.chain.clone(),
            query.in_.clone(),
            query.out.clone(),
            rule_str.clone(),
            *insert_if_found,
        ),
        _ => panic!("expected a rule"),
    }
}

#[test]
fn tunnel_rules_are_the_five_of_the_router() {
    let steps = vpn_tunnel_firewall();
    assert_eq!(steps.len(), 5);
    let s = |x: &str| x.to_string();
    assert_eq!(rule(&steps[0]), (s("nat"), s("POSTROUTING"), s(""), s("dnet"), s("-o dnet -j MASQUERADE"), false));
    assert_eq!(rule(&steps[1]), (s("filter"), s("FORWARD"), s("br0"), s("dnet"), s("-i br0 -o dnet -j ACCEPT"), false));
    assert_eq!(rule(&steps[2]), (s("filter"), s("FORWARD"), s("dnet"), s("br0"), s("-i dnet -o br0 -j ACCEPT"), false));
    assert_eq!(rule(&steps[3]), (s("filter"), s("INPUT"), s("dnet"), s(""), s("-i dnet -j ACCEPT"), true));
    assert_eq!(rule(&steps[4]), (s("filter"), s("OUTPUT"), s(""), s("dnet"), s("-o dnet -j ACCEPT"), false));
    for st in &steps {
        if let FirewallStep::EnsureRule { query, .. } = st {
            assert_eq!(query.src, "");
            assert_eq!(query.dst, "");
        }
    }
}

fn script(step: &FirewallStep) -> (String, String) {
    match step {
        FirewallStep::WriteScript { path, content } => (path.clone(), content.clone()),
        _ => panic!("expected a script"),
    }
}

fn run(step: &FirewallStep) -> (String, String) {
    match step {
        FirewallStep::RunScript { path, arg } => (path.clone(), arg.clone()),
        _ => panic!("expected a run"),
    }
}

#[test]
fn start_and_stop_firewall() {
    let start = start_firewall(50069);
    assert_eq!(start.len(), 7);
    assert_eq!(script(&start[0]), (FIREWALL_SCRIPT_PATH.to_string(), expected_firewall_script(50069)));
    assert_eq!(run(&start[1]), (FIREWALL_SCRIPT_PATH.to_string(), "start".to_string()));
    assert_eq!(rule(&start[2]).4, "-o dnet -j MASQUERADE");
    let stop = stop_firewall(50069);
    assert_eq!(stop.len(), 2);
    assert_eq!(script(&stop[0]).1, expected_firewall_script(50069));
    assert_eq!(run(&stop[1]), ("/etc/scripts/firewall/vppn.rule".to_string(), "stop".to_string()));
}

#[test]
fn start_and_stop_tunnel_firewall() {
    let ip = IpAddr::from_text("10.0.0.7");
    let start = start_tunnel_firewall(&ip);
    assert_eq!(start.len(), 2);
    assert_eq!(script(&start[0]), (TUNNEL_FIREWALL_SCRIPT_PATH.to_string(), expected_tunnel_script("10.0.0.7")));
    assert_eq!(run(&start[1]), ("/etc/scripts/firewall/vppn_tunnel.rule".to_string(), "start".to_string()));
    let stop = stop_tunnel_firewall(&ip);
    assert_eq!(run(&stop[1]).1, "stop");
}

#[test]
fn serial_number_is_the_first_line_without_its_label() {
    assert_eq!(get_sn("sn:ABC123\nother").unwrap(), "ABC123");
    assert_eq!(get_sn("XYZ").unwrap(), "XYZ");
    assert_eq!(get_sn("").unwrap(), "");
    assert_eq!(get_sn("sn:a sn:b\n").unwrap(), "a b");
}

#[test]
fn device_info_has_the_two_lans() {
    let d = DeviceInfo::get_info().unwrap();
    assert_eq!(d.lan.len(), 2);
    assert_eq!(d.lan[0].ip.text, "192.168.113.1");
    assert_eq!(d.lan[0].mask, 24);
    assert_eq!(d.lan[1].ip.text, "192.168.114.1");
    assert_eq!(d.lan[1].mask, 24);
    assert!(!d.cloud_led_on);
}
