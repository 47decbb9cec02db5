use dnet::dnet_types::ip::IpAddr;
use dnet::net_tool::firewall::{
    iptabels_create_chain_args, iptables_append_rule_args, iptables_delete_rule_args, iptables_insert_rule_args,
    parse_on_rule,
};
use dnet::net_tool::route::{add_route_args, del_route_args};

fn strs(v: &[&str]) -> Vec<String> {
    v.iter().map(|s| s.to_string()).collect()
}

#[test]
fn listing_line_is_read_by_field() {
    let line = "    0     0 ACCEPT     all  --  dnet   br0     0.0.0.0/0            10.0.0.0/8";
    let r = parse_on_rule(line).unwrap();
    assert_eq!(r.target, "ACCEPT");
    assert_eq!(r.in_, "dnet");
    assert_eq!(r.out, "br0");
    assert_eq!(r.src, "0.0.0.0/0");
    assert_eq!(r.dst, "10.0.0.0/8");
    let tabs = "1\t2\tMASQUERADE\t4\t5\t*\tdnet\t1.1.1.1\t2.2.2.2\textra";
    let r = parse_on_rule(tabs).unwrap();
    assert_eq!(r.target, "MASQUERADE");
    assert_eq!(r.in_, "*");
    assert_eq!(r.dst, "2.2.2.2");
}

#[test]
fn short_listing_line_is_no_rule() {
    assert!(parse_on_rule("").is_none());
    assert!(parse_on_rule("Chain INPUT (policy ACCEPT 0 packets, 0 bytes)").is_none());
    assert!(parse_on_rule("a b c d e f g h").is_none());
    assert!(parse_on_rule("a b c d e f g h i").is_some());
}

#[test]
fn iptables_arguments() {
    assert_eq!(iptabels_create_chain_args("nat", "DNET"), strs(&["-t", "nat", "-N", "DNET"]));
    assert_eq!(
        iptables_append_rule_args("filter", "INPUT", "-i dnet -j ACCEPT"),
        strs(&["-t", "filter", "-A", "INPUT", "-i dnet -j ACCEPT"])
    );
    assert_eq!(
        iptables_insert_rule_args("nat", "POSTROUTING", "-o dnet -j MASQUERADE", 0),
        strs(&["-t", "nat", "-I", "POSTROUTING", "-o dnet -j MASQUERADE"])
    );
    assert_eq!(
        iptables_insert_rule_args("nat", "POSTROUTING", "-o dnet -j MASQUERADE", 3),
        strs(&["-t", "nat", "-I", "POSTROUTING", "3", "-o dnet -j MASQUERADE"])
    );
    assert_eq!(
        iptables_insert_rule_args("filter", "FORWARD", "r", -12),
        strs(&["-t", "filter", "-I", "FORWARD", "-12", "r"])
    );
    assert_eq!(
        iptables_insert_rule_args("filter", "FORWARD", "r", i32::MIN),
        strs(&["-t", "filter", "-I", "FORWARD", &format!("{}", i32::MIN), "r"])
    );
    assert_eq!(
        iptables_delete_rule_args("filter", "OUTPUT", "-o dnet -j ACCEPT"),
        strs(&["-t", "filter", "-D", "OUTPUT", "-o dnet -j ACCEPT"])
    );
}

#[test]
fn route_arguments() {
    let ip = IpAddr::from_text("12.12.12.12");
    assert_eq!(add_route_args(&ip, "32", "enp3s0"), strs(&["route", "add", "12.12.12.12/32", "dev", "enp3s0"]));
    assert_eq!(del_route_args(&ip, "32", "enp3s0"), strs(&["route", "del", "12.12.12.12/32", "dev", "enp3s0"]));
}
