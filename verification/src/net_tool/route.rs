//! ip(8): the arguments that add and remove a route.
use vstd::prelude::*;
use super::string_views;
use crate::dnet_types::ip::IpAddr;
use crate::text::{chars_of, extend_str, string_of};

verus! {

/// `<address>/<netmask>`.
pub open spec fn ip_mask_text(ip: Seq<char>, netmask: Seq<char>) -> Seq<char> {
    ip + seq!['/'] + netmask
}

fn ip_mask(ip: &IpAddr, netmask: &str) -> (r: String)
    ensures
        r@ == ip_mask_text(ip.text@, netmask@),
{
    let mut v = chars_of(ip.text.as_str());
    v.push('/');
    extend_str(&mut v, netmask);
    string_of(&v)
}

/// Arguments of `ip route add <ip>/<netmask> dev <dev>`.
pub fn add_route_args(ip: &IpAddr, netmask: &str, dev: &str) -> (a: Vec<String>)
    ensures
        string_views(a@) == seq!["route"@, "add"@, ip_mask_text(ip.text@, netmask@), "dev"@, dev@],
{
    let a = vec![
        "route".to_string(),
        "add".to_string(),
        ip_mask(ip, netmask),
        "dev".to_string(),
        dev.to_string(),
    ];
    assert(string_views(a@) =~= seq![
        "route"@,
        "add"@,
        ip_mask_text(ip.text@, netmask@),
        "dev"@,
        dev@,
    ]);
    a
}

/// Arguments of `ip route del <ip>/<netmask> dev <dev>`.
pub fn del_route_args(ip: &IpAddr, netmask: &str, dev: &str) -> (a: Vec<String>)
    ensures
        string_views(a@) == seq!["route"@, "del"@, ip_mask_text(ip.text@, netmask@), "dev"@, dev@],
{
    let a = vec![
        "route".to_string(),
        "del".to_string(),
        ip_mask(ip, netmask),
        "dev".to_string(),
        dev.to_string(),
    ];
    assert(string_views(a@) =~= seq![
        "route"@,
        "del"@,
        ip_mask_text(ip.text@, netmask@),
        "dev"@,
        dev@,
    ]);
    a
}

} // verus!
