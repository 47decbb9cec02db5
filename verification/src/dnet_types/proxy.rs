//! What a proxy reports about itself.
use vstd::prelude::*;
use super::ip::IpAddr;

verus! {

/// A proxy's registration record.
pub struct ProxyInfo {
    pub auth_id: Option<String>,
    pub auth_type: Option<String>,
    pub city: Option<String>,
    pub company_id: Option<String>,
    pub connections: u32,
    pub country: Option<String>,
    pub edges: u32,
    pub id: Option<String>,
    pub ip: Option<IpAddr>,
    pub latitude: Option<String>,
    pub longitude: Option<String>,
    pub nodes: u32,
    pub os: Option<String>,
    pub pubkey: String,
    pub public_flag: bool,
    pub region: Option<String>,
    pub server_port: u16,
    pub server_type: Option<String>,
    pub ssh_port: Option<String>,
    pub status: i32,
    pub tinc_port: u16,
    pub user_id: Option<String>,
    pub vip: IpAddr,
}

impl ProxyInfo {
    /// A fresh record for this machine (a Linux machine that is not an ARM
    /// router): public, no counts, no ports, virtual IP 255.255.255.255.
    pub fn new() -> (p: ProxyInfo)
        ensures
            p.auth_id is None,
            p.auth_type is None,
            p.city is None,
            p.company_id is None,
            p.connections == 0,
            p.country is None,
            p.edges == 0,
            p.id is None,
            p.ip is None,
            p.latitude is None,
            p.longitude is None,
            p.nodes == 0,
            p.os matches Some(os) && os@ == "linux"@,
            p.pubkey@ == Seq::<char>::empty(),
            p.public_flag,
            p.region is None,
            p.server_port == 0,
            p.server_type is None,
            p.ssh_port is None,
            p.status == 0,
            p.tinc_port == 0,
            p.user_id is None,
            p.vip.text@ == "255.255.255.255"@,
    {
        proof {
            reveal_strlit("255.255.255.255");
        }
        ProxyInfo {
            auth_id: None,
            auth_type: None,
            city: None,
            company_id: None,
            connections: 0,
            country: None,
            edges: 0,
            id: None,
            ip: None,
            latitude: None,
            longitude: None,
            nodes: 0,
            os: Some("linux".to_string()),
            pubkey: String::new(),
            public_flag: true,
            region: None,
            server_port: 0,
            server_type: None,
            ssh_port: None,
            status: 0,
            tinc_port: 0,
            user_id: None,
            vip: IpAddr::from_text("255.255.255.255"),
        }
    }
}

} // verus!
