//! Teams: the groups of devices that share a virtual network.
use vstd::prelude::*;
use super::ip::IpAddr;
use crate::text::{dec, push_dec, extend_chars, chars_of, string_of};

verus! {

/// A subnet in CIDR form: an address and a prefix length.
pub struct NetSegment {
    pub ip: IpAddr,
    pub mask: u32,
}

/// The CIDR text of a subnet: address, `/`, prefix length.
pub open spec fn net_segment_text(ip: Seq<char>, mask: u32) -> Seq<char> {
    ip + seq!['/'] + dec(mask as nat)
}

impl NetSegment {
    /// The CIDR text of this subnet, e.g. `192.168.1.0/24`.
    pub fn to_string(&self) -> (r: String)
        ensures
            r@ == net_segment_text(self.ip.text@, self.mask),
    {
        let mut v = chars_of(self.ip.text.as_str());
        v.push('/');
        push_dec(&mut v, self.mask as u64);
        string_of(&v)
    }
}

/// A device that belongs to a team.
pub struct TeamMember {
    pub alias: Option<String>,
    pub app_version: Option<String>,
    pub city: Option<String>,
    pub company_id: Option<String>,
    pub connection_limit: Option<String>,
    pub country: Option<String>,
    pub create_by: Option<String>,
    pub create_time: Option<String>,
    pub device_name: Option<String>,
    pub device_serial: String,
    pub device_type: Option<i8>,
    pub hidden_flag: Option<bool>,
    pub id: Option<String>,
    pub vip: IpAddr,
    pub lan: Vec<NetSegment>,
    pub latitude: Option<String>,
    pub longitude: Option<String>,
    pub pubkey: String,
    pub region: Option<String>,
    pub status: i8,
    pub update_by: Option<String>,
    pub update_time: Option<String>,
    pub username: Option<String>,
    pub wan: Option<String>,
    pub is_self: Option<bool>,
}

/// A team of devices.
pub struct Team {
    pub company_id: Option<String>,
    pub create_by: Option<String>,
    pub create_time: Option<String>,
    pub enable_flag: Option<bool>,
    pub private_team_flag: Option<bool>,
    pub site_count: Option<u32>,
    pub team_des: Option<String>,
    pub team_id: String,
    pub members: Vec<TeamMember>,
    pub team_name: Option<String>,
    pub terminal_count: Option<u32>,
    pub update_by: Option<String>,
    pub update_time: Option<String>,
    pub user_count: Option<u32>,
    pub user_id: Option<String>,
}

impl Team {
    /// A team with an empty id, no members and no other field set.
    pub fn new() -> (t: Team)
        ensures
            t.team_id@ == Seq::<char>::empty(),
            t.members@.len() == 0,
            t.company_id is None,
            t.create_by is None,
            t.create_time is None,
            t.enable_flag is None,
            t.private_team_flag is None,
            t.site_count is None,
            t.team_des is None,
            t.team_name is None,
            t.terminal_count is None,
            t.update_by is None,
            t.update_time is None,
            t.user_count is None,
            t.user_id is None,
    {
        Team {
            company_id: None,
            create_by: None,
            create_time: None,
            enable_flag: None,
            private_team_flag: None,
            site_count: None,
            team_des: None,
            team_id: String::new(),
            members: Vec::new(),
            team_name: None,
            terminal_count: None,
            update_by: None,
            update_time: None,
            user_count: None,
            user_id: None,
        }
    }
}

} // verus!
