//! The router's LANs.
use vstd::prelude::*;
use crate::dnet_types::ip::IpAddr;
use crate::dnet_types::team::NetSegment;

verus! {

/// The router's LAN subnets and the state of its cloud LED.
pub struct DeviceInfo {
    pub lan: Vec<NetSegment>,
    pub cloud_led_on: bool,
}

impl DeviceInfo {
    /// The LANs of a machine that is not an ARM router, as used for
    /// testing: 192.168.113.1/24 and 192.168.114.1/24, LED off.
    pub fn get_info() -> (r: Option<DeviceInfo>)
        ensures
            r matches Some(d) && d.lan@.len() == 2 && d.lan@[0].ip.text@ == "192.168.113.1"@
                && d.lan@[0].mask == 24 && d.lan@[1].ip.text@ == "192.168.114.1"@ && d.lan@[1].mask
                == 24 && !d.cloud_led_on,
    {
        proof {
            reveal_strlit("192.168.113.1");
            reveal_strlit("192.168.114.1");
        }
        let lan1 = NetSegment { ip: IpAddr::from_text("192.168.113.1"), mask: 24 };
        let lan2 = NetSegment { ip: IpAddr::from_text("192.168.114.1"), mask: 24 };
        let lan = vec![lan1, lan2];
        Some(DeviceInfo { lan, cloud_led_on: false })
    }
}

} // verus!
