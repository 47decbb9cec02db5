//! The router's tinc identity.
use vstd::prelude::*;
use crate::dnet_types::ip::IpAddr;

verus! {

/// The router's virtual address and public key, and where tinc lives.
pub struct TincInfo {
    pub vip: IpAddr,
    pub pub_key: String,
    pub tinc_home: String,
}

impl TincInfo {
    /// The identity before anything is read: virtual address
    /// 10.255.255.254, no key.
    pub fn new(tinc_home: &str) -> (t: TincInfo)
        ensures
            t.vip.text@ == "10.255.255.254"@,
            t.pub_key@ == Seq::<char>::empty(),
            t.tinc_home@ == tinc_home@,
    {
        proof {
            reveal_strlit("10.255.255.254");
        }
        TincInfo {
            vip: IpAddr::from_text("10.255.255.254"),
            pub_key: String::new(),
            tinc_home: tinc_home.to_string(),
        }
    }
}

} // verus!
