//! What the router daemon knows about itself and the other proxies.
use vstd::prelude::*;
use crate::dnet_types::ip::IpAddr;
use crate::text::{chars_of, replace_all, replace_str, string_of};

verus! {

/// Where the router reports its status to the conductor.
pub const BACKGROUND_STATUSNOTIFY: &'static str = "/vppn/api/v2/client/statusNotify";

/// Another proxy that is online.
pub struct OnlineProxy {
    pub ip: IpAddr,
    pub pubkey: String,
}

/// The router's public identity.
pub struct ProxyInfo {
    pub uid: String,
    pub proxy_ip: String,
    pub cookie: String,
    pub online_porxy: Vec<OnlineProxy>,
}

/// The router's tinc identity.
pub struct TincInfo {
    pub vip: IpAddr,
    pub pub_key: String,
}

/// Everything the router knows.
pub struct Info {
    pub proxy_info: ProxyInfo,
    pub tinc_info: TincInfo,
}

/// The credentials the tinc reporter uses to notify the conductor.
#[allow(non_snake_case)]
pub struct AuthInfo {
    pub url: String,
    pub Apikey: String,
    pub proxyIp: String,
    pub cookie: String,
    pub Authorization: String,
}

impl AuthInfo {
    /// The credentials for a conductor: its status URL, the router's uid
    /// as API key, its public IP, its session cookie without `\r\n`, and the
    /// fixed authorization `test`.
    #[allow(non_snake_case)]
    pub fn load(server_url: &str, info: &Info) -> (a: AuthInfo)
        ensures
            a.url@ == server_url@ + BACKGROUND_STATUSNOTIFY@,
            a.Apikey@ == info.proxy_info.uid@,
            a.proxyIp@ == info.proxy_info.proxy_ip@,
            a.cookie@ == replace_all(info.proxy_info.cookie@, "\r\n"@, ""@),
            a.Authorization@ == "test"@,
    {
        let mut url = server_url.to_string();
        url.append(BACKGROUND_STATUSNOTIFY);
        let c = chars_of(info.proxy_info.cookie.as_str());
        proof {
            reveal_strlit("\r\n");
        }
        let cookie = string_of(&replace_str(&c, "\r\n", ""));
        AuthInfo {
            url,
            Apikey: info.proxy_info.uid.clone(),
            proxyIp: info.proxy_info.proxy_ip.clone(),
            cookie,
            Authorization: "test".to_string(),
        }
    }
}

} // verus!
