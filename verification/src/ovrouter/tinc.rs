//! tinc configuration written by the router daemon: file names derived
//! from addresses, the host files, `tinc.conf`, the `tinc-up` script, and
//! the plan that brings the files in line with what the conductor says.
use vstd::prelude::*;
use crate::dnet_types::ip::IpAddr;
use crate::dnet_daemon::settings::path::{join, path_join};
use crate::text::{
    chars_of,
    contains,
    extend_chars,
    extend_str,
    lemma_split_first,
    lemma_split_from_nonempty,
    lemma_split_none,
    split_by,
    split_on,
    starts_with,
    string_of,
    views,
};
use super::domain::{Info, OnlineProxy};
use crate::dnet_daemon::settings::parse_file::opt_text;

verus! {

/// The directory of the tinc reporter's credentials, under tinc's home.
pub const TINC_AUTH_PATH: &'static str = "auth/";

/// The file of the tinc reporter's credentials.
pub const TINC_AUTH_FILENAME: &'static str = "auth.txt";

/// The file name tinc uses for a dotted address: its first four parts
/// joined by `_` (`10.1.2.3` gives `10_1_2_3`).
pub open spec fn ip_filename(ip: Seq<char>) -> Seq<char> {
    let p = split_on(ip, "."@);
    p[0] + "_"@ + p[1] + "_"@ + p[2] + "_"@ + p[3]
}

/// The file name of a client: the second to fourth parts of its virtual
/// address joined by `_`.
pub open spec fn client_filename(ip: Seq<char>) -> Seq<char> {
    let p = split_on(ip, "."@);
    p[1] + "_"@ + p[2] + "_"@ + p[3]
}

/// Whether a text has at least four dot-separated parts, as a dotted IPv4
/// address has.
pub open spec fn dotted(ip: Seq<char>) -> bool {
    split_on(ip, "."@).len() >= 4
}

/// The name under which tinc knows a proxy.
pub open spec fn proxy_name(ip: Seq<char>) -> Seq<char> {
    "proxy_"@ + ip_filename(ip)
}

/// The `tinc-up` script for a virtual address and an outgoing interface.
pub open spec fn tinc_up_script(vip: Seq<char>, wan: Seq<char>) -> Seq<char> {
    "#! /bin/sh\ndev=tun0\nvpngw="@ + vip
        + "\necho 1 > /proc/sys/net/ipv4/ip_forward\nifconfig ${dev} ${vpngw} netmask 255.0.0.0\niptables -t nat -F\niptables -t nat -A POSTROUTING -s ${vpngw}/8 -o "@
        + wan + " -j MASQUERADE\nexit 0"@
}

/// The virtual address a `tinc-up` script sets: the text after the first
/// `vpngw=` up to the next line end (and before any further `vpngw=`);
/// empty when there is none.
pub open spec fn vip_of_tinc_up(content: Seq<char>) -> Seq<char> {
    let parts = split_on(content, "vpngw="@);
    if parts.len() > 1 {
        let q = split_on(parts[1], "\n"@);
        if q.len() > 1 {
            q[0]
        } else {
            Seq::empty()
        }
    } else {
        Seq::empty()
    }
}

/// The host file of a proxy or client: `Address=`, the address, a line
/// end, the public key, and `Port=50069`.
pub open spec fn host_file_content(ip: Seq<char>, pubkey: Seq<char>) -> Seq<char> {
    "Address="@ + ip + "\n"@ + pubkey + "Port=50069\n"@
}

/// Where the host file of a proxy (or client) is.
pub open spec fn host_file_path(tinc_home: Seq<char>, is_proxy: bool, ip: Seq<char>) -> Seq<char> {
    tinc_home + "/hosts/"@ + (if is_proxy {
        "proxy"@
    } else {
        "CLIENT"@
    }) + "_"@ + ip_filename(ip)
}

/// The `ConnectTo` lines for the online proxies.
pub open spec fn connect_lines(ips: Seq<Seq<char>>) -> Seq<char>
    decreases ips.len(),
{
    if ips.len() == 0 {
        Seq::empty()
    } else {
        connect_lines(ips.drop_last()) + "ConnectTo = "@ + proxy_name(ips.last()) + "\n"@
    }
}

/// `tinc.conf` for a proxy and the proxies it connects to.
pub open spec fn tinc_conf(proxy_ip: Seq<char>, online: Seq<Seq<char>>) -> Seq<char> {
    "Name = "@ + proxy_name(proxy_ip) + "\n"@ + connect_lines(online)
        + "DeviceType=tap\nMode=switch\nInterface=tun0\nDevice = /dev/net/tun\nBindToAddress = * 50069\nProcessPriority = high\nPingTimeout=10"@
}

/// The addresses of the online proxies.
pub open spec fn online_ips(v: Seq<OnlineProxy>) -> Seq<Seq<char>> {
    v.map_values(|p: OnlineProxy| p.ip.text@)
}

/// The virtual address written into `tinc-up` is the one read back from
/// it, provided the address holds no line end and neither the address nor
/// the interface name holds `vpngw=`.
pub proof fn lemma_tinc_up_vip_round_trip(vip: Seq<char>, wan: Seq<char>)
    requires
        !vip.contains('\n'),
        !contains(vip, "vpngw="@),
        !contains(wan, "vpngw="@),
    ensures
        vip_of_tinc_up(tinc_up_script(vip, wan)) == vip,
{
    let head = "#! /bin/sh\ndev=tun0\nvpngw="@;
    let mid = "\necho 1 > /proc/sys/net/ipv4/ip_forward\nifconfig ${dev} ${vpngw} netmask 255.0.0.0\niptables -t nat -F\niptables -t nat -A POSTROUTING -s ${vpngw}/8 -o "@;
    let tail = " -j MASQUERADE\nexit 0"@;
    let p = "vpngw="@;
    let nl = "\n"@;
    reveal_strlit("#! /bin/sh\ndev=tun0\nvpngw=");
    reveal_strlit("\necho 1 > /proc/sys/net/ipv4/ip_forward\nifconfig ${dev} ${vpngw} netmask 255.0.0.0\niptables -t nat -F\niptables -t nat -A POSTROUTING -s ${vpngw}/8 -o ");
    reveal_strlit(" -j MASQUERADE\nexit 0");
    reveal_strlit("vpngw=");
    reveal_strlit("\n");
    let a = head.subrange(0, 20);
    assert(head =~= a + p);
    let y = vip + mid + wan + tail;
    let s = tinc_up_script(vip, wan);
    assert(s =~= a + p + y);
    // no occurrence of the pattern before the real one
    assert forall|i: int| 0 <= i < a.len() implies !starts_with(#[trigger] (a + p + y).skip(i), p) by {
        if starts_with((a + p + y).skip(i), p) {
            assert((a + p + y).skip(i).subrange(0, 6)[0] == 'v');
            assert((a + p + y).skip(i).subrange(0, 6)[5] == '=');
            assert((a + p + y)[i] == 'v');
            assert((a + p + y)[i + 5] == '=');
            assert(head[i] == 'v');
        }
    }
    // no occurrence after it
    lemma_no_vpngw_after(vip, mid, wan, tail);
    lemma_split_first(a, p, y, Seq::empty());
    lemma_split_none(y, p, Seq::empty());
    assert(Seq::<char>::empty() + y =~= y);
    assert(split_on(s, p) =~= seq![Seq::<char>::empty() + a, y]);
    // the address ends at the first line end
    let rest = mid.skip(1) + wan + tail;
    assert(y =~= vip + nl + rest);
    assert forall|i: int| 0 <= i < vip.len() implies !starts_with(#[trigger] (vip + nl + rest).skip(i), nl) by {
        if starts_with((vip + nl + rest).skip(i), nl) {
            assert((vip + nl + rest).skip(i).subrange(0, 1)[0] == '\n');
            assert(vip[i] == '\n');
        }
    }
    lemma_split_first(vip, nl, rest, Seq::empty());
    lemma_split_from_nonempty(rest, nl, Seq::empty());
    assert(Seq::<char>::empty() + vip =~= vip);
}

/// `vpngw=` occurs nowhere in the part of a `tinc-up` script after its
/// own `vpngw=`: not inside the address or the interface name, and not
/// across their edges.
proof fn lemma_no_vpngw_after(vip: Seq<char>, mid: Seq<char>, wan: Seq<char>, tail: Seq<char>)
    requires
        !contains(vip, "vpngw="@),
        !contains(wan, "vpngw="@),
        mid == "\necho 1 > /proc/sys/net/ipv4/ip_forward\nifconfig ${dev} ${vpngw} netmask 255.0.0.0\niptables -t nat -F\niptables -t nat -A POSTROUTING -s ${vpngw}/8 -o "@,
        tail == " -j MASQUERADE\nexit 0"@,
    ensures
        forall|i: int|
            0 <= i < (vip + mid + wan + tail).len() ==> !starts_with(
                #[trigger] (vip + mid + wan + tail).skip(i),
                "vpngw="@,
            ),
{
    let p = "vpngw="@;
    reveal_strlit("vpngw=");
    reveal_strlit("\necho 1 > /proc/sys/net/ipv4/ip_forward\nifconfig ${dev} ${vpngw} netmask 255.0.0.0\niptables -t nat -F\niptables -t nat -A POSTROUTING -s ${vpngw}/8 -o ");
    reveal_strlit(" -j MASQUERADE\nexit 0");
    let y = vip + mid + wan + tail;
    let l1 = vip.len() as int;
    let l2 = l1 + mid.len();
    let l3 = l2 + wan.len();
    assert(p.len() == 6);
    assert(!mid.contains('='));
    assert(!tail.contains('='));
    assert(mid[0] == '\n');
    assert(tail[0] == ' ');
    assert(forall|k: int| mid.len() - 5 <= k < mid.len() ==> mid[k] != 'v');
    assert forall|i: int| 0 <= i < y.len() implies !starts_with(#[trigger] y.skip(i), p) by {
        if starts_with(y.skip(i), p) {
            let w = y.skip(i).subrange(0, 6);
            assert(w == p);
            assert forall|j: int| 0 <= j < 6 implies y[i + j] == p[j] by {
                assert(w[j] == y[i + j]);
            }
            assert(p[0] == 'v' && p[5] == '=');
            assert(w[0] == y[i] && w[5] == y[i + 5]);
            assert(y[i] == 'v');
            assert(y[i + 5] == '=');
            if i + 6 <= l1 {
                assert(vip.subrange(i, i + 6) =~= p);
                assert(vip.subrange(i, i + p.len()) == p);
            } else if i < l1 {
                assert(y[l1] == mid[0]);
                assert(y[i + (l1 - i)] == p[l1 - i]);
            } else if i + 5 < l2 {
                assert(y[i + 5] == mid[i + 5 - l1]);
                assert(y[i + 5] == '=');
                assert(mid.contains(mid[i + 5 - l1]));
            } else if i < l2 {
                assert(y[i] == mid[i - l1]);
                assert(y[i + 0] == 'v');
            } else if i + 6 <= l3 {
                assert(wan.subrange(i - l2, i - l2 + 6) =~= p);
                assert(wan.subrange(i - l2, i - l2 + p.len()) == p);
            } else if i < l3 {
                assert(y[l3] == tail[0]);
                assert(y[i + (l3 - i)] == p[l3 - i]);
            } else {
                assert(y[i + 5] == tail[i + 5 - l3]);
                assert(y[i + 5] == '=');
                assert(tail.contains(tail[i + 5 - l3]));
            }
        }
    }
}

/// The router's handle on its tinc installation.
pub struct Tinc {
    pub tinc_home: String,
    pub pub_key_path: String,
}

/// A step in bringing tinc's files in line with what the conductor says.
pub enum TincAction {
    /// Write a file; when `required`, a failure aborts the plan.
    Write { path: String, content: String, required: bool },
    /// Write a file if it exists already; a failure is ignored.
    WriteIfExists { path: String, content: String },
    /// Restart tinc.
    Restart,
}

pub enum TincActionView {
    Write { path: Seq<char>, content: Seq<char>, required: bool },
    WriteIfExists { path: Seq<char>, content: Seq<char> },
    Restart,
}

impl View for TincAction {
    type V = TincActionView;

    open spec fn view(&self) -> TincActionView {
        match self {
            TincAction::Write { path, content, required } => TincActionView::Write {
                path: path@,
                content: content@,
                required: *required,
            },
            TincAction::WriteIfExists { path, content } => TincActionView::WriteIfExists {
                path: path@,
                content: content@,
            },
            TincAction::Restart => TincActionView::Restart,
        }
    }
}

/// The host-file writes for the online proxies.
pub open spec fn online_host_writes(tinc_home: Seq<char>, v: Seq<OnlineProxy>) -> Seq<TincActionView>
    decreases v.len(),
{
    if v.len() == 0 {
        Seq::empty()
    } else {
        online_host_writes(tinc_home, v.drop_last()) + seq![
            TincActionView::Write {
                path: host_file_path(tinc_home, true, v.last().ip.text@),
                content: host_file_content(v.last().ip.text@, v.last().pubkey@),
                required: true,
            },
        ]
    }
}

/// The plan that brings tinc's files in line with `info`, given the
/// virtual address the current `tinc-up` sets and the outgoing interface
/// (`eth0` when unknown).  When the virtual address changed, `tinc-up` and
/// the router's own host file are rewritten; the host files of all online
/// proxies are written; the router's own host file is rewritten if it
/// exists; and when the address changed, `tinc.conf` is rewritten and tinc
/// restarted.
pub open spec fn check_info_plan(
    tinc_home: Seq<char>,
    file_vip: Seq<char>,
    info: Info,
    wan: Option<Seq<char>>,
) -> Seq<TincActionView> {
    let vip = info.tinc_info.vip.text@;
    let proxy_ip = info.proxy_info.proxy_ip@;
    let changed = file_vip != vip;
    let own_path = host_file_path(tinc_home, true, proxy_ip);
    let own_content = host_file_content(proxy_ip, info.tinc_info.pub_key@);
    let wan_name = match wan {
        Some(w) => w,
        None => "eth0"@,
    };
    (if changed {
        seq![
            TincActionView::Write {
                path: tinc_home + "/tinc-up"@,
                content: tinc_up_script(vip, wan_name),
                required: true,
            },
            TincActionView::Write { path: own_path, content: own_content, required: true },
        ]
    } else {
        Seq::empty()
    }) + online_host_writes(tinc_home, info.proxy_info.online_porxy@) + seq![
        TincActionView::WriteIfExists { path: own_path, content: own_content },
    ] + (if changed {
        seq![
            TincActionView::Write {
                path: tinc_home + "/tinc.conf"@,
                content: tinc_conf(proxy_ip, online_ips(info.proxy_info.online_porxy@)),
                required: false,
            },
            TincActionView::Restart,
        ]
    } else {
        Seq::empty()
    })
}

/// Whether every address that the plan turns into a file name is dotted.
pub open spec fn info_addresses_dotted(info: Info) -> bool {
    &&& dotted(info.proxy_info.proxy_ip@)
    &&& forall|i: int|
        0 <= i < info.proxy_info.online_porxy@.len() ==> dotted(
            #[trigger] info.proxy_info.online_porxy@[i].ip.text@,
        )
}

fn parts_of_ip(ip: &str) -> (r: Vec<Vec<char>>)
    ensures
        views(r@) == split_on(ip@, "."@),
{
    let v = chars_of(ip);
    let dot = chars_of(".");
    proof {
        reveal_strlit(".");
    }
    split_by(&v, &dot)
}

/// The file name tinc uses for a dotted address.
pub fn filename_of_ip(ip: &str) -> (r: Vec<char>)
    requires
        dotted(ip@),
    ensures
        r@ == ip_filename(ip@),
{
    let p = parts_of_ip(ip);
    assert(forall|k: int| 0 <= k < p.len() ==> views(p@)[k] == #[trigger] p@[k]@);
    let mut r: Vec<char> = Vec::new();
    extend_chars(&mut r, &p[0]);
    extend_str(&mut r, "_");
    extend_chars(&mut r, &p[1]);
    extend_str(&mut r, "_");
    extend_chars(&mut r, &p[2]);
    extend_str(&mut r, "_");
    extend_chars(&mut r, &p[3]);
    r
}

fn push_host_path(r: &mut Vec<char>, tinc_home: &str, is_proxy: bool, ip: &str)
    requires
        dotted(ip@),
    ensures
        final(r)@ == old(r)@ + host_file_path(tinc_home@, is_proxy, ip@),
{
    extend_str(r, tinc_home);
    extend_str(r, "/hosts/");
    if is_proxy {
        extend_str(r, "proxy");
    } else {
        extend_str(r, "CLIENT");
    }
    extend_str(r, "_");
    let f = filename_of_ip(ip);
    extend_chars(r, &f);
    assert(final(r)@ =~= old(r)@ + host_file_path(tinc_home@, is_proxy, ip@));
}

fn host_path(tinc_home: &str, is_proxy: bool, ip: &str) -> (r: String)
    requires
        dotted(ip@),
    ensures
        r@ == host_file_path(tinc_home@, is_proxy, ip@),
{
    let mut v: Vec<char> = Vec::new();
    push_host_path(&mut v, tinc_home, is_proxy, ip);
    string_of(&v)
}

fn host_content(ip: &str, pubkey: &str) -> (r: String)
    ensures
        r@ == host_file_content(ip@, pubkey@),
{
    let mut v: Vec<char> = Vec::new();
    extend_str(&mut v, "Address=");
    extend_str(&mut v, ip);
    extend_str(&mut v, "\n");
    extend_str(&mut v, pubkey);
    extend_str(&mut v, "Port=50069\n");
    assert(v@ =~= host_file_content(ip@, pubkey@));
    string_of(&v)
}

impl Tinc {
    /// A handle on the tinc installation at `tinc_home`.
    pub fn new(tinc_home: String, pub_key_path: String) -> (t: Tinc)
        ensures
            t.tinc_home@ == tinc_home@,
            t.pub_key_path@ == pub_key_path@,
    {
        Tinc { tinc_home, pub_key_path }
    }

    /// The file name tinc uses for a dotted address.
    pub fn get_filename_by_ip(&self, ip: &str) -> (r: String)
        requires
            dotted(ip@),
        ensures
            r@ == ip_filename(ip@),
    {
        let v = filename_of_ip(ip);
        string_of(&v)
    }

    /// The file name of a client for its dotted virtual address.
    pub fn get_client_filename_by_virtual_ip(&self, virtual_ip: &str) -> (r: String)
        requires
            dotted(virtual_ip@),
        ensures
            r@ == client_filename(virtual_ip@),
    {
        let p = parts_of_ip(virtual_ip);
        assert(forall|k: int| 0 <= k < p.len() ==> views(p@)[k] == #[trigger] p@[k]@);
        let mut r: Vec<char> = Vec::new();
        extend_chars(&mut r, &p[1]);
        extend_str(&mut r, "_");
        extend_chars(&mut r, &p[2]);
        extend_str(&mut r, "_");
        extend_chars(&mut r, &p[3]);
        string_of(&r)
    }

    /// Where the host file of a device is: `hosts/<host_name>` under tinc's
    /// home.
    pub fn hosts_file_path(&self, host_name: &str) -> (r: String)
        ensures
            r@ == self.tinc_home@ + "/hosts/"@ + host_name@,
    {
        let mut v = chars_of(self.tinc_home.as_str());
        extend_str(&mut v, "/hosts/");
        extend_str(&mut v, host_name);
        string_of(&v)
    }

    /// Where the router's public key is.
    pub fn pub_key_file_path(&self) -> (r: String)
        ensures
            r@ == self.tinc_home@ + self.pub_key_path@,
    {
        let mut v = chars_of(self.tinc_home.as_str());
        extend_str(&mut v, self.pub_key_path.as_str());
        string_of(&v)
    }

    /// Where `get_vip` reads the `tinc-up` script from.
    pub fn tinc_up_path(&self) -> (r: String)
        ensures
            r@ == self.tinc_home@ + "tinc-up"@,
    {
        let mut v = chars_of(self.tinc_home.as_str());
        extend_str(&mut v, "tinc-up");
        string_of(&v)
    }

    /// The commands that create the router's key pair: make the key script
    /// executable, run it, and copy the keys into tinc's home.
    pub fn create_pub_key_commands(&self) -> (r: Vec<String>)
        ensures
            r@.len() == 3,
            r@[0]@ == "chmod 755 "@ + self.tinc_home@ + "key/build-key-tinc.exp"@,
            r@[1]@ == self.tinc_home@ + "key/build-key-tinc.exp gen-ed25519-keys "@ + self.tinc_home@
                + "key/rsa_key.priv "@ + self.tinc_home@ + self.pub_key_path@,
            r@[2]@ == "cp -f "@ + self.tinc_home@ + "key/rsa_key.p* "@ + self.tinc_home@,
    {
        let home = self.tinc_home.as_str();
        let mut a = chars_of("chmod 755 ");
        extend_str(&mut a, home);
        extend_str(&mut a, "key/build-key-tinc.exp");
        let mut b = chars_of(home);
        extend_str(&mut b, "key/build-key-tinc.exp gen-ed25519-keys ");
        extend_str(&mut b, home);
        extend_str(&mut b, "key/rsa_key.priv ");
        extend_str(&mut b, home);
        extend_str(&mut b, self.pub_key_path.as_str());
        let mut c = chars_of("cp -f ");
        extend_str(&mut c, home);
        extend_str(&mut c, "key/rsa_key.p* ");
        extend_str(&mut c, home);
        vec![string_of(&a), string_of(&b), string_of(&c)]
    }

    /// The virtual address set by a `tinc-up` script (`get_vip` on the
    /// file's content).
    pub fn get_vip(content: &str) -> (r: String)
        ensures
            r@ == vip_of_tinc_up(content@),
    {
        let v = chars_of(content);
        let pat = chars_of("vpngw=");
        proof {
            reveal_strlit("vpngw=");
            reveal_strlit("\n");
        }
        let parts = split_by(&v, &pat);
        assert(forall|k: int| 0 <= k < parts.len() ==> views(parts@)[k] == #[trigger] parts@[k]@);
        if parts.len() > 1 {
            let nl = chars_of("\n");
            let q = split_by(&parts[1], &nl);
            assert(forall|k: int| 0 <= k < q.len() ==> views(q@)[k] == #[trigger] q@[k]@);
            if q.len() > 1 {
                return string_of(&q[0]);
            }
        }
        String::new()
    }

    /// The `tinc-up` script that sets a virtual address (`change_vip`).
    pub fn tinc_up_content(vip: &str, wan_name: &str) -> (r: String)
        ensures
            r@ == tinc_up_script(vip@, wan_name@),
    {
        let mut v = chars_of("#! /bin/sh\ndev=tun0\nvpngw=");
        extend_str(&mut v, vip);
        extend_str(
            &mut v,
            "\necho 1 > /proc/sys/net/ipv4/ip_forward\nifconfig ${dev} ${vpngw} netmask 255.0.0.0\niptables -t nat -F\niptables -t nat -A POSTROUTING -s ${vpngw}/8 -o ",
        );
        extend_str(&mut v, wan_name);
        extend_str(&mut v, " -j MASQUERADE\nexit 0");
        string_of(&v)
    }

    /// The host file of a proxy or client: where it goes and what it holds
    /// (`set_hosts`).
    pub fn set_hosts(&self, is_proxy: bool, ip: &str, pubkey: &str) -> (r: (String, String))
        requires
            dotted(ip@),
        ensures
            r.0@ == host_file_path(self.tinc_home@, is_proxy, ip@),
            r.1@ == host_file_content(ip@, pubkey@),
    {
        (host_path(self.tinc_home.as_str(), is_proxy, ip), host_content(ip, pubkey))
    }

    /// `tinc.conf` for the router and the online proxies.
    pub fn tinc_conf_content(&self, info: &Info) -> (r: String)
        requires
            info_addresses_dotted(*info),
        ensures
            r@ == tinc_conf(info.proxy_info.proxy_ip@, online_ips(info.proxy_info.online_porxy@)),
    {
        let mut v = chars_of("Name = ");
        extend_str(&mut v, "proxy_");
        let f = filename_of_ip(info.proxy_info.proxy_ip.as_str());
        extend_chars(&mut v, &f);
        extend_str(&mut v, "\n");
        let ghost head = v@;
        let online = &info.proxy_info.online_porxy;
        let mut lines: Vec<char> = Vec::new();
        let mut i: usize = 0;
        while i < online.len()
            invariant
                i <= online.len(),
                info_addresses_dotted(*info),
                online == &info.proxy_info.online_porxy,
                lines@ == connect_lines(online_ips(online@).take(i as int)),
            decreases online.len() - i,
        {
            let ghost before = lines@;
            assert(dotted(online@[i as int].ip.text@));
            extend_str(&mut lines, "ConnectTo = ");
            extend_str(&mut lines, "proxy_");
            let g = filename_of_ip(online[i].ip.text.as_str());
            extend_chars(&mut lines, &g);
            extend_str(&mut lines, "\n");
            let ghost ips = online_ips(online@);
            assert(ips.take(i + 1).drop_last() =~= ips.take(i as int));
            assert(ips.take(i + 1).last() == online@[i as int].ip.text@);
            assert(lines@ =~= connect_lines(ips.take(i + 1)));
            i = i + 1;
        }
        assert(online_ips(online@).take(i as int) =~= online_ips(online@));
        extend_chars(&mut v, &lines);
        extend_str(
            &mut v,
            "DeviceType=tap\nMode=switch\nInterface=tun0\nDevice = /dev/net/tun\nBindToAddress = * 50069\nProcessPriority = high\nPingTimeout=10",
        );
        assert(v@ =~= tinc_conf(info.proxy_info.proxy_ip@, online_ips(info.proxy_info.online_porxy@)));
        string_of(&v)
    }

    /// Where the router's own host file is, under the given tinc home.
    pub fn self_hosts_file_path(tinc_home: &str, info: &Info) -> (r: String)
        requires
            dotted(info.proxy_info.proxy_ip@),
        ensures
            r@ == host_file_path(tinc_home@, true, info.proxy_info.proxy_ip@),
    {
        host_path(tinc_home, true, info.proxy_info.proxy_ip.as_str())
    }

    /// The credentials file of the tinc reporter: `auth/auth.txt` under
    /// tinc's home.
    pub fn auth_file_path(&self) -> (r: String)
        ensures
            r@ == path_join(self.tinc_home@ + "auth/"@, "auth.txt"@),
    {
        let mut d = chars_of(self.tinc_home.as_str());
        extend_str(&mut d, TINC_AUTH_PATH);
        let ds = string_of(&d);
        join(ds.as_str(), TINC_AUTH_FILENAME)
    }

    /// The steps that bring tinc's files in line with `info`
    /// (`check_info`), given the virtual address that the current
    /// `tinc-up` sets and the outgoing interface if known.
    pub fn check_info(&self, file_vip: &str, info: &Info, wan: Option<String>) -> (plan: Vec<
        TincAction,
    >)
        requires
            info_addresses_dotted(*info),
        ensures
            plan@.map_values(|a: TincAction| a@) == check_info_plan(
                self.tinc_home@,
                file_vip@,
                *info,
                opt_text(wan),
            ),
    {
        let ghost wv = opt_text(wan);
        let home = self.tinc_home.as_str();
        let vip = info.tinc_info.vip.text.as_str();
        let proxy_ip = info.proxy_info.proxy_ip.as_str();
        let changed = !(file_vip.to_string() == info.tinc_info.vip.text.clone());
        let mut plan: Vec<TincAction> = Vec::new();
        let ghost target = check_info_plan(self.tinc_home@, file_vip@, *info, wv);
        if changed {
            let wan_name = match wan {
                Some(w) => w,
                None => "eth0".to_string(),
            };
            let mut p = chars_of(home);
            extend_str(&mut p, "/tinc-up");
            plan.push(
                TincAction::Write {
                    path: string_of(&p),
                    content: Self::tinc_up_content(vip, wan_name.as_str()),
                    required: true,
                },
            );
            plan.push(
                TincAction::Write {
                    path: host_path(home, true, proxy_ip),
                    content: host_content(proxy_ip, info.tinc_info.pub_key.as_str()),
                    required: true,
                },
            );
        }
        let ghost first = plan@.map_values(|a: TincAction| a@);
        let ghost vip_v = info.tinc_info.vip.text@;
        let ghost pip = info.proxy_info.proxy_ip@;
        let ghost own_path = host_file_path(self.tinc_home@, true, pip);
        let ghost own_content = host_file_content(pip, info.tinc_info.pub_key@);
        let ghost part1 = if changed {
            seq![
                TincActionView::Write {
                    path: self.tinc_home@ + "/tinc-up"@,
                    content: tinc_up_script(
                        vip_v,
                        match wv {
                            Some(w) => w,
                            None => "eth0"@,
                        },
                    ),
                    required: true,
                },
                TincActionView::Write { path: own_path, content: own_content, required: true },
            ]
        } else {
            Seq::<TincActionView>::empty()
        };
        assert(first =~= part1);
        let online = &info.proxy_info.online_porxy;
        let mut i: usize = 0;
        while i < online.len()
            invariant
                i <= online.len(),
                info_addresses_dotted(*info),
                online == &info.proxy_info.online_porxy,
                home@ == self.tinc_home@,
                plan@.map_values(|a: TincAction| a@) == first + online_host_writes(
                    self.tinc_home@,
                    online@.take(i as int),
                ),
            decreases online.len() - i,
        {
            let ghost before = plan@.map_values(|a: TincAction| a@);
            assert(dotted(online@[i as int].ip.text@));
            let act = TincAction::Write {
                path: host_path(home, true, online[i].ip.text.as_str()),
                content: host_content(online[i].ip.text.as_str(), online[i].pubkey.as_str()),
                required: true,
            };
            let ghost av = act@;
            plan.push(act);
            assert(plan@.map_values(|a: TincAction| a@) =~= before.push(av));
            assert(online@.take(i + 1).drop_last() =~= online@.take(i as int));
            assert(online@.take(i + 1).last() == online@[i as int]);
            assert(av == TincActionView::Write {
                path: host_file_path(self.tinc_home@, true, online@[i as int].ip.text@),
                content: host_file_content(online@[i as int].ip.text@, online@[i as int].pubkey@),
                required: true,
            });
            assert(online_host_writes(self.tinc_home@, online@.take(i + 1)) == online_host_writes(
                self.tinc_home@,
                online@.take(i as int),
            ) + seq![av]);
            assert(plan@.map_values(|a: TincAction| a@) =~= first + online_host_writes(
                self.tinc_home@,
                online@.take(i + 1),
            ));
            i = i + 1;
        }
        assert(online@.take(i as int) =~= online@);
        let ghost second = plan@.map_values(|a: TincAction| a@);
        assert(second == part1 + online_host_writes(self.tinc_home@, online@));
        plan.push(
            TincAction::WriteIfExists {
                path: host_path(home, true, proxy_ip),
                content: host_content(proxy_ip, info.tinc_info.pub_key.as_str()),
            },
        );
        if changed {
            let mut p = chars_of(home);
            extend_str(&mut p, "/tinc.conf");
            plan.push(
                TincAction::Write {
                    path: string_of(&p),
                    content: self.tinc_conf_content(info),
                    required: false,
                },
            );
            plan.push(TincAction::Restart);
        }
        let ghost part3 = if changed {
            seq![
                TincActionView::Write {
                    path: self.tinc_home@ + "/tinc.conf"@,
                    content: tinc_conf(pip, online_ips(info.proxy_info.online_porxy@)),
                    required: false,
                },
                TincActionView::Restart,
            ]
        } else {
            Seq::<TincActionView>::empty()
        };
        assert(plan@.map_values(|a: TincAction| a@) =~= second + seq![
            TincActionView::WriteIfExists { path: own_path, content: own_content },
        ] + part3);
        assert(plan@.map_values(|a: TincAction| a@) =~= target);
        plan
    }
}

/// How many times a restart starts tinc before it gives up.
pub const RESTART_TRIES: u32 = 10;

/// After try `attempt` (from 0) of starting tinc during a restart
/// (`restart_tinc`), with tinc `running` or not.
#[derive(Clone, Copy, Debug, PartialEq, Eq, Structural)]
pub enum RestartStep {
    /// tinc runs.
    Done,
    /// Try again; this is the number of the next try.
    TryAgain(u32),
    /// Ten tries failed: the daemon stops.
    GiveUp,
}

/// The restart is done once tinc runs; otherwise it tries again, up to ten
/// tries in all, and then gives up.
pub fn restart_step(attempt: u32, running: bool) -> (r: RestartStep)
    ensures
        running ==> r == RestartStep::Done,
        !running && attempt + 1 >= RESTART_TRIES ==> r == RestartStep::GiveUp,
        !running && attempt + 1 < RESTART_TRIES ==> r == RestartStep::TryAgain((attempt + 1) as u32),
{
    if running {
        RestartStep::Done
    } else if attempt >= RESTART_TRIES - 1 {
        RestartStep::GiveUp
    } else {
        RestartStep::TryAgain(attempt + 1)
    }
}

/// Whether carrying out a plan goes on after a step: it stops, failing,
/// only when a required write failed (`written` is false).
pub fn plan_goes_on(action: &TincAction, written: bool) -> (go_on: bool)
    ensures
        go_on == !(action@ matches TincActionView::Write { required, .. } && required && !written),
{
    match action {
        TincAction::Write { required, .. } => !(*required && !written),
        _ => true,
    }
}

/// The host-file writes for the online proxies are plain writes.
proof fn lemma_online_writes_are_writes(tinc_home: Seq<char>, v: Seq<OnlineProxy>)
    ensures
        forall|k: int|
            0 <= k < online_host_writes(tinc_home, v).len() ==> #[trigger] online_host_writes(
                tinc_home,
                v,
            )[k] is Write,
    decreases v.len(),
{
    if v.len() > 0 {
        lemma_online_writes_are_writes(tinc_home, v.drop_last());
        let w = online_host_writes(tinc_home, v);
        let front = online_host_writes(tinc_home, v.drop_last());
        assert forall|k: int| 0 <= k < w.len() implies #[trigger] w[k] is Write by {
            if k < front.len() {
                assert(w[k] == front[k]);
            }
        }
    }
}

/// The router's own host file: `hosts/proxy_` and the file name of its
/// public address, under tinc's home.
pub open spec fn router_host_path(tinc_home: Seq<char>, public_ip: Seq<char>) -> Seq<char> {
    tinc_home + "/hosts/proxy_"@ + ip_filename(public_ip)
}

/// What the router's own host file holds: `Address=`, its public address,
/// a line end, its public key and `Port=50069`.
pub open spec fn router_host_text(public_ip: Seq<char>, pub_key: Seq<char>) -> Seq<char> {
    "Address="@ + public_ip + "\n"@ + pub_key + "Port=50069\n"@
}

/// Whether a step, if it writes only an existing file, writes the router's
/// own host file with its public address.
pub open spec fn writes_router_host(a: TincActionView, path: Seq<char>, text: Seq<char>) -> bool {
    a matches TincActionView::WriteIfExists { path: p, content: c } ==> p == path && c == text
}

/// The router's own host file is always written with its public address:
/// every step of the plan that writes only an existing file is the router's
/// host file with its public address and key; when the virtual address
/// changed, the second step writes that same file with that same content,
/// and a failure there stops the plan.
pub proof fn lemma_router_host_file(
    tinc_home: Seq<char>,
    file_vip: Seq<char>,
    info: Info,
    wan: Option<Seq<char>>,
)
    ensures
        forall|k: int|
            0 <= k < check_info_plan(tinc_home, file_vip, info, wan).len() ==> writes_router_host(
                #[trigger] check_info_plan(tinc_home, file_vip, info, wan)[k],
                router_host_path(tinc_home, info.proxy_info.proxy_ip@),
                router_host_text(info.proxy_info.proxy_ip@, info.tinc_info.pub_key@),
            ),
        file_vip != info.tinc_info.vip.text@ ==> check_info_plan(tinc_home, file_vip, info, wan)[1]
            == (TincActionView::Write {
            path: router_host_path(tinc_home, info.proxy_info.proxy_ip@),
            content: router_host_text(info.proxy_info.proxy_ip@, info.tinc_info.pub_key@),
            required: true,
        }),
{
    reveal_strlit("/hosts/");
    reveal_strlit("proxy");
    reveal_strlit("_");
    reveal_strlit("/hosts/proxy_");
    let pip = info.proxy_info.proxy_ip@;
    let own_path = router_host_path(tinc_home, pip);
    let own_content = router_host_text(pip, info.tinc_info.pub_key@);
    assert(host_file_path(tinc_home, true, pip) =~= own_path);
    assert(host_file_content(pip, info.tinc_info.pub_key@) == own_content);
    let plan = check_info_plan(tinc_home, file_vip, info, wan);
    let changed = file_vip != info.tinc_info.vip.text@;
    let part1 = if changed {
        seq![
            TincActionView::Write {
                path: tinc_home + "/tinc-up"@,
                content: tinc_up_script(
                    info.tinc_info.vip.text@,
                    match wan {
                        Some(w) => w,
                        None => "eth0"@,
                    },
                ),
                required: true,
            },
            TincActionView::Write { path: own_path, content: own_content, required: true },
        ]
    } else {
        Seq::<TincActionView>::empty()
    };
    let writes = online_host_writes(tinc_home, info.proxy_info.online_porxy@);
    let part3 = if changed {
        seq![
            TincActionView::Write {
                path: tinc_home + "/tinc.conf"@,
                content: tinc_conf(pip, online_ips(info.proxy_info.online_porxy@)),
                required: false,
            },
            TincActionView::Restart,
        ]
    } else {
        Seq::<TincActionView>::empty()
    };
    let wie = TincActionView::WriteIfExists { path: own_path, content: own_content };
    assert(plan =~= part1 + writes + seq![wie] + part3);
    lemma_online_writes_are_writes(tinc_home, info.proxy_info.online_porxy@);
    assert forall|k: int| 0 <= k < plan.len() implies writes_router_host(
        #[trigger] plan[k],
        own_path,
        own_content,
    ) by {
        if k < part1.len() {
            assert(plan[k] == part1[k]);
        } else if k < part1.len() + writes.len() {
            assert(plan[k] == writes[k - part1.len()]);
        } else if k == part1.len() + writes.len() {
        } else {
            assert(plan[k] == part3[k - part1.len() - writes.len() - 1]);
        }
    }
    if changed {
        assert(plan[1] == part1[1]);
    }
}

/// The host-file writes for the online proxies restart nothing.
proof fn lemma_online_writes_no_restart(tinc_home: Seq<char>, v: Seq<OnlineProxy>)
    ensures
        !online_host_writes(tinc_home, v).contains(TincActionView::Restart),
    decreases v.len(),
{
    if v.len() > 0 {
        lemma_online_writes_no_restart(tinc_home, v.drop_last());
        let w = online_host_writes(tinc_home, v);
        let front = online_host_writes(tinc_home, v.drop_last());
        if w.contains(TincActionView::Restart) {
            let k = choose|k: int| 0 <= k < w.len() && w[k] == TincActionView::Restart;
            if k < front.len() {
                assert(front[k] == w[k]);
            }
        }
    }
}

/// What `check_info` plans keeps tinc in line with the conductor: tinc is
/// restarted exactly when the virtual address in `tinc-up` differs from
/// the conductor's, and then the first step writes a `tinc-up` from which
/// `get_vip` reads back the conductor's address (an address without line
/// end and neither it nor the interface name holding `vpngw=`).
pub proof fn lemma_check_info_plan(
    tinc_home: Seq<char>,
    file_vip: Seq<char>,
    info: Info,
    wan: Option<Seq<char>>,
)
    requires
        !info.tinc_info.vip.text@.contains('\n'),
        !contains(info.tinc_info.vip.text@, "vpngw="@),
        wan matches Some(w) ==> !contains(w, "vpngw="@),
    ensures
        check_info_plan(tinc_home, file_vip, info, wan).contains(TincActionView::Restart) <==> file_vip
            != info.tinc_info.vip.text@,
        file_vip != info.tinc_info.vip.text@ ==> (check_info_plan(tinc_home, file_vip, info, wan)[0] matches TincActionView::Write { path, content, required }
            && path == tinc_home + "/tinc-up"@ && required && vip_of_tinc_up(content)
            == info.tinc_info.vip.text@),
{
    let vip = info.tinc_info.vip.text@;
    let plan = check_info_plan(tinc_home, file_vip, info, wan);
    let proxy_ip = info.proxy_info.proxy_ip@;
    let own_path = host_file_path(tinc_home, true, proxy_ip);
    let own_content = host_file_content(proxy_ip, info.tinc_info.pub_key@);
    let wan_name = match wan {
        Some(w) => w,
        None => "eth0"@,
    };
    reveal_strlit("eth0");
    reveal_strlit("vpngw=");
    assert(!contains(wan_name, "vpngw="@));
    let writes = online_host_writes(tinc_home, info.proxy_info.online_porxy@);
    lemma_online_writes_no_restart(tinc_home, info.proxy_info.online_porxy@);
    let mid = writes + seq![TincActionView::WriteIfExists { path: own_path, content: own_content }];
    assert(!mid.contains(TincActionView::Restart)) by {
        if mid.contains(TincActionView::Restart) {
            let k = choose|k: int| 0 <= k < mid.len() && mid[k] == TincActionView::Restart;
            if k < writes.len() {
                assert(writes[k] == mid[k]);
            }
        }
    }
    if file_vip != vip {
        lemma_tinc_up_vip_round_trip(vip, wan_name);
        let head = seq![
            TincActionView::Write {
                path: tinc_home + "/tinc-up"@,
                content: tinc_up_script(vip, wan_name),
                required: true,
            },
            TincActionView::Write { path: own_path, content: own_content, required: true },
        ];
        let tail = seq![
            TincActionView::Write {
                path: tinc_home + "/tinc.conf"@,
                content: tinc_conf(proxy_ip, online_ips(info.proxy_info.online_porxy@)),
                required: false,
            },
            TincActionView::Restart,
        ];
        assert(plan =~= head + writes + seq![
            TincActionView::WriteIfExists { path: own_path, content: own_content },
        ] + tail);
        assert(plan[plan.len() - 1] == TincActionView::Restart);
        assert(plan[0] == head[0]);
    } else {
        assert(plan =~= Seq::<TincActionView>::empty() + mid + Seq::<TincActionView>::empty());
        assert(plan =~= mid);
    }
}

} // verus!
