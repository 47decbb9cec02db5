//! Settings resolved from the file and the defaults.
use vstd::prelude::*;
use crate::dnet_types::ip::IpAddr;
use crate::dnet_types::settings::{
    RunMode,
    Settings as TypeSettings,
    Common as TypeCommon,
    Proxy as TypeProxy,
    Client as TypeClient,
};
use crate::text::{chars_of, dec, parse_unsigned, parse_unsigned_exec, lowercase_of, push_dec, string_of, to_lowercase};
use super::default_settings::{
    DEFAULT_LOG_LEVEL,
    DEFAULT_LINUX_DEFAULT_HOME_PATH,
    DEFAULT_PROXY_LOCAL_SERVER_PORT,
    DEFAULT_PROXY_TYPE,
    DEFAULT_CLIENT_AUTO_CONNECT,
};
use super::error::{Error, ErrorView};
use super::parse_file::{
    FileSettings,
    Common as FileCommon,
    Proxy as FileProxy,
    Client as FileClient,
    Tinc as FileTinc,
    IpText,
    opt_text,
};
use super::path::{join, path_join};

verus! {

/// General settings.
pub struct Common {
    pub conductor_url: String,
    pub home_path: String,
    pub log_level: String,
    pub log_dir: String,
    pub mode: RunMode,
    pub username: String,
    pub password: String,
}

/// Settings of a proxy.
pub struct Proxy {
    pub local_ip: Option<IpAddr>,
    /// The port of the local HTTPS server, as the file writes it.
    pub local_port: String,
    pub local_https_server_certificate_file: String,
    pub local_https_server_privkey_file: String,
    pub proxy_type: String,
}

/// Settings of a client.
pub struct Client {
    pub auto_connect: bool,
}

/// The integer settings of tinc's supervision.
pub struct Tinc {
    pub tinc_check_frequency: u32,
    pub tinc_allowed_out_memory_times: u32,
    pub tinc_allowed_tcp_failed_times: u32,
    pub tinc_debug_level: u32,
}

/// All settings.
pub struct Settings {
    pub common: Common,
    pub proxy: Proxy,
    pub client: Client,
    pub tinc: Tinc,
    pub last_runtime: String,
}

// ---------------------------------------------------------------------------
// The mathematical model
// ---------------------------------------------------------------------------

pub struct CommonView {
    pub conductor_url: Seq<char>,
    pub home_path: Seq<char>,
    pub log_level: Seq<char>,
    pub log_dir: Seq<char>,
    pub mode: RunMode,
    pub username: Seq<char>,
    pub password: Seq<char>,
}

pub struct ProxyView {
    pub local_ip: Option<Seq<char>>,
    pub local_port: Seq<char>,
    pub local_https_server_certificate_file: Seq<char>,
    pub local_https_server_privkey_file: Seq<char>,
    pub proxy_type: Seq<char>,
}

pub struct TincView {
    pub tinc_check_frequency: u32,
    pub tinc_allowed_out_memory_times: u32,
    pub tinc_allowed_tcp_failed_times: u32,
    pub tinc_debug_level: u32,
}

pub struct SettingsView {
    pub common: CommonView,
    pub proxy: ProxyView,
    pub auto_connect: bool,
    pub tinc: TincView,
    pub last_runtime: Seq<char>,
}

impl View for Common {
    type V = CommonView;

    open spec fn view(&self) -> CommonView {
        CommonView {
            conductor_url: self.conductor_url@,
            home_path: self.home_path@,
            log_level: self.log_level@,
            log_dir: self.log_dir@,
            mode: self.mode,
            username: self.username@,
            password: self.password@,
        }
    }
}

impl View for Proxy {
    type V = ProxyView;

    open spec fn view(&self) -> ProxyView {
        ProxyView {
            local_ip: match self.local_ip {
                Some(ip) => Some(ip.text@),
                None => None,
            },
            local_port: self.local_port@,
            local_https_server_certificate_file: self.local_https_server_certificate_file@,
            local_https_server_privkey_file: self.local_https_server_privkey_file@,
            proxy_type: self.proxy_type@,
        }
    }
}

impl View for Tinc {
    type V = TincView;

    open spec fn view(&self) -> TincView {
        TincView {
            tinc_check_frequency: self.tinc_check_frequency,
            tinc_allowed_out_memory_times: self.tinc_allowed_out_memory_times,
            tinc_allowed_tcp_failed_times: self.tinc_allowed_tcp_failed_times,
            tinc_debug_level: self.tinc_debug_level,
        }
    }
}

impl View for Settings {
    type V = SettingsView;

    open spec fn view(&self) -> SettingsView {
        SettingsView {
            common: self.common@,
            proxy: self.proxy@,
            auto_connect: self.client.auto_connect,
            tinc: self.tinc@,
            last_runtime: self.last_runtime@,
        }
    }
}

/// The default home directory.
pub open spec fn default_home() -> Seq<char> {
    "/opt/dnet"@
}

/// The general settings used when the file gives none (the log directory
/// is the home directory itself).
pub open spec fn default_common() -> CommonView {
    CommonView {
        conductor_url: Seq::empty(),
        home_path: default_home(),
        log_level: "Error"@,
        log_dir: default_home(),
        mode: RunMode::Client,
        username: Seq::empty(),
        password: Seq::empty(),
    }
}

/// A value or a default.
pub open spec fn or_default(o: Option<Seq<char>>, d: Seq<char>) -> Seq<char> {
    match o {
        Some(v) => v,
        None => d,
    }
}

/// The run mode a `mode` setting selects: `proxy` in any letter case
/// selects a proxy, anything else a client.
pub open spec fn mode_of(m: Option<Seq<char>>) -> RunMode {
    match m {
        Some(s) => if lowercase_of(s) == "proxy"@ {
            RunMode::Proxy
        } else {
            RunMode::Client
        },
        None => RunMode::Client,
    }
}

/// The general settings resolved from the `[common]` section.  Without a
/// conductor URL the whole section is ignored and the defaults apply.
pub open spec fn resolve_common(c: Option<FileCommon>) -> CommonView {
    match c {
        None => default_common(),
        Some(fc) => match fc.conductor_url {
            None => default_common(),
            Some(url) => CommonView {
                conductor_url: url@,
                home_path: or_default(opt_text(fc.home_path), default_home()),
                log_level: or_default(opt_text(fc.log_level), "Error"@),
                log_dir: or_default(opt_text(fc.log_dir), path_join(default_home(), "log"@)),
                mode: mode_of(opt_text(fc.mode)),
                username: or_default(opt_text(fc.username), Seq::empty()),
                password: or_default(opt_text(fc.password), Seq::empty()),
            },
        },
    }
}

/// A `[common]` section with a conductor URL sets the general settings:
/// each field it gives is kept as written, and one it leaves out takes its
/// default: home `/opt/dnet`, log level `Error`, log directory
/// `/opt/dnet/log`, no user name, no password.
pub proof fn lemma_common_fields(c: FileCommon)
    requires
        c.conductor_url is Some,
    ensures
        resolve_common(Some(c)).conductor_url == c.conductor_url->0@,
        (c.home_path is Some) ==> resolve_common(Some(c)).home_path == c.home_path->0@,
        (c.home_path is None) ==> resolve_common(Some(c)).home_path == "/opt/dnet"@,
        (c.log_level is Some) ==> resolve_common(Some(c)).log_level == c.log_level->0@,
        (c.log_level is None) ==> resolve_common(Some(c)).log_level == "Error"@,
        (c.log_dir is Some) ==> resolve_common(Some(c)).log_dir == c.log_dir->0@,
        (c.log_dir is None) ==> resolve_common(Some(c)).log_dir == "/opt/dnet/log"@,
        (c.username is Some) ==> resolve_common(Some(c)).username == c.username->0@,
        (c.username is None) ==> resolve_common(Some(c)).username.len() == 0,
        (c.password is Some) ==> resolve_common(Some(c)).password == c.password->0@,
        (c.password is None) ==> resolve_common(Some(c)).password.len() == 0,
{
    reveal_strlit("/opt/dnet");
    reveal_strlit("log");
    reveal_strlit("/opt/dnet/log");
    assert(path_join("/opt/dnet"@, "log"@) =~= "/opt/dnet/log"@);
}

/// The proxy settings when the daemon does not run as a proxy.
pub open spec fn empty_proxy() -> ProxyView {
    ProxyView {
        local_ip: None,
        local_port: Seq::empty(),
        local_https_server_certificate_file: Seq::empty(),
        local_https_server_privkey_file: Seq::empty(),
        proxy_type: Seq::empty(),
    }
}

/// The proxy settings resolved from the `[proxy]` section, or the first
/// error met in the order: missing section, unreadable local IP, missing
/// private key file, missing certificate file.  The port is kept as text,
/// 443 when the file gives none.
pub open spec fn resolve_proxy(mode: RunMode, p: Option<FileProxy>) -> Result<ProxyView, ErrorView> {
    if mode != RunMode::Proxy {
        Ok(empty_proxy())
    } else {
        match p {
            None => Err(ErrorView::NoneError),
            Some(fp) => {
                if fp.local_ip matches Some(IpText::Unparsable) {
                    Err(ErrorView::Config("local_ip"@))
                } else if fp.local_https_server_privkey_file is None {
                    Err(ErrorView::HttpsServerPrivkeyNotFound)
                } else if fp.local_https_server_certificate_file is None {
                    Err(ErrorView::HttpsServerCertificateNotFound)
                } else {
                    Ok(
                        ProxyView {
                            local_ip: match fp.local_ip {
                                Some(IpText::Parsed(ip)) => Some(ip.text@),
                                _ => None,
                            },
                            local_port: or_default(
                                opt_text(fp.local_port),
                                dec(DEFAULT_PROXY_LOCAL_SERVER_PORT as nat),
                            ),
                            local_https_server_certificate_file:
                                fp.local_https_server_certificate_file->0@,
                            local_https_server_privkey_file: fp.local_https_server_privkey_file->0@,
                            proxy_type: or_default(opt_text(fp.proxy_type), "other"@),
                        },
                    )
                }
            },
        }
    }
}

/// Whether a client connects at start: only a client with a `[client]`
/// section does; there `auto_connect` set to `true` in any letter case, or
/// not set at all, says yes.
pub open spec fn resolve_auto_connect(mode: RunMode, c: Option<FileClient>) -> bool {
    if mode == RunMode::Client {
        match c {
            Some(fc) => match fc.auto_connect {
                Some(s) => lowercase_of(s@) == "true"@,
                None => true,
            },
            None => false,
        }
    } else {
        false
    }
}

/// An integer setting of the `[tinc]` section; 0 when absent or unreadable.
pub open spec fn tinc_number(o: Option<String>) -> u32 {
    match o {
        Some(s) => match parse_unsigned(s@, 4294967295) {
            Some(v) => v as u32,
            None => 0,
        },
        None => 0,
    }
}

pub open spec fn resolve_tinc(t: Option<FileTinc>) -> TincView {
    match t {
        Some(ft) => TincView {
            tinc_check_frequency: tinc_number(ft.tinc_check_frequency),
            tinc_allowed_out_memory_times: tinc_number(ft.tinc_allowed_out_memory_times),
            tinc_allowed_tcp_failed_times: tinc_number(ft.tinc_allowed_tcp_failed_times),
            tinc_debug_level: tinc_number(ft.tinc_debug_level),
        },
        None => TincView {
            tinc_check_frequency: 0,
            tinc_allowed_out_memory_times: 0,
            tinc_allowed_tcp_failed_times: 0,
            tinc_debug_level: 0,
        },
    }
}

/// The settings a file resolves to.
pub open spec fn resolve_settings(f: FileSettings) -> Result<SettingsView, ErrorView> {
    let common = resolve_common(f.common);
    match resolve_proxy(common.mode, f.proxy) {
        Err(e) => Err(e),
        Ok(proxy) => Ok(
            SettingsView {
                common,
                proxy,
                auto_connect: resolve_auto_connect(common.mode, f.client),
                tinc: resolve_tinc(f.tinc),
                last_runtime: Seq::empty(),
            },
        ),
    }
}

// ---------------------------------------------------------------------------
// Resolution
// ---------------------------------------------------------------------------

fn text_or(o: Option<String>, d: &str) -> (r: String)
    ensures
        r@ == or_default(opt_text(o), d@),
{
    match o {
        Some(s) => s,
        None => d.to_string(),
    }
}

fn equals_lowercase(s: &str, word: &str) -> (b: bool)
    ensures
        b == (lowercase_of(s@) == word@),
{
    let l = to_lowercase(s);
    l == word.to_string()
}

impl Common {
    /// The general settings used when the file gives none.
    pub fn default() -> (r: Result<Common, Error>)
        ensures
            r matches Ok(c) && c@ == default_common(),
    {
        let home_path = Self::default_home_path()?;
        let log_dir = Self::default_home_path()?;
        Ok(
            Common {
                conductor_url: String::new(),
                home_path,
                log_level: Self::default_log_level(),
                log_dir,
                mode: Self::default_running_mode(),
                username: String::new(),
                password: String::new(),
            },
        )
    }

    /// The home directory: `/opt/dnet`.
    pub fn default_home_path() -> (r: Result<String, Error>)
        ensures
            r matches Ok(p) && p@ == default_home(),
    {
        match crate::dnet_path::home_dir(Some(DEFAULT_LINUX_DEFAULT_HOME_PATH)) {
            Some(p) => Ok(p),
            None => Err(Error::home_path_not_set),
        }
    }

    /// The log directory: `log` under the home directory.
    pub fn default_log_dir() -> (r: Result<String, Error>)
        ensures
            r matches Ok(p) && p@ == path_join(default_home(), "log"@),
    {
        let home = Self::default_home_path()?;
        Ok(join(home.as_str(), "log"))
    }

    /// Runs as a client.
    pub fn default_running_mode() -> (r: RunMode)
        ensures
            r == RunMode::Client,
    {
        RunMode::Client
    }

    /// Logs errors only.
    pub fn default_log_level() -> (r: String)
        ensures
            r@ == "Error"@,
    {
        DEFAULT_LOG_LEVEL.to_string()
    }

    fn from_file(fc: FileCommon) -> (r: Result<Common, Error>)
        ensures
            r matches Ok(c) && c@ == resolve_common(Some(fc)),
    {
        let ghost g = fc;
        let url = match fc.conductor_url {
            Some(u) => u,
            None => {
                return Self::default();
            },
        };
        let home_path = match fc.home_path {
            Some(h) => h,
            None => Self::default_home_path()?,
        };
        let log_level = match fc.log_level {
            Some(l) => l,
            None => Self::default_log_level(),
        };
        let log_dir = match fc.log_dir {
            Some(l) => l,
            None => Self::default_log_dir()?,
        };
        let mode = match fc.mode {
            Some(m) => {
                if equals_lowercase(m.as_str(), "proxy") {
                    RunMode::Proxy
                } else {
                    RunMode::Client
                }
            },
            None => Self::default_running_mode(),
        };
        let username = match fc.username {
            Some(u) => u,
            None => String::new(),
        };
        let password = match fc.password {
            Some(p) => p,
            None => String::new(),
        };
        let r = Common { conductor_url: url, home_path, log_level, log_dir, mode, username, password };
        assert(r@ == resolve_common(Some(g)));
        Ok(r)
    }
}

impl Proxy {
    /// The proxy settings of a daemon that does not run as a proxy.
    pub fn empty() -> (p: Proxy)
        ensures
            p@ == empty_proxy(),
    {
        Proxy {
            local_ip: None,
            local_port: String::new(),
            local_https_server_certificate_file: String::new(),
            local_https_server_privkey_file: String::new(),
            proxy_type: String::new(),
        }
    }

    fn from_file(fp: FileProxy) -> (r: Result<Proxy, Error>)
        ensures
            match resolve_proxy(RunMode::Proxy, Some(fp)) {
                Ok(v) => r matches Ok(p) && p@ == v,
                Err(e) => r matches Err(x) && x@ == e,
            },
    {
        let ghost g = fp;
        let local_ip = match fp.local_ip {
            Some(IpText::Parsed(ip)) => Some(ip),
            Some(IpText::Unparsable) => {
                return Err(Error::Config("local_ip".to_string()));
            },
            None => None,
        };
        let local_port = match fp.local_port {
            Some(s) => s,
            None => {
                let mut v: Vec<char> = Vec::new();
                push_dec(&mut v, DEFAULT_PROXY_LOCAL_SERVER_PORT as u64);
                string_of(&v)
            },
        };
        let local_https_server_privkey_file = match fp.local_https_server_privkey_file {
            Some(f) => f,
            None => {
                return Err(Error::https_server_privkey_not_found);
            },
        };
        let local_https_server_certificate_file = match fp.local_https_server_certificate_file {
            Some(f) => f,
            None => {
                return Err(Error::https_server_certificate_not_found);
            },
        };
        let proxy_type = text_or(fp.proxy_type, DEFAULT_PROXY_TYPE);
        Ok(
            Proxy {
                local_ip,
                local_port,
                local_https_server_certificate_file,
                local_https_server_privkey_file,
                proxy_type,
            },
        )
    }
}

impl Client {
    /// A client that does not connect at start.
    pub fn default() -> (c: Client)
        ensures
            !c.auto_connect,
    {
        Client { auto_connect: false }
    }
}

impl Tinc {
    /// All integer tinc settings at 0.
    pub fn default() -> (t: Tinc)
        ensures
            t@ == resolve_tinc(None),
    {
        Tinc {
            tinc_check_frequency: 0,
            tinc_allowed_out_memory_times: 0,
            tinc_allowed_tcp_failed_times: 0,
            tinc_debug_level: 0,
        }
    }
}

fn tinc_number_exec(o: Option<String>) -> (r: u32)
    ensures
        r == tinc_number(o),
{
    match o {
        Some(s) => {
            let v = chars_of(s.as_str());
            match parse_unsigned_exec(&v, 4294967295) {
                Some(n) => n,
                None => 0,
            }
        },
        None => 0,
    }
}

impl Settings {
    /// The settings used when there is no file.
    pub fn default() -> (r: Result<Settings, Error>)
        ensures
            r matches Ok(s) && s.common@ == default_common() && s.proxy@ == empty_proxy()
                && !s.client.auto_connect && s.tinc@ == resolve_tinc(None) && s.last_runtime@
                == Seq::<char>::empty(),
    {
        let common = Common::default()?;
        Ok(
            Settings {
                common,
                proxy: Proxy::empty(),
                client: Client::default(),
                tinc: Tinc::default(),
                last_runtime: String::new(),
            },
        )
    }

    /// Resolves the settings from the sections of the file; see
    /// `resolve_settings` for the rules.
    pub fn parse_file_settings(file_settings: FileSettings) -> (r: Result<Settings, Error>)
        ensures
            match resolve_settings(file_settings) {
                Ok(v) => r matches Ok(s) && s@ == v,
                Err(e) => r matches Err(x) && x@ == e,
            },
    {
        let ghost f = file_settings;
        let common = match file_settings.common {
            Some(fc) => Common::from_file(fc)?,
            None => Common::default()?,
        };
        assert(common@ == resolve_common(f.common));
        let proxy = if common.mode == RunMode::Proxy {
            match file_settings.proxy {
                Some(fp) => Proxy::from_file(fp)?,
                None => {
                    return Err(Error::NoneError);
                },
            }
        } else {
            Proxy::empty()
        };
        let auto_connect = if common.mode == RunMode::Client {
            match file_settings.client {
                Some(fc) => match fc.auto_connect {
                    Some(a) => equals_lowercase(a.as_str(), "true"),
                    None => DEFAULT_CLIENT_AUTO_CONNECT,
                },
                None => false,
            }
        } else {
            false
        };
        let tinc = match file_settings.tinc {
            Some(ft) => Tinc {
                tinc_check_frequency: tinc_number_exec(ft.tinc_check_frequency),
                tinc_allowed_out_memory_times: tinc_number_exec(ft.tinc_allowed_out_memory_times),
                tinc_allowed_tcp_failed_times: tinc_number_exec(ft.tinc_allowed_tcp_failed_times),
                tinc_debug_level: tinc_number_exec(ft.tinc_debug_level),
            },
            None => Tinc::default(),
        };
        Ok(
            Settings {
                common,
                proxy,
                client: Client { auto_connect },
                tinc,
                last_runtime: String::new(),
            },
        )
    }

    /// The settings as the daemon reports them to front ends.
    pub fn into_type_settings(self) -> (r: TypeSettings)
        ensures
            r.common.conductor_url@ == self.common.conductor_url@,
            r.common.home_path@ == self.common.home_path@,
            r.common.log_level@ == self.common.log_level@,
            r.common.log_dir@ == self.common.log_dir@,
            r.common.mode == self.common.mode,
            r.common.username@ == self.common.username@,
            r.common.password@ == self.common.password@,
            r.client.auto_connect == self.client.auto_connect,
            r.proxy.local_ip == self.proxy.local_ip,
            r.proxy.local_port@ == self.proxy.local_port@,
            r.proxy.local_https_server_certificate_file@
                == self.proxy.local_https_server_certificate_file@,
            r.proxy.local_https_server_privkey_file@
                == self.proxy.local_https_server_privkey_file@,
            r.proxy.proxy_type@ == self.proxy.proxy_type@,
            r.last_runtime@ == self.last_runtime@,
    {
        TypeSettings {
            common: TypeCommon {
                conductor_url: self.common.conductor_url,
                home_path: self.common.home_path,
                log_level: self.common.log_level,
                log_dir: self.common.log_dir,
                mode: self.common.mode,
                username: self.common.username,
                password: self.common.password,
            },
            client: TypeClient { auto_connect: self.client.auto_connect },
            proxy: TypeProxy {
                local_ip: self.proxy.local_ip,
                local_port: self.proxy.local_port,
                local_https_server_certificate_file: self.proxy.local_https_server_certificate_file,
                local_https_server_privkey_file: self.proxy.local_https_server_privkey_file,
                proxy_type: self.proxy.proxy_type,
            },
            last_runtime: self.last_runtime,
        }
    }
}

} // verus!
