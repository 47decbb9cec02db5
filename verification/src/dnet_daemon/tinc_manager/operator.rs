//! How the daemon's settings configure tinc.
use vstd::prelude::*;
use crate::dnet_types::settings::RunMode;
use crate::dnet_daemon::settings::path::{join, path_join};
use crate::text::{chars_of, string_of};

verus! {

/// The role tinc plays, as the tinc plug-in names it.
#[derive(Clone, Copy, Debug, PartialEq, Eq, Structural)]
pub enum TincRunMode {
    Proxy,
    Client,
    Center,
}

/// The tinc role for a daemon role.
pub open spec fn tinc_run_mode_of(m: RunMode) -> TincRunMode {
    match m {
        RunMode::Proxy => TincRunMode::Proxy,
        RunMode::Client => TincRunMode::Client,
        RunMode::Center => TincRunMode::Center,
    }
}

/// tinc's home directory: `tinc` under the daemon's home, with a trailing
/// `/`.
pub open spec fn tinc_home_of(home_path: Seq<char>) -> Seq<char> {
    path_join(home_path, "tinc"@).push('/')
}

/// The tinc role for a daemon role.
pub fn tinc_run_mode(mode: RunMode) -> (r: TincRunMode)
    ensures
        r == tinc_run_mode_of(mode),
{
    match mode {
        RunMode::Proxy => TincRunMode::Proxy,
        RunMode::Client => TincRunMode::Client,
        RunMode::Center => TincRunMode::Center,
    }
}

/// tinc's home directory under the daemon's home directory.
pub fn tinc_home(home_path: &str) -> (r: String)
    ensures
        r@ == tinc_home_of(home_path@),
{
    let j = join(home_path, "tinc");
    let mut v = chars_of(j.as_str());
    v.push('/');
    string_of(&v)
}

/// The name of a daemon's role.
pub open spec fn role_name(m: RunMode) -> Seq<char> {
    match m {
        RunMode::Proxy => "proxy"@,
        RunMode::Client => "client"@,
        RunMode::Center => "center"@,
    }
}

/// The name of a role tinc runs in.
pub open spec fn tinc_role_name(t: TincRunMode) -> Seq<char> {
    match t {
        TincRunMode::Proxy => "proxy"@,
        TincRunMode::Client => "client"@,
        TincRunMode::Center => "center"@,
    }
}

/// tinc runs in the role of its daemon: the role it is given has the
/// daemon's role name, so daemons in different roles set tinc up
/// differently.
pub proof fn lemma_tinc_keeps_role(a: RunMode, b: RunMode)
    ensures
        tinc_role_name(tinc_run_mode_of(a)) == role_name(a),
        tinc_run_mode_of(a) == tinc_run_mode_of(b) ==> a == b,
{
    reveal_strlit("proxy");
    reveal_strlit("client");
    reveal_strlit("center");
    assert("proxy"@ != "client"@) by {
        assert("proxy"@[0] != "client"@[0]);
    }
    assert("proxy"@ != "center"@) by {
        assert("proxy"@[0] != "center"@[0]);
    }
    assert("client"@ != "center"@) by {
        assert("client"@[1] != "center"@[1]);
    }
}

} // verus!
