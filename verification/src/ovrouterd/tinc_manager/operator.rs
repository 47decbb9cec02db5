//! Files of the tinc installation and the outgoing interface.
use vstd::prelude::*;
use crate::dnet_daemon::settings::path::{join, path_join};
use crate::text::{
    chars_of,
    extend_str,
    lines,
    lines_exec,
    matches_at,
    split_ws,
    starts_with,
    string_of,
    trim,
    trim_exec,
    unicode_ws_tokens,
    views,
};

verus! {

/// Why the outgoing interface is unknown.
pub enum WanError {
    /// `ip route` could not be run; the payload is the reason.
    FailedToRunIp(String),
    /// No default route names an interface.
    NoWanDev,
}

/// The first line of `ip route` output that, trimmed, begins with
/// `default via `.
pub open spec fn first_default_route(ls: Seq<Seq<char>>) -> Option<Seq<char>>
    decreases ls.len(),
{
    if ls.len() == 0 {
        None
    } else if starts_with(trim(ls[0]), "default via "@) {
        Some(ls[0])
    } else {
        first_default_route(ls.drop_first())
    }
}

/// The outgoing interface named by `ip route` output: the fifth field of
/// the first default route, if that route has five fields.
pub open spec fn wan_dev_of(output: Seq<char>) -> Option<Seq<char>> {
    match first_default_route(lines(output)) {
        Some(l) => {
            let t = unicode_ws_tokens(trim(l));
            if t.len() > 4 {
                Some(t[4])
            } else {
                None
            }
        },
        None => None,
    }
}

/// The outgoing interface named by `ip route` output.
pub fn wan_from_route_output(output: &str) -> (r: Option<String>)
    ensures
        match wan_dev_of(output@) {
            Some(dev) => r matches Some(d) && d@ == dev,
            None => r is None,
        },
{
    let v = chars_of(output);
    let ls = lines_exec(&v);
    let pat = chars_of("default via ");
    let mut i: usize = 0;
    assert(views(ls@).skip(0) =~= views(ls@));
    while i < ls.len()
        invariant
            i <= ls.len(),
            pat@ == "default via "@,
            views(ls@) == lines(output@),
            first_default_route(views(ls@)) == first_default_route(views(ls@).skip(i as int)),
        decreases ls.len() - i,
    {
        let ghost rest = views(ls@).skip(i as int);
        assert(rest[0] == ls@[i as int]@);
        let t = trim_exec(&ls[i]);
        assert(t@.skip(0) =~= t@);
        if matches_at(&t, 0, &pat) {
            let toks = split_ws(&t, true);
            if toks.len() > 4 {
                assert(views(toks@)[4] == toks@[4]@);
                return Some(string_of(&toks[4]));
            } else {
                return None;
            }
        }
        assert(rest.drop_first() =~= views(ls@).skip(i + 1));
        i = i + 1;
    }
    assert(views(ls@).skip(i as int) =~= Seq::<Seq<char>>::empty());
    None
}

/// The outgoing interface, from the output of `ip route` (or the reason it
/// could not be run).
pub fn get_wan_name(route_output: Result<String, String>) -> (r: Result<String, WanError>)
    ensures
        match route_output {
            Err(e) => r matches Err(WanError::FailedToRunIp(x)) && x@ == e@,
            Ok(out) => match wan_dev_of(out@) {
                Some(dev) => r matches Ok(d) && d@ == dev,
                None => r matches Err(WanError::NoWanDev),
            },
        },
{
    match route_output {
        Ok(o) => match wan_from_route_output(o.as_str()) {
            Some(d) => Ok(d),
            None => Err(WanError::NoWanDev),
        },
        Err(e) => Err(WanError::FailedToRunIp(e)),
    }
}

/// Where the tinc reporter's credentials go: `auth/auth.txt` under tinc's
/// home.
pub fn auth_file_path(tinc_home: &str) -> (r: String)
    ensures
        r@ == path_join(tinc_home@ + "auth/"@, "auth.txt"@),
{
    let mut d = chars_of(tinc_home);
    extend_str(&mut d, "auth/");
    let ds = string_of(&d);
    join(ds.as_str(), "auth.txt")
}

/// A unix script that runs tinc's reporter with one option: `#!/bin/sh`,
/// a line end, the reporter in tinc's home, a space and the option.
pub open spec fn report_script(tinc_home: Seq<char>, option: Seq<char>) -> Seq<char> {
    "#!/bin/sh\n"@ + tinc_home + "/tinc-report "@ + option
}

fn report_script_text(tinc_home: &str, option: &str) -> (r: String)
    ensures
        r@ == report_script(tinc_home@, option@),
{
    let mut v = chars_of("#!/bin/sh\n");
    extend_str(&mut v, tinc_home);
    extend_str(&mut v, "/tinc-report ");
    extend_str(&mut v, option);
    string_of(&v)
}

/// The script tinc runs when it comes up (`set_tinc_up`): report `-u`.
pub fn tinc_up_report_script(tinc_home: &str) -> (r: String)
    ensures
        r@ == report_script(tinc_home@, "-u"@),
{
    report_script_text(tinc_home, "-u")
}

/// The script tinc runs when it goes down (`set_tinc_down`): report `-d`.
pub fn tinc_down_report_script(tinc_home: &str) -> (r: String)
    ensures
        r@ == report_script(tinc_home@, "-d"@),
{
    report_script_text(tinc_home, "-d")
}

/// The script tinc runs when a host comes up (`set_host_up`): report
/// `-hu` with the host's name.
pub fn host_up_report_script(tinc_home: &str) -> (r: String)
    ensures
        r@ == report_script(tinc_home@, "-hu ${NODE}"@),
{
    report_script_text(tinc_home, "-hu ${NODE}")
}

/// The script tinc runs when a host goes down (`set_host_down`): report
/// `-hd` with the host's name.
pub fn host_down_report_script(tinc_home: &str) -> (r: String)
    ensures
        r@ == report_script(tinc_home@, "-hd ${NODE}"@),
{
    report_script_text(tinc_home, "-hd ${NODE}")
}

} // verus!
