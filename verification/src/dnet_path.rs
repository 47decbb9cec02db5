//! Where the daemon keeps its files and its IPC socket.
use vstd::prelude::*;

verus! {

/// The home directory on Linux: the given path, or `/opt/dnet`.
pub open spec fn home_dir_of(linux_path: Option<Seq<char>>) -> Seq<char> {
    match linux_path {
        Some(p) => p,
        None => "/opt/dnet"@,
    }
}

/// The daemon's home directory on Linux: the path given, else `/opt/dnet`.
/// It is always found.
pub fn home_dir(linux_path: Option<&str>) -> (r: Option<String>)
    ensures
        r matches Some(p) && p@ == home_dir_of(
            match linux_path {
                Some(l) => Some(l@),
                None => None,
            },
        ),
{
    match linux_path {
        Some(p) => Some(p.to_string()),
        None => Some("/opt/dnet".to_string()),
    }
}

/// The path of the daemon's IPC socket on Unix.
pub fn ipc_path() -> (r: String)
    ensures
        r@ == "/tmp/.dnet.socket"@,
{
    "/tmp/.dnet.socket".to_string()
}

} // verus!
