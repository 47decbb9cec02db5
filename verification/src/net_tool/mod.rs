//! Command lines for iptables and ip(8), and the reading of iptables'
//! rule listings.
pub mod firewall;
pub mod route;

use vstd::prelude::*;

verus! {

/// The texts held by a vector of strings.
pub open spec fn string_views(v: Seq<String>) -> Seq<Seq<char>> {
    v.map_values(|s: String| s@)
}

} // verus!
