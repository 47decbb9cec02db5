//! Events that tinc reports about itself and its peers.
use vstd::prelude::*;

verus! {

/// A change of tinc's own state or of a peer host.
#[derive(Debug)]
pub enum HostStatusChange {
    TincUp,
    TincDown,
    HostUp(String),
    HostDown(String),
}

} // verus!
