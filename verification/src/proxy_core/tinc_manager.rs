//! What tinc's control socket reports, and the freshness of the key.
use vstd::prelude::*;
use crate::ovrouterd::tinc_manager::check::PUB_KEY_MAX_AGE_SECS;

verus! {

/// The numbers of connections, edges and nodes, from the lengths of tinc's
/// three dumps (each as a `u32`, keeping its low 32 bits).
pub fn tinc_connections(connections: usize, edges: usize, nodes: usize) -> (r: (u32, u32, u32))
    ensures
        r == (connections as u32, edges as u32, nodes as u32),
{
    (connections as u32, edges as u32, nodes as u32)
}

/// Whether the public key is fresh, given the seconds since its file was
/// modified (`None` when unknown): less than thirty days old.
pub fn check_pub_key(age_secs: Option<u64>) -> (fresh: bool)
    ensures
        fresh == (age_secs matches Some(a) && a < PUB_KEY_MAX_AGE_SECS),
{
    crate::ovrouterd::tinc_manager::check::check_pub_key(age_secs)
}

} // verus!
