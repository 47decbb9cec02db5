//! The GraphQL mutations of the router's web interface.
use vstd::prelude::*;

verus! {

/// The root of the mutations.
pub struct MutationRoot;

/// The input that creates a scan node.
pub struct NewScanNode {
    pub ip: String,
}

impl MutationRoot {
    /// The `NewScanNode` mutation: it answers with a node whose address is
    /// `123`, whatever it was given.
    pub fn new_scan_node(&self, new: NewScanNode) -> (r: NewScanNode)
        ensures
            r.ip@ == "123"@,
    {
        NewScanNode { ip: "123".to_string() }
    }
}

} // verus!
