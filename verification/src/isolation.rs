//! Isolation value objects: the result of a coherence mincut.

use vstd::prelude::*;

use crate::ids::NodeId;

verus! {

/// The outcome of recomputing the coherence mincut over the node graph: `isolated` lists the
/// nodes split off into their own partition.
#[derive(Clone, Debug, PartialEq, Default)]
pub struct Partitioning {
    pub isolated: Vec<NodeId>,
}

} // verus!
