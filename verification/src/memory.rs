//! Thermal memory value objects: embeddings, similarity queries, the district graph.

use vstd::prelude::*;

use crate::binary32::Binary32;
use crate::error::DomainError;
use crate::ids::{JunctionId, NodeId};
use crate::text::{decimal, decimal_text};

verus! {

/// Embedding dimensionality fixed by the specification.
pub const EMBEDDING_DIM: usize = 128;

/// A 128-dimensional thermal consumption-pattern embedding.
#[derive(Clone, Debug, PartialEq)]
pub struct Embedding {
    values: Vec<Binary32>,
}

impl View for Embedding {
    type V = Seq<Binary32>;

    closed spec fn view(&self) -> Seq<Binary32> {
        self.values@
    }
}

/// The text of the error for a vector of the wrong dimensionality.
pub open spec fn embedding_error_message(len: nat) -> Seq<char> {
    "embedding must be "@ + decimal(EMBEDDING_DIM as nat) + "-dim, got "@ + decimal(len)
}

impl Embedding {
    /// Construct a 128-dim embedding, validating dimensionality at the boundary.
    pub fn new(values: Vec<Binary32>) -> (r: Result<Embedding, DomainError>)
        ensures
            r is Ok <==> values@.len() == EMBEDDING_DIM,
            r matches Ok(e) ==> e@ == values@,
            r matches Err(e) ==> e matches DomainError::Invalid(m) && m@
                == embedding_error_message(values@.len()),
    {
        if values.len() != EMBEDDING_DIM {
            let mut m = String::from_str("embedding must be ");
            m.append(decimal_text(128).as_str());
            m.append("-dim, got ");
            m.append(decimal_text(values.len() as u64).as_str());
            return Err(DomainError::Invalid(m));
        }
        Ok(Embedding { values })
    }

    /// The components.
    pub fn as_slice(&self) -> (r: &[Binary32])
        ensures
            r@ == self@,
    {
        self.values.as_slice()
    }
}

/// A similarity query over the vector index.
#[derive(Clone, Debug, PartialEq)]
pub struct Query {
    pub vector: Embedding,
    pub top_k: usize,
    pub surplus_available: bool,
    pub district: String,
}

/// A similarity-search candidate.
#[derive(Clone, Debug, PartialEq)]
pub struct Candidate {
    pub node_id: NodeId,
    pub similarity: Binary32,
}

/// The district thermal network as a graph: buildings are nodes, pipes are weighted edges.
#[derive(Clone, Debug, PartialEq)]
pub struct DistrictGraph {
    pub nodes: Vec<NodeId>,
    pub edges: Vec<(JunctionId, JunctionId, Binary32)>,
}

/// Output of graph inference over the district graph.
#[derive(Clone, Debug, PartialEq)]
pub struct GnnState {
    pub node_scores: Vec<(NodeId, Binary32)>,
}

} // verus!
