//! District mesh coordination: propagation of signed DAG entries, self-healing across node churn,
//! and collective mitigation behaviour. Propagation is always a signed DAG entry over the mesh
//! transport, never a remote call.

pub mod coordinator;
pub mod synaptic;
