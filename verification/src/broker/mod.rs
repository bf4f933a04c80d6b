//! The thermal market participant: the decision kernel, the governance gate, the trading tick,
//! federated training and the reference market adapters.

pub mod agent;
pub mod decide;
pub mod federated;
pub mod orchestrator;
pub mod prime_coordinator;
pub mod rules;
pub mod seed_mesh;
