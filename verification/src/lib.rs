//! Hőforrás: the domain language, the thermal market's decision kernel, the consensus and mesh
//! coordination logic of a district heat-trading network.

pub mod binary32;
pub mod text;
pub mod error;
pub mod ids;
pub mod capability;
pub mod governance;
pub mod market;
pub mod consensus;
pub mod canonical;
pub mod forecast;
pub mod sensor;
pub mod witness;
pub mod gradient;
pub mod isolation;
pub mod memory;
pub mod mesh;
pub mod recovery;
pub mod broker;
pub mod trade_consensus;
pub mod coordination;
pub mod name_set;
pub mod ai;
