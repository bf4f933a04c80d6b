//! Trade consensus: the anti-corruption layer that turns an agreement into a signed,
//! consensus-final DAG entry, over post-quantum primitives.

pub mod gateway;
pub mod qudag;
