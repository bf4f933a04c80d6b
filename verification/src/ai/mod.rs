//! AI orchestration: the ThermalSense-Bridge, an open host service that publishes a stable set of
//! MCP tools; the anomaly explainer; the deferred cross-district federation boundary; and the
//! reference tool-registry and operator-channel adapters.

pub mod bridge;
pub mod explainer;
pub mod federation;
pub mod ruflo;
pub mod websocket_sink;
