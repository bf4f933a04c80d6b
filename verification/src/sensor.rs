//! Sensing & ingestion value objects. Raw readings never cross a partition boundary.

use vstd::prelude::*;

use crate::binary32::Binary32;
use crate::ids::{NodeId, Timestamp};

verus! {

/// Raw multi-source sensor input prior to validation. Never leaves the coherence domain.
#[derive(Clone, Debug, PartialEq)]
pub struct RawReading {
    pub node_id: NodeId,
    pub timestamp_ns: u64,
    pub temperature_celsius: Binary32,
    pub pipe_vibration_hz: Binary32,
    pub fluid_pressure_bar: Binary32,
    pub ground_thermal_gradient: Binary32,
}

/// Confidence score attached to an ingested reading (0.0..=1.0).
#[derive(Clone, Copy, Debug, PartialEq)]
pub struct QualityScore(pub Binary32);

/// Outcome of validation at the ingestion boundary.
#[derive(Clone, Debug, PartialEq)]
pub enum ValidationStatus {
    Valid,
    Invalid(String),
}

/// An Ed25519 signature over the canonical bytes of a frame.
#[derive(Clone, Copy, Debug, PartialEq)]
pub struct Ed25519Signature(pub [u8; 64]);

/// A validated, quality-scored, cryptographically witnessed thermal reading.
#[derive(Clone, Debug, PartialEq)]
pub struct ThermalFrame {
    pub node_id: NodeId,
    pub timestamp_ns: u64,
    pub temperature_celsius: Binary32,
    pub pipe_vibration_hz: Binary32,
    pub fluid_pressure_bar: Binary32,
    pub ground_thermal_gradient: Binary32,
    pub quality_score: QualityScore,
    pub validation: ValidationStatus,
    pub witness: Ed25519Signature,
}

/// A window of readings handed to the forecaster.
#[derive(Clone, Debug, PartialEq)]
pub struct ReadingWindow {
    pub node_id: NodeId,
    pub from_ts: Timestamp,
    pub to_ts: Timestamp,
    pub frames: Vec<ThermalFrame>,
}

} // verus!
