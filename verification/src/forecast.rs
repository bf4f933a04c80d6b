//! Forecasting & anomaly value objects.

use vstd::prelude::*;

use crate::binary32::Binary32;

pub use crate::sensor::ReadingWindow;

verus! {

/// Profile for an ephemeral inference agent.
#[derive(Clone, Debug, PartialEq)]
pub struct AgentProfile {
    pub specialization: String,
    pub neural_model: String,
    pub analytical: Binary32,
    pub systematic: Binary32,
}

impl Default for AgentProfile {
    /// A thermal time-series LSTM profile, analytical `0.95`, systematic `0.9`.
    fn default() -> (r: AgentProfile)
        ensures
            r.specialization@ == "thermal_timeseries"@,
            r.neural_model@ == "lstm"@,
            r.analytical == Binary32(0x3F73_3333),
            r.systematic == Binary32(0x3F66_6666),
    {
        AgentProfile {
            specialization: String::from_str("thermal_timeseries"),
            neural_model: String::from_str("lstm"),
            analytical: Binary32(0x3F73_3333),
            systematic: Binary32(0x3F66_6666),
        }
    }
}

/// Raw inference output before it is mapped to typed forecasts/anomalies.
#[derive(Clone, Debug, PartialEq)]
pub struct Inference {
    pub scores: Vec<Binary32>,
}

/// A 24-hour, per-building thermal-demand forecast: hourly projected demand in kWh.
#[derive(Clone, Debug, PartialEq)]
pub struct DemandForecast {
    pub hourly_kwh: Vec<Binary32>,
}

/// Kinds of thermal anomaly.
#[derive(Clone, Copy, Debug, PartialEq, Eq, Structural)]
pub enum AnomalyKind {
    ThermalSpike,
    PressureDrop,
    VibrationPattern,
    BurstPrecursor,
}

/// A typed, confidence-scored anomaly.
#[derive(Clone, Copy, Debug, PartialEq)]
pub struct Anomaly {
    pub kind: AnomalyKind,
    pub confidence: Binary32,
}

/// A pipe-burst precursor warning with a horizon in hours.
#[derive(Clone, Copy, Debug, PartialEq)]
pub struct BurstWarning {
    pub horizon_hours: u32,
    pub score: Binary32,
}

} // verus!
