//! Thermal recovery planning value objects (advisory).
//!
//! These describe where heat is lost, where to place devices to harvest it, and the investment,
//! savings and carbon case for doing so. None of them carries a raw sensor field: only aggregated
//! loss and economics cross a boundary.

use vstd::prelude::*;

use crate::binary32::Binary32;
use crate::ids::{JunctionId, NodeId};

verus! {

/// Annual CO2e for one passenger car, kg/yr: `4600.0`.
pub const CAR_CO2E_KG_YR_BITS: u32 = 0x458F_C000;

/// Annual CO2e a mature tree sequesters, kg/yr: `21.0`.
pub const TREE_CO2E_KG_YR_BITS: u32 = 0x41A8_0000;

/// Annual heating energy for a typical home, kWh/yr: `12000.0`.
pub const HOME_HEATING_KWH_YR_BITS: u32 = 0x463B_8000;

/// Tunable estimator coefficients. Defaults are estimates to be calibrated per district.
#[derive(Clone, Copy, Debug, PartialEq)]
pub struct RecoveryParams {
    /// Fraction of observed loss that is actually harvestable (0..1).
    pub recoverable_fraction: Binary32,
    /// Energy price (EUR/kWh).
    pub price_per_kwh: Binary32,
    /// Regional grid/district-heat carbon intensity (kg CO2e/kWh).
    pub grid_emission_factor_kg_per_kwh: Binary32,
    /// A loss site at/above this annual loss warrants a dedicated recovery unit (kWh/yr).
    pub recovery_unit_min_loss_kwh_yr: Binary32,
    /// Below this confidence a site needs a seed sensor to confirm the loss (0..1).
    pub min_confidence_for_harvest: Binary32,
    /// Unit costs (EUR).
    pub seed_sensor_cost: Binary32,
    pub appliance_cost: Binary32,
    pub recovery_unit_cost: Binary32,
    pub install_cost_per_device: Binary32,
    /// Annual opex as a fraction of capex.
    pub opex_fraction_of_capex: Binary32,
}

/// The documented default coefficients: 0.65 recoverable, 0.12 EUR/kWh, 0.23 kg/kWh, 2000 kWh/yr
/// recovery-unit threshold, 0.5 harvest confidence, unit costs 180 / 2200 / 8500 EUR, 450 EUR
/// installation per device, opex 6 % of capex.
pub open spec fn documented_recovery_params() -> RecoveryParams {
    RecoveryParams {
        recoverable_fraction: Binary32(0x3F26_6666),
        price_per_kwh: Binary32(0x3DF5_C28F),
        grid_emission_factor_kg_per_kwh: Binary32(0x3E6B_851F),
        recovery_unit_min_loss_kwh_yr: Binary32(0x44FA_0000),
        min_confidence_for_harvest: Binary32(0x3F00_0000),
        seed_sensor_cost: Binary32(0x4334_0000),
        appliance_cost: Binary32(0x4509_8000),
        recovery_unit_cost: Binary32(0x4604_D000),
        install_cost_per_device: Binary32(0x43E1_0000),
        opex_fraction_of_capex: Binary32(0x3D75_C28F),
    }
}

/// The documented default coefficients (all estimates; calibrate per district).
pub fn default_recovery_params() -> (r: RecoveryParams)
    ensures
        r == documented_recovery_params(),
{
    RecoveryParams {
        recoverable_fraction: Binary32(0x3F26_6666),
        price_per_kwh: Binary32(0x3DF5_C28F),
        grid_emission_factor_kg_per_kwh: Binary32(0x3E6B_851F),
        recovery_unit_min_loss_kwh_yr: Binary32(0x44FA_0000),
        min_confidence_for_harvest: Binary32(0x3F00_0000),
        seed_sensor_cost: Binary32(0x4334_0000),
        appliance_cost: Binary32(0x4509_8000),
        recovery_unit_cost: Binary32(0x4604_D000),
        install_cost_per_device: Binary32(0x43E1_0000),
        opex_fraction_of_capex: Binary32(0x3D75_C28F),
    }
}

/// Why thermal energy is being lost at a site.
#[derive(Clone, Copy, Debug, PartialEq, Eq, Structural)]
pub enum LossCause {
    /// Degraded pipe insulation along a segment.
    PipeInsulation,
    /// Leakage at a junction.
    JunctionLeak,
    /// An unmetered / unobserved segment (coverage gap).
    UnmeteredSegment,
    /// Heat bleeding into the surrounding ground.
    GroundCoupling,
}

/// A localized thermal-loss site: the aggregate a node emits.
#[derive(Clone, Debug, PartialEq)]
pub struct ThermalLossSite {
    pub node_id: NodeId,
    pub junction: JunctionId,
    pub estimated_loss_kwh_yr: Binary32,
    /// 0..1: how sure we are this loss is real.
    pub confidence: Binary32,
    pub cause: LossCause,
}

/// A kind of device proposed for placement.
#[derive(Clone, Copy, Debug, PartialEq, Eq, Structural)]
pub enum DeviceKind {
    /// Thermal sensor: observes a coverage gap / low-confidence site.
    SeedSensor,
    /// Appliance: coordinates a building's coherence domain.
    Appliance,
    /// Heat-recovery unit: harvests a high-loss junction.
    RecoveryUnit,
}

/// A proposed device placement covering one or more loss sites.
#[derive(Clone, Debug, PartialEq)]
pub struct DevicePlacement {
    pub kind: DeviceKind,
    pub junction: JunctionId,
    /// Junctions whose loss this device observes/harvests.
    pub covers: Vec<JunctionId>,
    pub rationale: String,
}

/// The siting plan: which devices to place where.
#[derive(Clone, Debug, PartialEq)]
pub struct SitingPlan {
    pub placements: Vec<DevicePlacement>,
    /// Total annual loss addressed by a dedicated device.
    pub observed_loss_kwh_yr: Binary32,
    /// Fraction of district loss covered by a dedicated device (0..1).
    pub coverage_pct: Binary32,
}

/// Infrastructural investment estimate (EUR).
#[derive(Clone, Copy, Debug, PartialEq)]
pub struct InvestmentEstimate {
    pub capex: Binary32,
    pub opex_per_year: Binary32,
    pub payback_years: Binary32,
}

/// Energy-savings projection.
#[derive(Clone, Copy, Debug, PartialEq)]
pub struct SavingsProjection {
    pub recoverable_kwh_yr: Binary32,
    pub price_per_kwh: Binary32,
    pub energy_cost_savings_yr: Binary32,
}

/// Relatable carbon-reduction equivalents.
#[derive(Clone, Copy, Debug, PartialEq)]
pub struct CarbonEquivalents {
    pub cars_off_road: Binary32,
    pub trees_planted: Binary32,
    pub homes_powered: Binary32,
}

/// Carbon-reduction estimate.
#[derive(Clone, Copy, Debug, PartialEq)]
pub struct CarbonReduction {
    pub co2e_kg_yr: Binary32,
    pub grid_emission_factor_kg_per_kwh: Binary32,
    pub equivalents: CarbonEquivalents,
}

/// The full advisory report: the artifact operators act on.
#[derive(Clone, Debug, PartialEq)]
pub struct RecoveryReport {
    pub plan: SitingPlan,
    pub investment: InvestmentEstimate,
    pub savings: SavingsProjection,
    pub carbon: CarbonReduction,
    /// Human-readable assumptions behind the figures.
    pub assumptions: Vec<String>,
}

} // verus!
