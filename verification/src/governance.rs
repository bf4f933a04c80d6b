//! Governance rules: hard, non-overridable safety limits of the district.

use vstd::prelude::*;

use crate::binary32::Binary32;

verus! {

/// At most this much heat (kWh) may be transferred per day: `500.0`.
pub const MAX_DAILY_THERMAL_TRANSFER_KWH_BITS: u32 = 0x43FA_0000;

/// The safety reserve may never fall below this fraction: `0.15`.
pub const MIN_SAFETY_RESERVE_PERCENT_BITS: u32 = 0x3E19_999A;

/// Pipe pressure may never exceed this many bar: `6.0`.
pub const PIPE_PRESSURE_CEILING_BAR_BITS: u32 = 0x40C0_0000;

/// A trade window may never exceed this many hours.
pub const TRADE_WINDOW_HOURS: u32 = 6;

/// The four hard limits. These are constants, not configuration: physical-safety bounds an
/// autonomous broker may never exceed.
#[derive(Clone, Copy, Debug, PartialEq)]
pub struct GovernanceRules {
    pub max_daily_thermal_transfer_kwh: Binary32,
    pub min_safety_reserve_percent: Binary32,
    pub pipe_pressure_ceiling_bar: Binary32,
    pub trade_window_hours: u32,
}

/// The canonical district governance limits.
pub open spec fn district_governance() -> GovernanceRules {
    GovernanceRules {
        max_daily_thermal_transfer_kwh: Binary32(MAX_DAILY_THERMAL_TRANSFER_KWH_BITS),
        min_safety_reserve_percent: Binary32(MIN_SAFETY_RESERVE_PERCENT_BITS),
        pipe_pressure_ceiling_bar: Binary32(PIPE_PRESSURE_CEILING_BAR_BITS),
        trade_window_hours: TRADE_WINDOW_HOURS,
    }
}

/// The canonical district governance limits (500 kWh/day, 15 % reserve, 6 bar, 6 h).
pub fn governance() -> (r: GovernanceRules)
    ensures
        r == district_governance(),
{
    GovernanceRules {
        max_daily_thermal_transfer_kwh: Binary32(MAX_DAILY_THERMAL_TRANSFER_KWH_BITS),
        min_safety_reserve_percent: Binary32(MIN_SAFETY_RESERVE_PERCENT_BITS),
        pipe_pressure_ceiling_bar: Binary32(PIPE_PRESSURE_CEILING_BAR_BITS),
        trade_window_hours: TRADE_WINDOW_HOURS,
    }
}

/// Identifies which governance rule a verdict refers to.
#[derive(Clone, Copy, Debug, PartialEq, Eq, Structural)]
pub enum RuleId {
    MaxDailyThermalTransferKwh,
    MinSafetyReservePercent,
    PipePressureCeilingBar,
    TradeWindowHours,
}

/// The result of checking a proposed trade against governance.
#[derive(Clone, Copy, Debug, PartialEq, Eq, Structural)]
pub enum RuleVerdict {
    Allow,
    Violation(RuleId),
}

} // verus!
