//! The governance gate: hard, non-overridable limits checked before any trade executes.
//!
//! Limits: at most 500 kWh/day, at least a 15 % safety reserve, at most 6 bar pipe pressure, at
//! most a 6 h trade window. An engine built with [`DaaRulesAdapter::unavailable`] fails closed: it
//! denies every trade.

use vstd::prelude::*;

use crate::binary32::{below, Binary32};
use crate::governance::{
    RuleId, RuleVerdict, MAX_DAILY_THERMAL_TRANSFER_KWH_BITS, MIN_SAFETY_RESERVE_PERCENT_BITS,
    PIPE_PRESSURE_CEILING_BAR_BITS, TRADE_WINDOW_HOURS,
};
use crate::market::ProposedTrade;

verus! {

/// The reference governance engine. It carries the node's operating envelope (reserve, pressure),
/// since those are node state, not part of a `ProposedTrade`.
pub struct DaaRulesAdapter {
    reserve_pct: Binary32,
    pipe_pressure_bar: Binary32,
    available: bool,
}

/// The verdict of an engine with envelope (`reserve_pct`, `pipe_pressure_bar`) and availability
/// `available` on `trade`: the first rule broken, in the order daily transfer, reserve, pressure,
/// window; an unavailable engine denies everything (as a daily-transfer violation).
pub open spec fn governance_verdict(
    available: bool,
    reserve_pct: Binary32,
    pipe_pressure_bar: Binary32,
    trade: ProposedTrade,
) -> RuleVerdict {
    if !available {
        RuleVerdict::Violation(RuleId::MaxDailyThermalTransferKwh)
    } else if below(Binary32(MAX_DAILY_THERMAL_TRANSFER_KWH_BITS), trade.kwh.0) {
        RuleVerdict::Violation(RuleId::MaxDailyThermalTransferKwh)
    } else if below(reserve_pct, Binary32(MIN_SAFETY_RESERVE_PERCENT_BITS)) {
        RuleVerdict::Violation(RuleId::MinSafetyReservePercent)
    } else if below(Binary32(PIPE_PRESSURE_CEILING_BAR_BITS), pipe_pressure_bar) {
        RuleVerdict::Violation(RuleId::PipePressureCeilingBar)
    } else if trade.window@ > TRADE_WINDOW_HOURS {
        RuleVerdict::Violation(RuleId::TradeWindowHours)
    } else {
        RuleVerdict::Allow
    }
}

impl DaaRulesAdapter {
    /// The engine can evaluate trades.
    pub closed spec fn is_available(&self) -> bool {
        self.available
    }

    /// The node's current safety reserve fraction.
    pub closed spec fn reserve(&self) -> Binary32 {
        self.reserve_pct
    }

    /// The node's current pipe pressure (bar).
    pub closed spec fn pressure(&self) -> Binary32 {
        self.pipe_pressure_bar
    }

    /// The engine's verdict on `trade`.
    pub open spec fn verdict(&self, trade: ProposedTrade) -> RuleVerdict {
        governance_verdict(self.is_available(), self.reserve(), self.pressure(), trade)
    }

    /// The engine fails closed (denies everything).
    pub open spec fn is_unavailable(&self) -> bool {
        !self.is_available()
    }

    /// A healthy engine at the safe envelope (reserve at the floor, pressure at the ceiling).
    pub fn new() -> (r: DaaRulesAdapter)
        ensures
            r.is_available(),
            r.reserve() == Binary32(MIN_SAFETY_RESERVE_PERCENT_BITS),
            r.pressure() == Binary32(PIPE_PRESSURE_CEILING_BAR_BITS),
    {
        DaaRulesAdapter {
            reserve_pct: Binary32(MIN_SAFETY_RESERVE_PERCENT_BITS),
            pipe_pressure_bar: Binary32(PIPE_PRESSURE_CEILING_BAR_BITS),
            available: true,
        }
    }

    /// A healthy engine with a specific node envelope.
    pub fn with_node_state(reserve_pct: Binary32, pipe_pressure_bar: Binary32) -> (r:
        DaaRulesAdapter)
        ensures
            r.is_available(),
            r.reserve() == reserve_pct,
            r.pressure() == pipe_pressure_bar,
    {
        DaaRulesAdapter { reserve_pct, pipe_pressure_bar, available: true }
    }

    /// An unavailable engine: fails closed, every check is a `Violation`.
    pub fn unavailable() -> (r: DaaRulesAdapter)
        ensures
            !r.is_available(),
            r.reserve() == Binary32(MIN_SAFETY_RESERVE_PERCENT_BITS),
            r.pressure() == Binary32(PIPE_PRESSURE_CEILING_BAR_BITS),
    {
        DaaRulesAdapter {
            reserve_pct: Binary32(MIN_SAFETY_RESERVE_PERCENT_BITS),
            pipe_pressure_bar: Binary32(PIPE_PRESSURE_CEILING_BAR_BITS),
            available: false,
        }
    }

    /// Check a proposed trade against the governance limits.
    pub fn check(&self, trade: &ProposedTrade) -> (r: RuleVerdict)
        ensures
            r == self.verdict(*trade),
            r == RuleVerdict::Allow <==> self.is_available() && !below(
                Binary32(MAX_DAILY_THERMAL_TRANSFER_KWH_BITS),
                trade.kwh.0,
            ) && !below(self.reserve(), Binary32(MIN_SAFETY_RESERVE_PERCENT_BITS)) && !below(
                Binary32(PIPE_PRESSURE_CEILING_BAR_BITS),
                self.pressure(),
            ) && trade.window@ <= TRADE_WINDOW_HOURS,
            r == RuleVerdict::Violation(RuleId::MaxDailyThermalTransferKwh) ==> !self.is_available()
                || below(Binary32(MAX_DAILY_THERMAL_TRANSFER_KWH_BITS), trade.kwh.0),
            r == RuleVerdict::Violation(RuleId::MinSafetyReservePercent) ==> below(
                self.reserve(),
                Binary32(MIN_SAFETY_RESERVE_PERCENT_BITS),
            ),
            r == RuleVerdict::Violation(RuleId::PipePressureCeilingBar) ==> below(
                Binary32(PIPE_PRESSURE_CEILING_BAR_BITS),
                self.pressure(),
            ),
            r == RuleVerdict::Violation(RuleId::TradeWindowHours) ==> trade.window@
                > TRADE_WINDOW_HOURS,
    {
        if !self.available {
            return RuleVerdict::Violation(RuleId::MaxDailyThermalTransferKwh);
        }
        if trade.kwh.0.gt(Binary32(MAX_DAILY_THERMAL_TRANSFER_KWH_BITS)) {
            return RuleVerdict::Violation(RuleId::MaxDailyThermalTransferKwh);
        }
        if self.reserve_pct.lt(Binary32(MIN_SAFETY_RESERVE_PERCENT_BITS)) {
            return RuleVerdict::Violation(RuleId::MinSafetyReservePercent);
        }
        if self.pipe_pressure_bar.gt(Binary32(PIPE_PRESSURE_CEILING_BAR_BITS)) {
            return RuleVerdict::Violation(RuleId::PipePressureCeilingBar);
        }
        if trade.window.hours() > TRADE_WINDOW_HOURS {
            return RuleVerdict::Violation(RuleId::TradeWindowHours);
        }
        RuleVerdict::Allow
    }
}

impl Default for DaaRulesAdapter {
    fn default() -> (r: DaaRulesAdapter)
        ensures
            r.is_available(),
            r.reserve() == Binary32(MIN_SAFETY_RESERVE_PERCENT_BITS),
            r.pressure() == Binary32(PIPE_PRESSURE_CEILING_BAR_BITS),
    {
        DaaRulesAdapter::new()
    }
}

/// Fail-closed: an unavailable engine refuses every proposed trade.
pub proof fn law_unavailable_engine_denies_everything(engine: DaaRulesAdapter, trade: ProposedTrade)
    requires
        engine.is_unavailable(),
    ensures
        engine.verdict(trade) is Violation,
{
}

/// An allowed trade respects every limit: it transfers no more than 500 kWh, the reserve is at
/// least 15 %, the pressure at most 6 bar, and the window at most 6 hours.
pub proof fn law_allowed_trade_within_limits(engine: DaaRulesAdapter, trade: ProposedTrade)
    requires
        engine.verdict(trade) == RuleVerdict::Allow,
    ensures
        !engine.is_unavailable(),
        !below(Binary32(MAX_DAILY_THERMAL_TRANSFER_KWH_BITS), trade.kwh.0),
        !below(engine.reserve(), Binary32(MIN_SAFETY_RESERVE_PERCENT_BITS)),
        !below(Binary32(PIPE_PRESSURE_CEILING_BAR_BITS), engine.pressure()),
        trade.window@ <= TRADE_WINDOW_HOURS,
{
}

/// Law: an available engine allows every trade that respects all the limits: at most 500 kWh,
/// a reserve of at least 15 percent, a pressure of at most 6 bar, a window of at most 6 hours. Each
/// violation it reports names a limit that the trade or the node really breaks, or the engine is
/// unavailable.
pub proof fn law_gate_allows_exactly_the_trades_within_limits(
    engine: DaaRulesAdapter,
    trade: ProposedTrade,
)
    ensures
        engine.is_available() && !below(Binary32(MAX_DAILY_THERMAL_TRANSFER_KWH_BITS), trade.kwh.0)
            && !below(engine.reserve(), Binary32(MIN_SAFETY_RESERVE_PERCENT_BITS)) && !below(
            Binary32(PIPE_PRESSURE_CEILING_BAR_BITS),
            engine.pressure(),
        ) && trade.window@ <= TRADE_WINDOW_HOURS ==> engine.verdict(trade) == RuleVerdict::Allow,
        engine.verdict(trade) == RuleVerdict::Violation(RuleId::MaxDailyThermalTransferKwh) ==> (
        !engine.is_available() || below(Binary32(MAX_DAILY_THERMAL_TRANSFER_KWH_BITS), trade.kwh.0)),
        engine.verdict(trade) == RuleVerdict::Violation(RuleId::MinSafetyReservePercent) ==> below(
            engine.reserve(),
            Binary32(MIN_SAFETY_RESERVE_PERCENT_BITS),
        ),
        engine.verdict(trade) == RuleVerdict::Violation(RuleId::PipePressureCeilingBar) ==> below(
            Binary32(PIPE_PRESSURE_CEILING_BAR_BITS),
            engine.pressure(),
        ),
        engine.verdict(trade) == RuleVerdict::Violation(RuleId::TradeWindowHours) ==> trade.window@
            > TRADE_WINDOW_HOURS,
{
}

} // verus!
