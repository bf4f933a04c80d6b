//! Thermal market value objects (the core domain).

use vstd::prelude::*;

use crate::binary32::Binary32;
use crate::error::DomainError;
use crate::governance::TRADE_WINDOW_HOURS;
use crate::ids::{JunctionId, NodeId, Timestamp};
use crate::text::{decimal, decimal_text};

verus! {

/// Kilowatt-hours of thermal energy.
#[derive(Clone, Copy, Debug, PartialEq)]
pub struct Kwh(pub Binary32);

/// A price in thermal credits per kWh.
#[derive(Clone, Copy, Debug, PartialEq)]
pub struct Price {
    pub credit_per_kwh: Binary32,
}

/// A trade duration in hours: always within `1 ..= TRADE_WINDOW_HOURS` (the governance ceiling).
#[derive(Clone, Copy, Debug, PartialEq)]
pub struct TradeWindow {
    hours: u32,
}

impl View for TradeWindow {
    type V = u32;

    closed spec fn view(&self) -> u32 {
        self.hours
    }
}

/// The text of the error for a window outside `(0, ceiling]`.
pub open spec fn window_error_message(hours: u32) -> Seq<char> {
    "trade window "@ + decimal(hours as nat) + "h outside (0, "@ + decimal(
        TRADE_WINDOW_HOURS as nat,
    ) + "h]"@
}

impl TradeWindow {
    #[verifier::type_invariant]
    spec fn within_ceiling(self) -> bool {
        1 <= self.hours <= TRADE_WINDOW_HOURS
    }

    /// A window of `hours`, refused unless `0 < hours <= TRADE_WINDOW_HOURS`.
    pub fn new(hours: u32) -> (r: Result<TradeWindow, DomainError>)
        ensures
            r is Ok <==> 1 <= hours <= TRADE_WINDOW_HOURS,
            r matches Ok(w) ==> w@ == hours,
            r matches Err(e) ==> e matches DomainError::Governance(m) && m@
                == window_error_message(hours),
    {
        if hours == 0 || hours > TRADE_WINDOW_HOURS {
            let mut m = String::from_str("trade window ");
            m.append(decimal_text(hours as u64).as_str());
            m.append("h outside (0, ");
            m.append(decimal_text(TRADE_WINDOW_HOURS as u64).as_str());
            m.append("h]");
            return Err(DomainError::Governance(m));
        }
        Ok(TradeWindow { hours })
    }

    /// The window length in hours.
    pub fn hours(&self) -> (r: u32)
        ensures
            r == self@,
            1 <= r <= TRADE_WINDOW_HOURS,
    {
        proof {
            use_type_invariant(self);
        }
        self.hours
    }
}

/// Aggregated surplus/deficit for a building: the only thermal quantity published to the market.
#[derive(Clone, Debug, PartialEq)]
pub struct ThermalBalance {
    pub node_id: NodeId,
    pub surplus_kwh: Binary32,
    pub deficit_kwh: Binary32,
    pub window: TradeWindow,
}

/// Intent to sell heat.
#[derive(Clone, Debug, PartialEq)]
pub struct Offer {
    pub seller: NodeId,
    pub kwh: Kwh,
    pub price: Price,
    pub window: TradeWindow,
}

/// Intent to buy heat.
#[derive(Clone, Debug, PartialEq)]
pub struct Bid {
    pub buyer: NodeId,
    pub kwh: Kwh,
    pub max_price: Price,
    pub window: TradeWindow,
}

/// The reasoning output of the trading loop.
#[derive(Clone, Debug, PartialEq)]
pub enum Decision {
    Offer(Offer),
    Bid(Bid),
    Hold,
}

/// A candidate trade awaiting governance and consensus.
#[derive(Clone, Debug, PartialEq)]
pub struct ProposedTrade {
    pub seller: NodeId,
    pub buyer: NodeId,
    pub kwh: Kwh,
    pub price: Price,
    pub window: TradeWindow,
    pub pipe_route: Vec<JunctionId>,
}

/// A trade a counterparty has accepted, ready for consensus then execution/routing.
#[derive(Clone, Debug, PartialEq)]
pub struct AcceptedTrade {
    pub proposed: ProposedTrade,
    pub accepted_at: Timestamp,
    pub pipe_route: Vec<JunctionId>,
}

/// A trade that has been executed and routed.
#[derive(Clone, Debug, PartialEq)]
pub struct ExecutedTrade {
    pub accepted: AcceptedTrade,
    pub executed_at: Timestamp,
}

/// Observed outcome of a completed trade (input to Reflect).
#[derive(Clone, Debug, PartialEq)]
pub struct TradeOutcome {
    pub executed: ExecutedTrade,
    pub delivered_kwh: Binary32,
    pub expected_kwh: Binary32,
}

/// Reflection produced by evaluating a `TradeOutcome`.
#[derive(Clone, Debug, PartialEq)]
pub struct Reflection {
    pub value_ratio: Binary32,
    pub note: String,
}

/// A strategy adaptation produced from a `Reflection`.
#[derive(Clone, Copy, Debug, PartialEq)]
pub struct Adaptation {
    pub offer_threshold_delta: Binary32,
    pub bid_threshold_delta: Binary32,
}

/// The mutable pricing/decision strategy of a trading node.
#[derive(Clone, Copy, Debug, PartialEq)]
pub struct Strategy {
    pub offer_threshold_kwh: Binary32,
    pub bid_threshold_kwh: Binary32,
    pub reserve_pct: Binary32,
    pub base_credit_per_kwh: Binary32,
    pub window_hours: u32,
}

} // verus!
