//! One trading tick: Monitor, Reason, Act, Reflect, Adapt, with a strict ordering.
//!
//! ```text
//! monitor -> reason -> rules.check -> [act] -> consensus.finalize -> execute -> route
//!         -> witness x3 -> account -> reflect -> adapt
//! ```
//!
//! The tick is a state machine: [`start`] gives the first action, and [`step`] takes the current
//! state and what the last action produced (an event) to the next state and action. A runner
//! performs each action against the market, the rules engine, the consensus gateway, the witness
//! chain and the ledger, and feeds back the result. The machine guarantees:
//!
//! * governance before execute, fail-closed: nothing is posted, finalized, executed or routed
//!   unless the rules engine answered `Allow`; a violation is witnessed and ends the tick;
//! * consensus before execution and routing;
//! * an executed trade is witnessed exactly three times (signed, executed, routed), accounted
//!   once, reflected on and adapted to.

use vstd::prelude::*;

use crate::broker::decide::{agreement_of, proposal_of, to_agreement, to_proposed};
use crate::consensus::{Finality, ThermalTradeAgreement};
use crate::error::DomainError;
use crate::forecast::DemandForecast;
use crate::governance::{RuleId, RuleVerdict};
use crate::ids::Timestamp;
use crate::market::{
    AcceptedTrade, Decision, ExecutedTrade, ProposedTrade, Reflection, ThermalBalance,
    TradeOutcome,
};
use crate::sensor::ReadingWindow;
use crate::witness::{PrivilegedAction, WitnessRecord};

verus! {

/// An asynchronous lock (`tokio::sync::Mutex`). Opaque here: the library only holds it.
#[verifier::external_type_specification]
#[verifier::external_body]
#[verifier::reject_recursive_types(T)]
pub struct ExAsyncLock<T: ?Sized>(tokio::sync::Mutex<T>);

/// A fresh, unlocked `tokio::sync::Mutex<()>` (`tokio::sync::Mutex::new`). Nothing is claimed of
/// it.
#[verifier::external_body]
fn new_tick_lock() -> (r: tokio::sync::Mutex<()>) {
    tokio::sync::Mutex::new(())
}

/// The autonomous market participant of one building: the ports a tick runs over, and the tick
/// lock that keeps at most one tick in flight per node, so the tick's ordering is never
/// interleaved across ticks.
pub struct BrokerAgent<SM, FC, RE, MG, TE, ST, EL, WC, CG> {
    seed_mesh: SM,
    forecast: FC,
    rules: RE,
    market: MG,
    evaluator: TE,
    strategy: ST,
    ledger: EL,
    witness: WC,
    consensus: CG,
    tick_lock: tokio::sync::Mutex<()>,
}

impl<SM, FC, RE, MG, TE, ST, EL, WC, CG> BrokerAgent<SM, FC, RE, MG, TE, ST, EL, WC, CG> {
    /// The sensor-mesh monitor.
    pub closed spec fn seed_mesh_spec(&self) -> SM {
        self.seed_mesh
    }

    /// The demand forecaster.
    pub closed spec fn forecast_spec(&self) -> FC {
        self.forecast
    }

    /// The rules engine.
    pub closed spec fn rules_spec(&self) -> RE {
        self.rules
    }

    /// The market gateway.
    pub closed spec fn market_spec(&self) -> MG {
        self.market
    }

    /// The trade evaluator.
    pub closed spec fn evaluator_spec(&self) -> TE {
        self.evaluator
    }

    /// The strategy store.
    pub closed spec fn strategy_spec(&self) -> ST {
        self.strategy
    }

    /// The credit ledger.
    pub closed spec fn ledger_spec(&self) -> EL {
        self.ledger
    }

    /// The witness chain.
    pub closed spec fn witness_spec(&self) -> WC {
        self.witness
    }

    /// The consensus gateway.
    pub closed spec fn consensus_spec(&self) -> CG {
        self.consensus
    }

    /// The tick lock.
    pub closed spec fn tick_lock_spec(&self) -> tokio::sync::Mutex<()> {
        self.tick_lock
    }

    /// An agent over its ports, with a fresh tick lock.
    #[allow(clippy::too_many_arguments)]
    pub fn new(
        seed_mesh: SM,
        forecast: FC,
        rules: RE,
        market: MG,
        evaluator: TE,
        strategy: ST,
        ledger: EL,
        witness: WC,
        consensus: CG,
    ) -> (r: Self)
        ensures
            r.seed_mesh_spec() == seed_mesh,
            r.forecast_spec() == forecast,
            r.rules_spec() == rules,
            r.market_spec() == market,
            r.evaluator_spec() == evaluator,
            r.strategy_spec() == strategy,
            r.ledger_spec() == ledger,
            r.witness_spec() == witness,
            r.consensus_spec() == consensus,
    {
        BrokerAgent {
            seed_mesh,
            forecast,
            rules,
            market,
            evaluator,
            strategy,
            ledger,
            witness,
            consensus,
            tick_lock: new_tick_lock(),
        }
    }

    /// The sensor-mesh monitor.
    pub fn seed_mesh(&self) -> (r: &SM)
        ensures
            *r == self.seed_mesh_spec(),
    {
        &self.seed_mesh
    }

    /// The demand forecaster.
    pub fn forecast(&self) -> (r: &FC)
        ensures
            *r == self.forecast_spec(),
    {
        &self.forecast
    }

    /// The rules engine.
    pub fn rules(&self) -> (r: &RE)
        ensures
            *r == self.rules_spec(),
    {
        &self.rules
    }

    /// The market gateway.
    pub fn market(&self) -> (r: &MG)
        ensures
            *r == self.market_spec(),
    {
        &self.market
    }

    /// The trade evaluator.
    pub fn evaluator(&self) -> (r: &TE)
        ensures
            *r == self.evaluator_spec(),
    {
        &self.evaluator
    }

    /// The strategy store.
    pub fn strategy(&self) -> (r: &ST)
        ensures
            *r == self.strategy_spec(),
    {
        &self.strategy
    }

    /// The credit ledger.
    pub fn ledger(&self) -> (r: &EL)
        ensures
            *r == self.ledger_spec(),
    {
        &self.ledger
    }

    /// The witness chain.
    pub fn witness(&self) -> (r: &WC)
        ensures
            *r == self.witness_spec(),
    {
        &self.witness
    }

    /// The consensus gateway.
    pub fn consensus(&self) -> (r: &CG)
        ensures
            *r == self.consensus_spec(),
    {
        &self.consensus
    }

    /// The tick lock: a tick holds it for its whole duration.
    pub fn tick_lock(&self) -> (r: &tokio::sync::Mutex<()>)
        ensures
            *r == self.tick_lock_spec(),
    {
        &self.tick_lock
    }
}

/// Nanoseconds per hour.
pub const HOUR_NS: u64 = 3_600_000_000_000;

/// The outcome of one tick.
#[derive(Clone, Debug, PartialEq)]
pub enum TickReport {
    /// The decision was `Hold`: nothing posted.
    Idle,
    /// An offer/bid was posted but no counterparty accepted this tick.
    Posted,
    /// Governance rejected the trade (or the rules engine failed closed). Witnessed; no execution.
    Rejected(RuleId),
    /// A trade was finalized, executed, routed, accounted, and reflected on.
    Executed { reflection: Reflection },
}

/// Where a tick stands: which answer it waits for, and what it holds meanwhile.
pub enum TickState {
    /// Waiting for the building's surplus/deficit.
    Monitoring,
    /// Waiting for the 24 h demand forecast.
    Forecasting { balance: ThermalBalance },
    /// Waiting for the reasoning kernel's decision.
    Reasoning,
    /// Waiting for the rules engine's verdict on the proposal of `decision`.
    Governing { decision: Decision },
    /// Waiting for the witness of the rejection of `rule`.
    Rejecting { rule: RuleId },
    /// Waiting for the market to take the posted offer/bid.
    Posting { decision: Decision },
    /// Waiting to learn whether a counterparty accepted.
    Awaiting { decision: Decision },
    /// Waiting for consensus finality of the accepted trade.
    Finalizing { accepted: AcceptedTrade },
    /// Waiting for the witness of the signed trade.
    WitnessingSigned { accepted: AcceptedTrade },
    /// Waiting for the market to execute the trade.
    Executing { accepted: AcceptedTrade },
    /// Waiting for the witness of the execution.
    WitnessingExec { accepted: AcceptedTrade },
    /// Waiting for the market to route the trade along its pipe route.
    Routing { accepted: AcceptedTrade },
    /// Waiting for the witness of the routing.
    WitnessingRouting { accepted: AcceptedTrade },
    /// Waiting for the ledger to account the executed trade.
    Accounting { executed: ExecutedTrade },
    /// Waiting for the evaluator's reflection on the outcome.
    Reflecting { outcome: TradeOutcome },
    /// Waiting for the strategy to adapt to the reflection.
    Adapting { reflection: Reflection },
    /// The tick is over; every further event is ignored.
    Done,
}

/// What the last action produced.
pub enum TickEvent {
    /// The building's surplus/deficit.
    Balance(ThermalBalance),
    /// The 24 h demand forecast.
    Forecast(DemandForecast),
    /// The reasoning kernel's decision.
    Decided(Decision),
    /// The rules engine's verdict.
    Verdict(RuleVerdict),
    /// The witness chain recorded the action.
    Witnessed(WitnessRecord),
    /// The market took the posted offer/bid.
    Posted,
    /// A counterparty's acceptance, if any.
    Acceptance(Option<AcceptedTrade>),
    /// Consensus finality.
    Finalized(Finality),
    /// The market executed the trade.
    Executed,
    /// The market routed the trade.
    Routed,
    /// The ledger accounted the trade.
    Debited,
    /// The evaluator's reflection on the outcome.
    Reflected(Reflection),
    /// The strategy adapted.
    Adapted,
    /// The last action failed; the tick ends with this error.
    Failed(DomainError),
}

/// What the runner must do next.
pub enum TickAction {
    /// Read the building's surplus/deficit.
    ReadBalance,
    /// Forecast 24 h demand over this window.
    ForecastDemand(ReadingWindow),
    /// Load the strategy and run the reasoning kernel on this balance and forecast.
    Reason(ThermalBalance, DemandForecast),
    /// Ask the rules engine for its verdict on this proposal.
    CheckRules(ProposedTrade),
    /// Emit this privileged action to the witness chain.
    Witness(PrivilegedAction),
    /// Post the offer/bid of the decision the state holds.
    Post,
    /// Await a counterparty for the decision the state holds.
    AwaitAcceptance,
    /// Finalize this agreement through consensus.
    Finalize(ThermalTradeAgreement),
    /// Execute the accepted trade the state holds.
    Execute,
    /// Route the accepted trade the state holds along its pipe route.
    Route,
    /// Debit/credit the executed trade the state holds.
    DebitCredit,
    /// Evaluate the outcome the state holds.
    Evaluate,
    /// Adapt the strategy to the reflection the state holds.
    Adapt,
    /// The tick ends with this result.
    Finish(Result<TickReport, DomainError>),
    /// The event did not fit the state: nothing to do.
    Ignore,
}

/// The kind of an action, with witnesses told apart by what they witness and finishes by how
/// the tick ended.
#[derive(Clone, Copy, Debug, PartialEq, Eq, Structural)]
pub enum ActionKind {
    ReadBalance,
    ForecastDemand,
    Reason,
    CheckRules,
    WitnessRejection,
    WitnessSigned,
    WitnessExec,
    WitnessRouting,
    WitnessOther,
    Post,
    AwaitAcceptance,
    Finalize,
    Execute,
    Route,
    DebitCredit,
    Evaluate,
    Adapt,
    FinishIdle,
    FinishPosted,
    FinishRejected,
    FinishExecuted,
    FinishFailed,
    Ignore,
}

/// The kind of an action.
pub open spec fn kind_of(a: TickAction) -> ActionKind {
    match a {
        TickAction::ReadBalance => ActionKind::ReadBalance,
        TickAction::ForecastDemand(_) => ActionKind::ForecastDemand,
        TickAction::Reason(_, _) => ActionKind::Reason,
        TickAction::CheckRules(_) => ActionKind::CheckRules,
        TickAction::Witness(w) => match w {
            PrivilegedAction::RuleRejection { .. } => ActionKind::WitnessRejection,
            PrivilegedAction::TradeSigned => ActionKind::WitnessSigned,
            PrivilegedAction::Exec => ActionKind::WitnessExec,
            PrivilegedAction::Routing => ActionKind::WitnessRouting,
            _ => ActionKind::WitnessOther,
        },
        TickAction::Post => ActionKind::Post,
        TickAction::AwaitAcceptance => ActionKind::AwaitAcceptance,
        TickAction::Finalize(_) => ActionKind::Finalize,
        TickAction::Execute => ActionKind::Execute,
        TickAction::Route => ActionKind::Route,
        TickAction::DebitCredit => ActionKind::DebitCredit,
        TickAction::Evaluate => ActionKind::Evaluate,
        TickAction::Adapt => ActionKind::Adapt,
        TickAction::Finish(r) => match r {
            Ok(TickReport::Idle) => ActionKind::FinishIdle,
            Ok(TickReport::Posted) => ActionKind::FinishPosted,
            Ok(TickReport::Rejected(_)) => ActionKind::FinishRejected,
            Ok(TickReport::Executed { .. }) => ActionKind::FinishExecuted,
            Err(_) => ActionKind::FinishFailed,
        },
        TickAction::Ignore => ActionKind::Ignore,
    }
}

/// Actions that act on the market, the consensus, the ledger or the strategy, or witness a
/// trade step: all of them belong to an allowed trade.
pub open spec fn is_effect(k: ActionKind) -> bool {
    ||| k == ActionKind::Post
    ||| k == ActionKind::AwaitAcceptance
    ||| k == ActionKind::Finalize
    ||| k == ActionKind::WitnessSigned
    ||| k == ActionKind::Execute
    ||| k == ActionKind::WitnessExec
    ||| k == ActionKind::Route
    ||| k == ActionKind::WitnessRouting
    ||| k == ActionKind::DebitCredit
    ||| k == ActionKind::Evaluate
    ||| k == ActionKind::Adapt
    ||| k == ActionKind::FinishPosted
    ||| k == ActionKind::FinishExecuted
}

/// The executed trade of an accepted one: executed at the acceptance instant.
pub open spec fn executed_of(accepted: AcceptedTrade) -> ExecutedTrade {
    ExecutedTrade { accepted: accepted, executed_at: accepted.accepted_at }
}

/// The outcome reflected on: the proposed kWh both delivered and expected.
pub open spec fn outcome_of(executed: ExecutedTrade) -> TradeOutcome {
    TradeOutcome {
        executed: executed,
        delivered_kwh: executed.accepted.proposed.kwh.0,
        expected_kwh: executed.accepted.proposed.kwh.0,
    }
}

/// The state after `event` in `state`. Mismatched events leave the state as it is; a failure
/// ends any tick that is not over.
pub open spec fn next_state(state: TickState, event: TickEvent) -> TickState {
    match state {
        TickState::Done => TickState::Done,
        _ => match event {
            TickEvent::Failed(_) => TickState::Done,
            _ => match (state, event) {
                (TickState::Monitoring, TickEvent::Balance(b)) => TickState::Forecasting {
                    balance: b,
                },
                (TickState::Forecasting { .. }, TickEvent::Forecast(_)) => TickState::Reasoning,
                (TickState::Reasoning, TickEvent::Decided(d)) => match d {
                    Decision::Hold => TickState::Done,
                    _ => TickState::Governing { decision: d },
                },
                (TickState::Governing { decision }, TickEvent::Verdict(v)) => match v {
                    RuleVerdict::Allow => TickState::Posting { decision },
                    RuleVerdict::Violation(rule) => TickState::Rejecting { rule },
                },
                (TickState::Rejecting { .. }, TickEvent::Witnessed(_)) => TickState::Done,
                (TickState::Posting { decision }, TickEvent::Posted) => TickState::Awaiting {
                    decision,
                },
                (TickState::Awaiting { .. }, TickEvent::Acceptance(a)) => match a {
                    None => TickState::Done,
                    Some(accepted) => TickState::Finalizing { accepted },
                },
                (TickState::Finalizing { accepted }, TickEvent::Finalized(_)) => {
                    TickState::WitnessingSigned { accepted }
                },
                (TickState::WitnessingSigned { accepted }, TickEvent::Witnessed(_)) => {
                    TickState::Executing { accepted }
                },
                (TickState::Executing { accepted }, TickEvent::Executed) => {
                    TickState::WitnessingExec { accepted }
                },
                (TickState::WitnessingExec { accepted }, TickEvent::Witnessed(_)) => {
                    TickState::Routing { accepted }
                },
                (TickState::Routing { accepted }, TickEvent::Routed) => {
                    TickState::WitnessingRouting { accepted }
                },
                (TickState::WitnessingRouting { accepted }, TickEvent::Witnessed(_)) => {
                    TickState::Accounting { executed: executed_of(accepted) }
                },
                (TickState::Accounting { executed }, TickEvent::Debited) => {
                    TickState::Reflecting { outcome: outcome_of(executed) }
                },
                (TickState::Reflecting { .. }, TickEvent::Reflected(r)) => TickState::Adapting {
                    reflection: r,
                },
                (TickState::Adapting { .. }, TickEvent::Adapted) => TickState::Done,
                _ => state,
            },
        },
    }
}

/// The kind of the action taken on `event` in `state`.
pub open spec fn next_kind(state: TickState, event: TickEvent) -> ActionKind {
    match state {
        TickState::Done => ActionKind::Ignore,
        _ => match event {
            TickEvent::Failed(_) => ActionKind::FinishFailed,
            _ => match (state, event) {
                (TickState::Monitoring, TickEvent::Balance(_)) => ActionKind::ForecastDemand,
                (TickState::Forecasting { .. }, TickEvent::Forecast(_)) => ActionKind::Reason,
                (TickState::Reasoning, TickEvent::Decided(d)) => match d {
                    Decision::Hold => ActionKind::FinishIdle,
                    _ => ActionKind::CheckRules,
                },
                (TickState::Governing { .. }, TickEvent::Verdict(v)) => match v {
                    RuleVerdict::Allow => ActionKind::Post,
                    RuleVerdict::Violation(_) => ActionKind::WitnessRejection,
                },
                (TickState::Rejecting { .. }, TickEvent::Witnessed(_)) => {
                    ActionKind::FinishRejected
                },
                (TickState::Posting { .. }, TickEvent::Posted) => ActionKind::AwaitAcceptance,
                (TickState::Awaiting { .. }, TickEvent::Acceptance(a)) => match a {
                    None => ActionKind::FinishPosted,
                    Some(_) => ActionKind::Finalize,
                },
                (TickState::Finalizing { .. }, TickEvent::Finalized(_)) => {
                    ActionKind::WitnessSigned
                },
                (TickState::WitnessingSigned { .. }, TickEvent::Witnessed(_)) => {
                    ActionKind::Execute
                },
                (TickState::Executing { .. }, TickEvent::Executed) => ActionKind::WitnessExec,
                (TickState::WitnessingExec { .. }, TickEvent::Witnessed(_)) => ActionKind::Route,
                (TickState::Routing { .. }, TickEvent::Routed) => ActionKind::WitnessRouting,
                (TickState::WitnessingRouting { .. }, TickEvent::Witnessed(_)) => {
                    ActionKind::DebitCredit
                },
                (TickState::Accounting { .. }, TickEvent::Debited) => ActionKind::Evaluate,
                (TickState::Reflecting { .. }, TickEvent::Reflected(_)) => ActionKind::Adapt,
                (TickState::Adapting { .. }, TickEvent::Adapted) => ActionKind::FinishExecuted,
                _ => ActionKind::Ignore,
            },
        },
    }
}

/// `w` is the forecasting window for `balance`: the node's own, from time zero to the end of its
/// trade window, with no frames (the node-local forecaster holds the sensor history).
pub open spec fn forecast_window_of(balance: ThermalBalance, w: ReadingWindow) -> bool {
    &&& w.node_id == balance.node_id
    &&& w.from_ts == Timestamp(0)
    &&& w.to_ts == Timestamp((balance.window@ * HOUR_NS) as u64)
    &&& w.frames@.len() == 0
}

/// What the action taken on `event` in `state` carries.
pub open spec fn action_payload(state: TickState, event: TickEvent, a: TickAction) -> bool {
    match state {
        TickState::Done => a == TickAction::Ignore,
        _ => match event {
            TickEvent::Failed(e) => a == TickAction::Finish(Err(e)),
            _ => match (state, event) {
                (TickState::Monitoring, TickEvent::Balance(b)) => a matches TickAction::ForecastDemand(
                    w,
                ) && forecast_window_of(b, w),
                (TickState::Forecasting { balance }, TickEvent::Forecast(f)) => a
                    == TickAction::Reason(balance, f),
                (TickState::Reasoning, TickEvent::Decided(d)) => match d {
                    Decision::Hold => a == TickAction::Finish(Ok(TickReport::Idle)),
                    _ => a matches TickAction::CheckRules(p) && proposal_of(d, p),
                },
                (TickState::Governing { .. }, TickEvent::Verdict(v)) => match v {
                    RuleVerdict::Allow => a == TickAction::Post,
                    RuleVerdict::Violation(rule) => a == TickAction::Witness(
                        PrivilegedAction::RuleRejection { rule },
                    ),
                },
                (TickState::Rejecting { rule }, TickEvent::Witnessed(_)) => a == TickAction::Finish(
                    Ok(TickReport::Rejected(rule)),
                ),
                (TickState::Awaiting { .. }, TickEvent::Acceptance(acc)) => match acc {
                    None => a == TickAction::Finish(Ok(TickReport::Posted)),
                    Some(accepted) => a matches TickAction::Finalize(g) && agreement_of(
                        accepted,
                        g,
                    ),
                },
                (TickState::Finalizing { .. }, TickEvent::Finalized(_)) => a == TickAction::Witness(
                    PrivilegedAction::TradeSigned,
                ),
                (TickState::Executing { .. }, TickEvent::Executed) => a == TickAction::Witness(
                    PrivilegedAction::Exec,
                ),
                (TickState::Routing { .. }, TickEvent::Routed) => a == TickAction::Witness(
                    PrivilegedAction::Routing,
                ),
                (TickState::Adapting { reflection }, TickEvent::Adapted) => a == TickAction::Finish(
                    Ok(TickReport::Executed { reflection }),
                ),
                _ => kind_of(a) == next_kind(state, event),
            },
        },
    }
}

/// The first state of a tick and its first action: read the building's balance.
pub fn start() -> (r: (TickState, TickAction))
    ensures
        r.0 == TickState::Monitoring,
        r.1 == TickAction::ReadBalance,
{
    (TickState::Monitoring, TickAction::ReadBalance)
}

impl TickState {
    /// The tick is over.
    pub fn is_done(&self) -> (r: bool)
        ensures
            r == (*self is Done),
    {
        match self {
            TickState::Done => true,
            _ => false,
        }
    }
}

fn forecast_window(balance: &ThermalBalance) -> (w: ReadingWindow)
    ensures
        forecast_window_of(*balance, w),
{
    let hours = balance.window.hours();
    ReadingWindow {
        node_id: balance.node_id.clone(),
        from_ts: Timestamp(0),
        to_ts: Timestamp(hours as u64 * HOUR_NS),
        frames: Vec::new(),
    }
}

/// Advance the tick: the next state and the action to perform, given what the last action
/// produced.
pub fn step(state: TickState, event: TickEvent) -> (r: (TickState, TickAction))
    ensures
        r.0 == next_state(state, event),
        event matches TickEvent::Decided(d) ==> (state is Reasoning && !(d is Hold) ==> r.0
            == (TickState::Governing { decision: d })),
        state matches TickState::Governing { decision } ==> (event == TickEvent::Verdict(
            RuleVerdict::Allow,
        ) ==> r.0 == (TickState::Posting { decision }) && r.1 is Post),
        state matches TickState::Posting { decision } ==> (event is Posted ==> r.0
            == (TickState::Awaiting { decision }) && r.1 is AwaitAcceptance),
        event matches TickEvent::Acceptance(Some(a)) ==> (state is Awaiting ==> r.0
            == (TickState::Finalizing { accepted: a })),
        kind_of(r.1) == next_kind(state, event),
        action_payload(state, event, r.1),
{
    if state.is_done() {
        return (TickState::Done, TickAction::Ignore);
    }
    if let TickEvent::Failed(e) = event {
        return (TickState::Done, TickAction::Finish(Err(e)));
    }
    match state {
        TickState::Monitoring => match event {
            TickEvent::Balance(b) => {
                let w = forecast_window(&b);
                (TickState::Forecasting { balance: b }, TickAction::ForecastDemand(w))
            },
            _ => (TickState::Monitoring, TickAction::Ignore),
        },
        TickState::Forecasting { balance } => match event {
            TickEvent::Forecast(f) => (TickState::Reasoning, TickAction::Reason(balance, f)),
            _ => (TickState::Forecasting { balance }, TickAction::Ignore),
        },
        TickState::Reasoning => match event {
            TickEvent::Decided(d) => match to_proposed(&d) {
                None => (TickState::Done, TickAction::Finish(Ok(TickReport::Idle))),
                Some(p) => (TickState::Governing { decision: d }, TickAction::CheckRules(p)),
            },
            _ => (TickState::Reasoning, TickAction::Ignore),
        },
        TickState::Governing { decision } => match event {
            TickEvent::Verdict(v) => match v {
                RuleVerdict::Allow => (TickState::Posting { decision }, TickAction::Post),
                RuleVerdict::Violation(rule) => (
                    TickState::Rejecting { rule },
                    TickAction::Witness(PrivilegedAction::RuleRejection { rule }),
                ),
            },
            _ => (TickState::Governing { decision }, TickAction::Ignore),
        },
        TickState::Rejecting { rule } => match event {
            TickEvent::Witnessed(_) => (
                TickState::Done,
                TickAction::Finish(Ok(TickReport::Rejected(rule))),
            ),
            _ => (TickState::Rejecting { rule }, TickAction::Ignore),
        },
        TickState::Posting { decision } => match event {
            TickEvent::Posted => (TickState::Awaiting { decision }, TickAction::AwaitAcceptance),
            _ => (TickState::Posting { decision }, TickAction::Ignore),
        },
        TickState::Awaiting { decision } => match event {
            TickEvent::Acceptance(a) => match a {
                None => (TickState::Done, TickAction::Finish(Ok(TickReport::Posted))),
                Some(accepted) => {
                    let g = to_agreement(&accepted);
                    (TickState::Finalizing { accepted }, TickAction::Finalize(g))
                },
            },
            _ => (TickState::Awaiting { decision }, TickAction::Ignore),
        },
        TickState::Finalizing { accepted } => match event {
            TickEvent::Finalized(_) => (
                TickState::WitnessingSigned { accepted },
                TickAction::Witness(PrivilegedAction::TradeSigned),
            ),
            _ => (TickState::Finalizing { accepted }, TickAction::Ignore),
        },
        TickState::WitnessingSigned { accepted } => match event {
            TickEvent::Witnessed(_) => (TickState::Executing { accepted }, TickAction::Execute),
            _ => (TickState::WitnessingSigned { accepted }, TickAction::Ignore),
        },
        TickState::Executing { accepted } => match event {
            TickEvent::Executed => (
                TickState::WitnessingExec { accepted },
                TickAction::Witness(PrivilegedAction::Exec),
            ),
            _ => (TickState::Executing { accepted }, TickAction::Ignore),
        },
        TickState::WitnessingExec { accepted } => match event {
            TickEvent::Witnessed(_) => (TickState::Routing { accepted }, TickAction::Route),
            _ => (TickState::WitnessingExec { accepted }, TickAction::Ignore),
        },
        TickState::Routing { accepted } => match event {
            TickEvent::Routed => (
                TickState::WitnessingRouting { accepted },
                TickAction::Witness(PrivilegedAction::Routing),
            ),
            _ => (TickState::Routing { accepted }, TickAction::Ignore),
        },
        TickState::WitnessingRouting { accepted } => match event {
            TickEvent::Witnessed(_) => {
                let executed_at = accepted.accepted_at;
                (
                    TickState::Accounting {
                        executed: ExecutedTrade { accepted, executed_at },
                    },
                    TickAction::DebitCredit,
                )
            },
            _ => (TickState::WitnessingRouting { accepted }, TickAction::Ignore),
        },
        TickState::Accounting { executed } => match event {
            TickEvent::Debited => {
                let delivered = executed.accepted.proposed.kwh.0;
                (
                    TickState::Reflecting {
                        outcome: TradeOutcome {
                            executed,
                            delivered_kwh: delivered,
                            expected_kwh: delivered,
                        },
                    },
                    TickAction::Evaluate,
                )
            },
            _ => (TickState::Accounting { executed }, TickAction::Ignore),
        },
        TickState::Reflecting { outcome } => match event {
            TickEvent::Reflected(r) => (TickState::Adapting { reflection: r }, TickAction::Adapt),
            _ => (TickState::Reflecting { outcome }, TickAction::Ignore),
        },
        TickState::Adapting { reflection } => match event {
            TickEvent::Adapted => (
                TickState::Done,
                TickAction::Finish(Ok(TickReport::Executed { reflection })),
            ),
            _ => (TickState::Adapting { reflection }, TickAction::Ignore),
        },
        TickState::Done => (TickState::Done, TickAction::Ignore),
    }
}

/// The state after a sequence of events, from the start of a tick.
pub open spec fn run(events: Seq<TickEvent>) -> TickState
    decreases events.len(),
{
    if events.len() == 0 {
        TickState::Monitoring
    } else {
        next_state(run(events.drop_last()), events.last())
    }
}

/// The kind of the action taken on the last of `events`.
pub open spec fn last_kind(events: Seq<TickEvent>) -> ActionKind {
    next_kind(run(events.drop_last()), events.last())
}

/// The kinds of the actions performed over a sequence of events (ignored events left out),
/// starting with the first `ReadBalance`.
pub open spec fn performed(events: Seq<TickEvent>) -> Seq<ActionKind>
    decreases events.len(),
{
    if events.len() == 0 {
        seq![ActionKind::ReadBalance]
    } else if last_kind(events) == ActionKind::Ignore {
        performed(events.drop_last())
    } else {
        performed(events.drop_last()).push(last_kind(events))
    }
}

/// Monitor and reason: balance, forecast, reasoning.
pub open spec fn monitor_reason_script() -> Seq<ActionKind> {
    seq![ActionKind::ReadBalance, ActionKind::ForecastDemand, ActionKind::Reason]
}

/// The actions of a tick that executed a trade.
pub open spec fn executed_script() -> Seq<ActionKind> {
    monitor_reason_script() + seq![
        ActionKind::CheckRules,
        ActionKind::Post,
        ActionKind::AwaitAcceptance,
        ActionKind::Finalize,
        ActionKind::WitnessSigned,
        ActionKind::Execute,
        ActionKind::WitnessExec,
        ActionKind::Route,
        ActionKind::WitnessRouting,
        ActionKind::DebitCredit,
        ActionKind::Evaluate,
        ActionKind::Adapt,
        ActionKind::FinishExecuted,
    ]
}

/// The actions of a tick whose trade governance rejected.
pub open spec fn rejected_script() -> Seq<ActionKind> {
    monitor_reason_script() + seq![
        ActionKind::CheckRules,
        ActionKind::WitnessRejection,
        ActionKind::FinishRejected,
    ]
}

/// The actions of a tick that held.
pub open spec fn idle_script() -> Seq<ActionKind> {
    monitor_reason_script() + seq![ActionKind::FinishIdle]
}

/// The actions of a tick that posted and found no counterparty.
pub open spec fn posted_script() -> Seq<ActionKind> {
    monitor_reason_script() + seq![
        ActionKind::CheckRules,
        ActionKind::Post,
        ActionKind::AwaitAcceptance,
        ActionKind::FinishPosted,
    ]
}

/// The actions performed to reach a state that is not over.
pub open spec fn history(s: TickState) -> Seq<ActionKind> {
    let governed = monitor_reason_script().push(ActionKind::CheckRules);
    let posted = governed.push(ActionKind::Post).push(ActionKind::AwaitAcceptance);
    let signed = posted.push(ActionKind::Finalize).push(ActionKind::WitnessSigned);
    let executed = signed.push(ActionKind::Execute).push(ActionKind::WitnessExec);
    let routed = executed.push(ActionKind::Route).push(ActionKind::WitnessRouting);
    match s {
        TickState::Monitoring => seq![ActionKind::ReadBalance],
        TickState::Forecasting { .. } => seq![ActionKind::ReadBalance, ActionKind::ForecastDemand],
        TickState::Reasoning => monitor_reason_script(),
        TickState::Governing { .. } => governed,
        TickState::Rejecting { .. } => governed.push(ActionKind::WitnessRejection),
        TickState::Posting { .. } => governed.push(ActionKind::Post),
        TickState::Awaiting { .. } => posted,
        TickState::Finalizing { .. } => posted.push(ActionKind::Finalize),
        TickState::WitnessingSigned { .. } => signed,
        TickState::Executing { .. } => signed.push(ActionKind::Execute),
        TickState::WitnessingExec { .. } => executed,
        TickState::Routing { .. } => executed.push(ActionKind::Route),
        TickState::WitnessingRouting { .. } => routed,
        TickState::Accounting { .. } => routed.push(ActionKind::DebitCredit),
        TickState::Reflecting { .. } => routed.push(ActionKind::DebitCredit).push(
            ActionKind::Evaluate,
        ),
        TickState::Adapting { .. } => routed.push(ActionKind::DebitCredit).push(
            ActionKind::Evaluate,
        ).push(ActionKind::Adapt),
        TickState::Done => seq![],
    }
}

/// The states a tick reaches only after the rules engine allowed its trade.
pub open spec fn allowed_phase(s: TickState) -> bool {
    ||| s is Posting
    ||| s is Awaiting
    ||| s is Finalizing
    ||| s is WitnessingSigned
    ||| s is Executing
    ||| s is WitnessingExec
    ||| s is Routing
    ||| s is WitnessingRouting
    ||| s is Accounting
    ||| s is Reflecting
    ||| s is Adapting
}

proof fn lemma_step_shape(s: TickState, e: TickEvent)
    ensures
        next_kind(s, e) == ActionKind::Ignore ==> next_state(s, e) == s,
        s is Done ==> next_state(s, e) is Done,
        !(s is Done) && next_kind(s, e) != ActionKind::Ignore && !(next_state(s, e) is Done)
            ==> history(next_state(s, e)) == history(s).push(next_kind(s, e)),
        is_effect(next_kind(s, e)) ==> allowed_phase(s) || (s is Governing && e
            == TickEvent::Verdict(RuleVerdict::Allow)),
        allowed_phase(next_state(s, e)) ==> allowed_phase(s) || (s is Governing && e
            == TickEvent::Verdict(RuleVerdict::Allow)),
{
    let governed = monitor_reason_script().push(ActionKind::CheckRules);
    let posted = governed.push(ActionKind::Post).push(ActionKind::AwaitAcceptance);
    assert(monitor_reason_script() =~= seq![ActionKind::ReadBalance, ActionKind::ForecastDemand].push(
        ActionKind::Reason,
    ));
    assert(seq![ActionKind::ReadBalance, ActionKind::ForecastDemand] =~= seq![
        ActionKind::ReadBalance,
    ].push(ActionKind::ForecastDemand));
}

proof fn lemma_history(events: Seq<TickEvent>)
    ensures
        !(run(events) is Done) ==> performed(events) == history(run(events)),
        allowed_phase(run(events)) ==> exists|k: int|
            0 <= k < events.len() && events[k] == TickEvent::Verdict(RuleVerdict::Allow),
    decreases events.len(),
{
    if events.len() > 0 {
        let prev = events.drop_last();
        lemma_history(prev);
        lemma_step_shape(run(prev), events.last());
        if allowed_phase(run(prev)) {
            let k = choose|k: int|
                0 <= k < prev.len() && prev[k] == TickEvent::Verdict(RuleVerdict::Allow);
            assert(events[k] == prev[k]);
        }
        if allowed_phase(run(events)) && !allowed_phase(run(prev)) {
            assert(events[events.len() - 1] == events.last());
        }
    }
}

/// A tick follows its protocol: whenever it ends with a report, the actions it performed are
/// exactly the script of that report. An executed trade was checked by governance, posted,
/// finalized by consensus and witnessed as signed before it was executed, witnessed as executed
/// before it was routed, witnessed as routed, then accounted once, reflected on and adapted to;
/// a rejected trade was witnessed as rejected and nothing else; a hold and an unmatched posting
/// touch nothing beyond their scripts.
pub proof fn law_tick_follows_protocol(events: Seq<TickEvent>)
    requires
        events.len() > 0,
    ensures
        last_kind(events) == ActionKind::FinishExecuted ==> performed(events) == executed_script(),
        last_kind(events) == ActionKind::FinishRejected ==> performed(events) == rejected_script(),
        last_kind(events) == ActionKind::FinishIdle ==> performed(events) == idle_script(),
        last_kind(events) == ActionKind::FinishPosted ==> performed(events) == posted_script(),
{
    let prev = events.drop_last();
    lemma_history(prev);
    let s = run(prev);
    if last_kind(events) != ActionKind::Ignore && !(s is Done) {
        assert(performed(prev) == history(s));
        assert(monitor_reason_script() =~= seq![
            ActionKind::ReadBalance,
            ActionKind::ForecastDemand,
            ActionKind::Reason,
        ]);
        if last_kind(events) == ActionKind::FinishExecuted {
            assert(s is Adapting);
            assert(performed(events) =~= executed_script());
        }
        if last_kind(events) == ActionKind::FinishRejected {
            assert(s is Rejecting);
            assert(performed(events) =~= rejected_script());
        }
        if last_kind(events) == ActionKind::FinishIdle {
            assert(s is Reasoning);
            assert(performed(events) =~= idle_script());
        }
        if last_kind(events) == ActionKind::FinishPosted {
            assert(s is Awaiting);
            assert(performed(events) =~= posted_script());
        }
    }
}

/// Governance before any trade step, fail-closed: a tick only posts, awaits, finalizes,
/// executes, routes, accounts, reflects, adapts or witnesses a trade step after the rules engine
/// answered `Allow`.
pub proof fn law_tick_effects_require_allow(events: Seq<TickEvent>)
    requires
        events.len() > 0,
        is_effect(last_kind(events)),
    ensures
        exists|k: int| 0 <= k < events.len() && events[k] == TickEvent::Verdict(RuleVerdict::Allow),
{
    let prev = events.drop_last();
    lemma_history(prev);
    lemma_step_shape(run(prev), events.last());
    if allowed_phase(run(prev)) {
        let k = choose|k: int|
            0 <= k < prev.len() && prev[k] == TickEvent::Verdict(RuleVerdict::Allow);
        assert(events[k] == prev[k]);
    } else {
        assert(events[events.len() - 1] == events.last());
    }
}

proof fn lemma_after_violation(events: Seq<TickEvent>, k: int, j: int)
    requires
        0 <= k < j <= events.len(),
        run(events.take(k)) is Governing,
        events[k] matches TickEvent::Verdict(RuleVerdict::Violation(_)),
    ensures
        run(events.take(j)) is Rejecting || run(events.take(j)) is Done,
    decreases j - k,
{
    assert(events.take(j).drop_last() =~= events.take(j - 1));
    assert(events.take(j).last() == events[j - 1]);
    if j > k + 1 {
        lemma_after_violation(events, k, j - 1);
    }
}

/// A violation ends the trade: once the rules engine answered `Violation`, the tick performs no
/// trade step at all (it only witnesses the rejection and finishes, or fails).
pub proof fn law_tick_violation_stops_trading(events: Seq<TickEvent>, k: int)
    requires
        0 <= k < events.len(),
        run(events.take(k)) is Governing,
        events[k] matches TickEvent::Verdict(RuleVerdict::Violation(_)),
    ensures
        forall|j: int|
            k <= j < events.len() ==> !is_effect(#[trigger] next_kind(run(events.take(j)), events[j])),
{
    assert forall|j: int| k <= j < events.len() implies !is_effect(
        #[trigger] next_kind(run(events.take(j)), events[j]),
    ) by {
        if j > k {
            lemma_after_violation(events, k, j);
        }
    }
}

/// Law: a tick carries what it was handed. The decision the kernel returned (other than `Hold`)
/// is the one governed; once allowed, exactly that decision is posted and awaited; a violation is
/// the rule the engine named; the accepted trade is the one finalized, witnessed, executed and
/// routed; the executed trade is that trade at its acceptance instant; the outcome reflected on
/// is that execution with the proposed kWh delivered as expected; the reflection adapted to is
/// the evaluator's.
pub proof fn law_tick_carries_its_payloads(
    decision: Decision,
    rule: RuleId,
    accepted: AcceptedTrade,
    executed: ExecutedTrade,
    finality: Finality,
    record: WitnessRecord,
    outcome: TradeOutcome,
    reflection: Reflection,
)
    ensures
        !(decision is Hold) ==> next_state(TickState::Reasoning, TickEvent::Decided(decision))
            == (TickState::Governing { decision }),
        next_state(TickState::Reasoning, TickEvent::Decided(Decision::Hold)) is Done,
        next_state(TickState::Governing { decision }, TickEvent::Verdict(RuleVerdict::Allow))
            == (TickState::Posting { decision }),
        next_state(
            TickState::Governing { decision },
            TickEvent::Verdict(RuleVerdict::Violation(rule)),
        ) == (TickState::Rejecting { rule }),
        next_state(TickState::Posting { decision }, TickEvent::Posted) == (TickState::Awaiting {
            decision,
        }),
        next_state(TickState::Awaiting { decision }, TickEvent::Acceptance(Some(accepted)))
            == (TickState::Finalizing { accepted }),
        next_state(TickState::Awaiting { decision }, TickEvent::Acceptance(None)) is Done,
        next_state(TickState::Finalizing { accepted }, TickEvent::Finalized(finality))
            == (TickState::WitnessingSigned { accepted }),
        next_state(TickState::WitnessingSigned { accepted }, TickEvent::Witnessed(record))
            == (TickState::Executing { accepted }),
        next_state(TickState::Executing { accepted }, TickEvent::Executed)
            == (TickState::WitnessingExec { accepted }),
        next_state(TickState::WitnessingExec { accepted }, TickEvent::Witnessed(record))
            == (TickState::Routing { accepted }),
        next_state(TickState::Routing { accepted }, TickEvent::Routed)
            == (TickState::WitnessingRouting { accepted }),
        next_state(TickState::WitnessingRouting { accepted }, TickEvent::Witnessed(record))
            == (TickState::Accounting {
            executed: ExecutedTrade { accepted, executed_at: accepted.accepted_at },
        }),
        next_state(TickState::Accounting { executed }, TickEvent::Debited)
            == (TickState::Reflecting {
            outcome: TradeOutcome {
                executed,
                delivered_kwh: executed.accepted.proposed.kwh.0,
                expected_kwh: executed.accepted.proposed.kwh.0,
            },
        }),
        next_state(TickState::Reflecting { outcome }, TickEvent::Reflected(reflection))
            == (TickState::Adapting { reflection }),
{
}

} // verus!
