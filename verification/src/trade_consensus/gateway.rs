//! The consensus gateway: the market hands it a `ThermalTradeAgreement` and gets back `Finality`.
//!
//! The headline invariant is sign-before-broadcast: an entry is ML-DSA-signed before it is
//! broadcast to consensus, and what is broadcast is exactly what the signer returned. A boundary
//! check runs first, so an overlong or malformed trade never reaches the signer. Finalizing is a
//! small state machine ([`begin_finalize`], [`finalize_step`]); a runner performs the signing and
//! the broadcast.

use vstd::prelude::*;

use crate::binary32::{at_most, below, finite, Binary32};
use crate::consensus::{DagEntry, Finality, ThermalTradeAgreement};
use crate::error::DomainError;
use crate::governance::TRADE_WINDOW_HOURS;
use crate::text::{decimal, decimal_text};

verus! {

/// The consensus gateway over a signer, a DAG network and a peer-discovery service.
pub struct ConsensusGateway<S, N, D> {
    signer: S,
    network: N,
    discovery: D,
}

impl<S, N, D> ConsensusGateway<S, N, D> {
    /// The signer.
    pub closed spec fn signer_spec(&self) -> S {
        self.signer
    }

    /// The DAG network.
    pub closed spec fn network_spec(&self) -> N {
        self.network
    }

    /// The peer discovery service.
    pub closed spec fn discovery_spec(&self) -> D {
        self.discovery
    }

    /// A gateway over `signer`, `network` and `discovery`.
    pub fn new(signer: S, network: N, discovery: D) -> (r: ConsensusGateway<S, N, D>)
        ensures
            r.signer_spec() == signer,
            r.network_spec() == network,
            r.discovery_spec() == discovery,
    {
        ConsensusGateway { signer, network, discovery }
    }

    /// The signer entries are signed with.
    pub fn signer(&self) -> (r: &S)
        ensures
            *r == self.signer_spec(),
    {
        &self.signer
    }

    /// The network entries are broadcast on.
    pub fn network(&self) -> (r: &N)
        ensures
            *r == self.network_spec(),
    {
        &self.network
    }

    /// The discovery service peers are resolved with.
    pub fn discovery(&self) -> (r: &D)
        ensures
            *r == self.discovery_spec(),
    {
        &self.discovery
    }
}

/// The text of the error for a trade longer than the governance ceiling.
pub open spec fn duration_error_message(hours: u32) -> Seq<char> {
    "trade duration "@ + decimal(hours as nat) + "h exceeds the "@ + decimal(
        TRADE_WINDOW_HOURS as nat,
    ) + "h governance ceiling"@
}

/// The trade's economic fields are sane: a positive, finite kWh amount.
pub open spec fn kwh_sane(trade: ThermalTradeAgreement) -> bool {
    finite(trade.kwh_offered) && !at_most(trade.kwh_offered, Binary32(0))
}

/// A non-negative, finite price.
pub open spec fn price_sane(trade: ThermalTradeAgreement) -> bool {
    finite(trade.credit_price_per_kwh) && !below(trade.credit_price_per_kwh, Binary32(0))
}

/// The trade passes the boundary: its duration is within the governance ceiling and its kWh
/// amount and price are sane.
pub open spec fn within_boundary(trade: ThermalTradeAgreement) -> bool {
    trade.duration_hours <= TRADE_WINDOW_HOURS && kwh_sane(trade) && price_sane(trade)
}

/// Boundary validation, before any signing: the duration may never exceed the governance
/// ceiling, and the economic fields must be sane. The first rule broken is reported.
pub fn boundary_check(trade: &ThermalTradeAgreement) -> (r: Result<(), DomainError>)
    ensures
        r is Ok <==> within_boundary(*trade),
        r is Ok <==> trade.duration_hours <= TRADE_WINDOW_HOURS && finite(trade.kwh_offered)
            && below(Binary32(0), trade.kwh_offered) && finite(trade.credit_price_per_kwh)
            && at_most(Binary32(0), trade.credit_price_per_kwh),
        trade.duration_hours > TRADE_WINDOW_HOURS ==> (r matches Err(DomainError::Governance(m))
            && m@ == duration_error_message(trade.duration_hours)),
        trade.duration_hours <= TRADE_WINDOW_HOURS && !kwh_sane(*trade) ==> (r matches Err(
            DomainError::Invalid(m),
        ) && m@ == "kwh_offered must be positive and finite"@),
        trade.duration_hours <= TRADE_WINDOW_HOURS && kwh_sane(*trade) && !price_sane(*trade) ==> (
        r matches Err(DomainError::Invalid(m)) && m@
            == "credit_price_per_kwh must be non-negative and finite"@),
{
    if trade.duration_hours > TRADE_WINDOW_HOURS {
        let mut m = String::from_str("trade duration ");
        m.append(decimal_text(trade.duration_hours as u64).as_str());
        m.append("h exceeds the ");
        m.append(decimal_text(TRADE_WINDOW_HOURS as u64).as_str());
        m.append("h governance ceiling");
        return Err(DomainError::Governance(m));
    }
    if !trade.kwh_offered.is_finite() || trade.kwh_offered.le(Binary32::zero()) {
        return Err(DomainError::Invalid(String::from_str("kwh_offered must be positive and finite")));
    }
    if !trade.credit_price_per_kwh.is_finite() || trade.credit_price_per_kwh.lt(Binary32::zero()) {
        return Err(
            DomainError::Invalid(
                String::from_str("credit_price_per_kwh must be non-negative and finite"),
            ),
        );
    }
    Ok(())
}

/// Law: the boundary admits exactly the trades whose duration is within the governance
/// ceiling, whose kWh amount is finite and strictly above zero, and whose price is finite and not
/// below zero.
pub proof fn law_boundary_admits_exactly_sane_trades(trade: ThermalTradeAgreement)
    ensures
        within_boundary(trade) <==> trade.duration_hours <= TRADE_WINDOW_HOURS && finite(
            trade.kwh_offered,
        ) && below(Binary32(0), trade.kwh_offered) && finite(trade.credit_price_per_kwh) && at_most(
            Binary32(0),
            trade.credit_price_per_kwh,
        ),
{
}

/// Where finalizing stands.
pub enum FinalizeState {
    /// Waiting for the signer's signed entry.
    Signing,
    /// Waiting for consensus on the broadcast entry.
    Broadcasting,
    /// Finalizing is over; every further event is ignored.
    Done,
}

/// What the last finalizing action produced.
pub enum FinalizeEvent {
    /// The signer's answer.
    Signed(Result<DagEntry, DomainError>),
    /// The network's answer to the broadcast.
    Broadcasted(Result<Finality, DomainError>),
}

/// What the runner must do next.
pub enum FinalizeAction {
    /// Sign this entry with ML-DSA.
    Sign(DagEntry),
    /// Broadcast this signed entry and await consensus.
    Broadcast(DagEntry),
    /// Finalizing ends with this result.
    Finish(Result<Finality, DomainError>),
    /// The event did not fit the state: nothing to do.
    Ignore,
}

/// Begin finalizing `trade`: check the boundary, then ask for the unsigned entry to be signed.
/// A trade outside the boundary is refused before any signing.
pub fn begin_finalize(trade: ThermalTradeAgreement) -> (r: (FinalizeState, FinalizeAction))
    ensures
        within_boundary(trade) ==> r.0 is Signing && r.1 == FinalizeAction::Sign(
            DagEntry { agreement: trade, signature: None },
        ),
        !within_boundary(trade) ==> r.0 is Done && r.1 matches FinalizeAction::Finish(Err(_)),
        trade.duration_hours > TRADE_WINDOW_HOURS ==> r.1 matches FinalizeAction::Finish(
            Err(DomainError::Governance(_)),
        ),
{
    match boundary_check(&trade) {
        Err(e) => (FinalizeState::Done, FinalizeAction::Finish(Err(e))),
        Ok(()) => (FinalizeState::Signing, FinalizeAction::Sign(DagEntry::new(trade))),
    }
}

/// Advance finalizing. Sign-before-broadcast: a broadcast is only ever asked for right after
/// the signer answered, and it carries exactly the entry the signer returned; signing is never
/// asked for again.
pub fn finalize_step(state: FinalizeState, event: FinalizeEvent) -> (r: (
    FinalizeState,
    FinalizeAction,
))
    ensures
        event matches FinalizeEvent::Signed(Ok(e)) ==> (state is Signing ==> r.0 is Broadcasting
            && r.1 == FinalizeAction::Broadcast(e)),
        event matches FinalizeEvent::Signed(Err(x)) ==> (state is Signing ==> r.0 is Done && r.1
            == FinalizeAction::Finish(Err(x))),
        event matches FinalizeEvent::Broadcasted(res) ==> (state is Broadcasting ==> r.0 is Done
            && r.1 == FinalizeAction::Finish(res)),
        !(state is Signing && event is Signed) && !(state is Broadcasting && event is Broadcasted)
            ==> r.0 == state && r.1 is Ignore,
        r.1 matches FinalizeAction::Broadcast(x) ==> (state is Signing && event
            == FinalizeEvent::Signed(Ok(x))),
        !(r.1 is Sign),
{
    match state {
        FinalizeState::Signing => match event {
            FinalizeEvent::Signed(Ok(e)) => (
                FinalizeState::Broadcasting,
                FinalizeAction::Broadcast(e),
            ),
            FinalizeEvent::Signed(Err(x)) => (FinalizeState::Done, FinalizeAction::Finish(Err(x))),
            _ => (FinalizeState::Signing, FinalizeAction::Ignore),
        },
        FinalizeState::Broadcasting => match event {
            FinalizeEvent::Broadcasted(res) => (FinalizeState::Done, FinalizeAction::Finish(res)),
            _ => (FinalizeState::Broadcasting, FinalizeAction::Ignore),
        },
        FinalizeState::Done => (FinalizeState::Done, FinalizeAction::Ignore),
    }
}

} // verus!
