//! The reference market orchestrator: it counts posted and executed trades, holds the strategy,
//! and returns a pre-armed counterparty acceptance (none by default, so no counterparty is
//! matched unless one is armed).

use vstd::prelude::*;

use crate::market::{AcceptedTrade, Bid, Offer, Strategy};

verus! {

/// Reference market orchestrator.
pub struct DaaOrchestratorAdapter {
    strategy: Strategy,
    posted: usize,
    executed: usize,
    acceptance: Option<AcceptedTrade>,
}

impl DaaOrchestratorAdapter {
    /// The strategy held.
    pub closed spec fn strategy_spec(&self) -> Strategy {
        self.strategy
    }

    /// The number of offers and bids posted.
    pub closed spec fn posted_spec(&self) -> nat {
        self.posted as nat
    }

    /// The number of trades executed.
    pub closed spec fn executed_spec(&self) -> nat {
        self.executed as nat
    }

    /// The acceptance the next wait for a counterparty returns.
    pub closed spec fn acceptance_spec(&self) -> Option<AcceptedTrade> {
        self.acceptance
    }

    /// An orchestrator holding `initial`, with nothing posted or executed and no acceptance armed.
    pub fn new(initial: Strategy) -> (r: DaaOrchestratorAdapter)
        ensures
            r.strategy_spec() == initial,
            r.posted_spec() == 0,
            r.executed_spec() == 0,
            r.acceptance_spec() is None,
    {
        DaaOrchestratorAdapter { strategy: initial, posted: 0, executed: 0, acceptance: None }
    }

    /// Arm the acceptance the next wait for a counterparty returns.
    pub fn set_acceptance(&mut self, accepted: Option<AcceptedTrade>)
        ensures
            final(self).acceptance_spec() == accepted,
            final(self).strategy_spec() == old(self).strategy_spec(),
            final(self).posted_spec() == old(self).posted_spec(),
            final(self).executed_spec() == old(self).executed_spec(),
    {
        self.acceptance = accepted;
    }

    /// The number of offers and bids posted.
    pub fn posted_count(&self) -> (r: usize)
        ensures
            r == self.posted_spec(),
    {
        self.posted
    }

    /// The number of trades executed.
    pub fn executed_count(&self) -> (r: usize)
        ensures
            r == self.executed_spec(),
    {
        self.executed
    }

    /// Post an offer: counted as one more posting.
    pub fn post_offer(&mut self, offer: &Offer)
        requires
            old(self).posted_spec() < usize::MAX,
        ensures
            final(self).posted_spec() == old(self).posted_spec() + 1,
            final(self).executed_spec() == old(self).executed_spec(),
            final(self).strategy_spec() == old(self).strategy_spec(),
            final(self).acceptance_spec() == old(self).acceptance_spec(),
    {
        self.posted = self.posted + 1;
    }

    /// Post a bid: counted as one more posting.
    pub fn post_bid(&mut self, bid: &Bid)
        requires
            old(self).posted_spec() < usize::MAX,
        ensures
            final(self).posted_spec() == old(self).posted_spec() + 1,
            final(self).executed_spec() == old(self).executed_spec(),
            final(self).strategy_spec() == old(self).strategy_spec(),
            final(self).acceptance_spec() == old(self).acceptance_spec(),
    {
        self.posted = self.posted + 1;
    }

    /// The armed acceptance, if any.
    pub fn await_acceptance(&self) -> (r: &Option<AcceptedTrade>)
        ensures
            *r == self.acceptance_spec(),
    {
        &self.acceptance
    }

    /// Execute an accepted trade: counted as one more execution.
    pub fn execute(&mut self, trade: &AcceptedTrade)
        requires
            old(self).executed_spec() < usize::MAX,
        ensures
            final(self).executed_spec() == old(self).executed_spec() + 1,
            final(self).posted_spec() == old(self).posted_spec(),
            final(self).strategy_spec() == old(self).strategy_spec(),
            final(self).acceptance_spec() == old(self).acceptance_spec(),
    {
        self.executed = self.executed + 1;
    }

    /// The strategy held.
    pub fn load(&self) -> (r: Strategy)
        ensures
            r == self.strategy_spec(),
    {
        self.strategy
    }

    /// Replace the strategy held by an adapted one.
    pub fn store(&mut self, strategy: Strategy)
        ensures
            final(self).strategy_spec() == strategy,
            final(self).posted_spec() == old(self).posted_spec(),
            final(self).executed_spec() == old(self).executed_spec(),
            final(self).acceptance_spec() == old(self).acceptance_spec(),
    {
        self.strategy = strategy;
    }
}

} // verus!
