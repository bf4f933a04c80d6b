//! Federated training: cross-building model improvement, gradients only.
//!
//! A round forwards only `Gradient` values to the aggregator (no raw frame can be turned into a
//! gradient), then witnesses the aggregation. The round is a small state machine
//! ([`FederatedTrainer::round_start`], [`FederatedTrainer::round_step`]): the aggregation is
//! witnessed only once it succeeded, and the round returns the aggregate only once it was
//! witnessed.

use vstd::prelude::*;

use crate::error::DomainError;
use crate::gradient::Gradient;
use crate::witness::{PrivilegedAction, WitnessRecord};

verus! {

/// A federated training round driver over an aggregator and a witness chain.
pub struct FederatedTrainer<A, W> {
    aggregator: A,
    witness: W,
}

impl<A, W> FederatedTrainer<A, W> {
    /// The aggregator.
    pub closed spec fn aggregator_spec(&self) -> A {
        self.aggregator
    }

    /// The witness chain.
    pub closed spec fn witness_spec(&self) -> W {
        self.witness
    }

    /// A trainer over `aggregator` and `witness`.
    pub fn new(aggregator: A, witness: W) -> (r: FederatedTrainer<A, W>)
        ensures
            r.aggregator_spec() == aggregator,
            r.witness_spec() == witness,
    {
        FederatedTrainer { aggregator, witness }
    }

    /// The aggregator the round hands its gradients to.
    pub fn aggregator(&self) -> (r: &A)
        ensures
            *r == self.aggregator_spec(),
    {
        &self.aggregator
    }

    /// The witness chain the round reports the aggregation to.
    pub fn witness(&self) -> (r: &W)
        ensures
            *r == self.witness_spec(),
    {
        &self.witness
    }
}

/// The gradients of one round: the peers' gradients, then the local one.
pub fn round_gradients(local: Gradient, peer_gradients: Vec<Gradient>) -> (r: Vec<Gradient>)
    ensures
        r@ == peer_gradients@.push(local),
{
    let mut gradients = peer_gradients;
    gradients.push(local);
    gradients
}

/// Where a training round stands.
pub enum RoundState {
    /// Waiting for the aggregate of the round's gradients.
    Aggregating,
    /// Waiting for the witness of the aggregation of `aggregated`.
    Witnessing { aggregated: Gradient },
    /// Over.
    Done,
}

/// What the last action produced.
pub enum RoundEvent {
    /// The aggregator's answer.
    Aggregated(Result<Gradient, DomainError>),
    /// The witness chain's answer.
    Witnessed(Result<WitnessRecord, DomainError>),
}

/// What the runner must do next.
pub enum RoundAction {
    /// Aggregate these gradients.
    Aggregate(Vec<Gradient>),
    /// Emit this privileged action to the witness chain.
    Witness(PrivilegedAction),
    /// The round ends with this result.
    Finish(Result<Gradient, DomainError>),
}

/// An event answers the action the state waits on.
pub open spec fn round_answers(state: RoundState, event: RoundEvent) -> bool {
    ||| state is Aggregating && event is Aggregated
    ||| state is Witnessing && event is Witnessed
}

impl<A, W> FederatedTrainer<A, W> {
    /// Start a round: aggregate the peers' gradients and then the local one.
    pub fn round_start(&self, local: Gradient, peer_gradients: Vec<Gradient>) -> (r: (
        RoundState,
        RoundAction,
    ))
        ensures
            r.0 is Aggregating,
            r.1 matches RoundAction::Aggregate(g) && g@ == peer_gradients@.push(local),
    {
        (RoundState::Aggregating, RoundAction::Aggregate(round_gradients(local, peer_gradients)))
    }

    /// Advance the round. A successful aggregation is witnessed before it is returned; a failed
    /// aggregation ends the round with its error and witnesses nothing; a failed witness ends the
    /// round with that error and returns no aggregate.
    pub fn round_step(&self, state: RoundState, event: RoundEvent) -> (r: (RoundState, RoundAction))
        requires
            round_answers(state, event),
        ensures
            state is Aggregating ==> match event {
                RoundEvent::Aggregated(Ok(g)) => r.0 == (RoundState::Witnessing { aggregated: g })
                    && r.1 == RoundAction::Witness(PrivilegedAction::GradientAggregated),
                RoundEvent::Aggregated(Err(e)) => r.0 is Done && r.1 == RoundAction::Finish(
                    Err::<Gradient, DomainError>(e),
                ),
                RoundEvent::Witnessed(_) => false,
            },
            state is Witnessing ==> match event {
                RoundEvent::Witnessed(Ok(_)) => r.0 is Done && r.1 == RoundAction::Finish(
                    Ok::<Gradient, DomainError>(state->aggregated),
                ),
                RoundEvent::Witnessed(Err(e)) => r.0 is Done && r.1 == RoundAction::Finish(
                    Err::<Gradient, DomainError>(e),
                ),
                RoundEvent::Aggregated(_) => false,
            },
    {
        match state {
            RoundState::Aggregating => match event {
                RoundEvent::Aggregated(Ok(g)) => (
                    RoundState::Witnessing { aggregated: g },
                    RoundAction::Witness(PrivilegedAction::GradientAggregated),
                ),
                RoundEvent::Aggregated(Err(e)) => (RoundState::Done, RoundAction::Finish(Err(e))),
                RoundEvent::Witnessed(_) => vstd::pervasive::unreached(),
            },
            RoundState::Witnessing { aggregated } => match event {
                RoundEvent::Witnessed(Ok(_)) => (RoundState::Done, RoundAction::Finish(Ok(aggregated))),
                RoundEvent::Witnessed(Err(e)) => (RoundState::Done, RoundAction::Finish(Err(e))),
                RoundEvent::Aggregated(_) => vstd::pervasive::unreached(),
            },
            RoundState::Done => vstd::pervasive::unreached(),
        }
    }
}

} // verus!
