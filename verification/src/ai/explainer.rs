//! The anomaly explainer: ask the reasoning service for an explanation first, then surface the
//! explained anomaly to the operator. The dashboard never shows an unexplained anomaly card.
//!
//! The protocol is a small state machine ([`AnomalyExplainer::explain_start`],
//! [`AnomalyExplainer::explain_step`]); the runner performs each action and hands back its result.

use vstd::prelude::*;

use crate::error::DomainError;
use crate::ids::NodeId;
use crate::mesh::{AnomalyContext, Explanation, UiEvent};

verus! {

/// The explainer over a reasoning service and an operator channel.
pub struct AnomalyExplainer<C, O> {
    reasoner: C,
    operator: O,
}

/// Where explaining an anomaly stands.
pub enum ExplainState {
    /// Waiting for the explanation of the anomaly at this node.
    Explaining { node_id: NodeId },
    /// Waiting for the operator channel to accept the explained anomaly.
    Surfacing,
    /// Over.
    Done,
}

/// What the last action produced.
pub enum ExplainEvent {
    /// The reasoning service's answer.
    Explained(Result<Explanation, DomainError>),
    /// The operator channel's answer.
    Pushed(Result<(), DomainError>),
}

/// What the runner must do next.
pub enum ExplainAction {
    /// Ask the reasoning service to explain this context.
    Explain(AnomalyContext),
    /// Push this event to the operator.
    Push(UiEvent),
    /// Explaining ends with this result.
    Finish(Result<(), DomainError>),
}

/// An event answers the action the state waits on.
pub open spec fn answers(state: ExplainState, event: ExplainEvent) -> bool {
    ||| state is Explaining && event is Explained
    ||| state is Surfacing && event is Pushed
}

impl<C, O> AnomalyExplainer<C, O> {
    /// The reasoning service.
    pub closed spec fn reasoner_spec(&self) -> C {
        self.reasoner
    }

    /// The operator channel.
    pub closed spec fn operator_spec(&self) -> O {
        self.operator
    }

    /// An explainer over `reasoner` and `operator`.
    pub fn new(reasoner: C, operator: O) -> (r: AnomalyExplainer<C, O>)
        ensures
            r.reasoner_spec() == reasoner,
            r.operator_spec() == operator,
    {
        AnomalyExplainer { reasoner, operator }
    }

    /// The reasoning service.
    pub fn reasoner(&self) -> (r: &C)
        ensures
            *r == self.reasoner_spec(),
    {
        &self.reasoner
    }

    /// The operator channel.
    pub fn operator(&self) -> (r: &O)
        ensures
            *r == self.operator_spec(),
    {
        &self.operator
    }

    /// Start explaining `context`: the first action asks for the explanation; nothing is pushed
    /// yet.
    pub fn explain_start(&self, context: AnomalyContext) -> (r: (ExplainState, ExplainAction))
        ensures
            r.0 == (ExplainState::Explaining { node_id: context.node_id }),
            r.1 == ExplainAction::Explain(context),
    {
        let node_id = context.node_id.clone();
        (ExplainState::Explaining { node_id }, ExplainAction::Explain(context))
    }

    /// Advance on the last action's result. An explanation is pushed as the explained anomaly of
    /// the node it was asked for; a failed explanation ends with its error and pushes nothing; the
    /// push's own result ends the protocol.
    pub fn explain_step(&self, state: ExplainState, event: ExplainEvent) -> (r: (
        ExplainState,
        ExplainAction,
    ))
        requires
            answers(state, event),
        ensures
            (state is Explaining) ==> match event {
                ExplainEvent::Explained(Ok(explanation)) => r.0 is Surfacing && r.1
                    == ExplainAction::Push(
                    UiEvent::AnomalyExplained { node_id: state->node_id, explanation },
                ),
                ExplainEvent::Explained(Err(e)) => r.0 is Done && r.1 == ExplainAction::Finish(
                    Err::<(), DomainError>(e),
                ),
                ExplainEvent::Pushed(_) => false,
            },
            (state is Surfacing) ==> (event matches ExplainEvent::Pushed(res) && r.0 is Done && r.1
                == ExplainAction::Finish(res)),
    {
        match state {
            ExplainState::Explaining { node_id } => match event {
                ExplainEvent::Explained(Ok(explanation)) => (
                    ExplainState::Surfacing,
                    ExplainAction::Push(UiEvent::AnomalyExplained { node_id, explanation }),
                ),
                ExplainEvent::Explained(Err(e)) => (ExplainState::Done, ExplainAction::Finish(Err(e))),
                ExplainEvent::Pushed(res) => (ExplainState::Done, ExplainAction::Finish(res)),
            },
            ExplainState::Surfacing => match event {
                ExplainEvent::Pushed(res) => (ExplainState::Done, ExplainAction::Finish(res)),
                ExplainEvent::Explained(_) => (ExplainState::Done, ExplainAction::Finish(Ok(()))),
            },
            ExplainState::Done => (ExplainState::Done, ExplainAction::Finish(Ok(()))),
        }
    }
}

} // verus!
