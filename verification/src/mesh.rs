//! Mesh, AI-orchestration and operator value objects.

use vstd::prelude::*;

use crate::binary32::Binary32;
use crate::forecast::Anomaly;
use crate::ids::{copy_route, JunctionId, NodeId};

verus! {

/// A district membership change handed to the mesh coordinator.
#[derive(Clone, Debug, PartialEq, Eq)]
pub enum NodeEvent {
    /// A peer Appliance dropped off the mesh.
    Drop(NodeId),
    /// A peer Appliance returned to the mesh.
    Up(NodeId),
}

/// A district-scale signal that triggers collective mitigation behaviour.
#[derive(Clone, Debug, PartialEq)]
pub enum CollectiveSignal {
    /// A thermal zone is overloaded: rebalance load across it.
    Overload { zone: String },
    /// A cascade failure risk along a pipe path: shed and reroute.
    CascadeRisk { path: Vec<JunctionId> },
    /// A district-wide heat wave: engage emergency routing.
    HeatWave,
}

/// The mitigation action a `CollectiveSignal` dispatches to.
#[derive(Clone, Debug, PartialEq)]
pub enum MeshAction {
    /// Rebalance thermal load across an overloaded zone.
    RebalanceLoad { zone: String },
    /// Shed and reroute around a cascade-risk path.
    ShedAndReroute { path: Vec<JunctionId> },
    /// Engage the district emergency routing plan.
    EmergencyRouting,
}

/// Context handed to the reasoning service when explaining an anomaly.
#[derive(Clone, Debug, PartialEq)]
pub struct AnomalyContext {
    pub node_id: NodeId,
    pub anomaly: Anomaly,
}

/// A natural-language anomaly explanation.
#[derive(Debug, PartialEq)]
pub struct Explanation {
    pub text: String,
}

/// Events pushed to the operator dashboard.
#[derive(Debug, PartialEq)]
pub enum UiEvent {
    TradeExecuted {
        seller: NodeId,
        buyer: NodeId,
        kwh: Binary32,
        pipe_route: Vec<JunctionId>,
    },
    AnomalyDetected { node_id: NodeId },
    AnomalyExplained { node_id: NodeId, explanation: Explanation },
}

impl Clone for Explanation {
    fn clone(&self) -> (r: Explanation)
        ensures
            r == *self,
    {
        Explanation { text: self.text.clone() }
    }
}

/// Two events are the same event: same variant, same fields (a route compared by its junctions).
pub open spec fn same_event(a: UiEvent, b: UiEvent) -> bool {
    match a {
        UiEvent::TradeExecuted { seller, buyer, kwh, pipe_route } => b matches UiEvent::TradeExecuted {
            seller: s2,
            buyer: b2,
            kwh: k2,
            pipe_route: p2,
        } && seller == s2 && buyer == b2 && kwh == k2 && pipe_route@ == p2@,
        UiEvent::AnomalyDetected { node_id } => b == UiEvent::AnomalyDetected { node_id },
        UiEvent::AnomalyExplained { node_id, explanation } => b == UiEvent::AnomalyExplained {
            node_id,
            explanation,
        },
    }
}

impl Clone for UiEvent {
    fn clone(&self) -> (r: UiEvent)
        ensures
            same_event(*self, r),
    {
        match self {
            UiEvent::TradeExecuted { seller, buyer, kwh, pipe_route } => UiEvent::TradeExecuted {
                seller: seller.clone(),
                buyer: buyer.clone(),
                kwh: *kwh,
                pipe_route: copy_route(pipe_route),
            },
            UiEvent::AnomalyDetected { node_id } => UiEvent::AnomalyDetected { node_id: node_id.clone() },
            UiEvent::AnomalyExplained { node_id, explanation } => UiEvent::AnomalyExplained {
                node_id: node_id.clone(),
                explanation: explanation.clone(),
            },
        }
    }
}

} // verus!
