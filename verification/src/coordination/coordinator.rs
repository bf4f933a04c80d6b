//! The mesh coordinator: propagate committed state, react to node drops and returns, and
//! dispatch collective signals.
//!
//! Reacting to a membership change is a small state machine ([`begin_node_event`],
//! [`node_event_step`]): a drop marks the node down and then reconfigures over the live set; a
//! return marks the node up and then resyncs by replaying every missed DAG entry, in order, until
//! the fabric has none left.

use vstd::prelude::*;

use crate::consensus::DagEntry;
use crate::error::DomainError;
use crate::ids::{JunctionId, NodeId};
use crate::coordination::synaptic::{
    drains, entry_values, lemma_drain, marked_down, marked_up, names, replayed_values,
    SynapticMeshAdapter,
};
use crate::mesh::{CollectiveSignal, MeshAction, NodeEvent};

verus! {

/// The observable outcome of handling a [`NodeEvent`].
#[derive(Clone, Debug, PartialEq)]
pub enum MeshReaction {
    /// A drop was handled: the mesh reconfigured over the surviving live set.
    Reconfigured { live: Vec<NodeId> },
    /// A return was handled: the node resynced by replaying these missed entries.
    Resynced { replayed: Vec<DagEntry> },
}

/// The mesh coordinator over a transport and a node registry.
pub struct MeshCoordinator<T, R> {
    transport: T,
    registry: R,
}

/// The mitigation a collective signal dispatches to.
pub open spec fn mitigation_of(signal: CollectiveSignal) -> MeshAction {
    match signal {
        CollectiveSignal::Overload { zone } => MeshAction::RebalanceLoad { zone },
        CollectiveSignal::CascadeRisk { path } => MeshAction::ShedAndReroute { path },
        CollectiveSignal::HeatWave => MeshAction::EmergencyRouting,
    }
}

impl<T, R> MeshCoordinator<T, R> {
    /// The transport.
    pub closed spec fn transport_spec(&self) -> T {
        self.transport
    }

    /// The node registry.
    pub closed spec fn registry_spec(&self) -> R {
        self.registry
    }

    /// A coordinator over `transport` and `registry`.
    pub fn new(transport: T, registry: R) -> (r: MeshCoordinator<T, R>)
        ensures
            r.transport_spec() == transport,
            r.registry_spec() == registry,
    {
        MeshCoordinator { transport, registry }
    }

    /// The transport entries are published on.
    pub fn transport(&self) -> (r: &T)
        ensures
            *r == self.transport_spec(),
    {
        &self.transport
    }

    /// The registry of live district members.
    pub fn registry(&self) -> (r: &R)
        ensures
            *r == self.registry_spec(),
    {
        &self.registry
    }

    /// Dispatch a collective signal to its mitigation behaviour: an overload rebalances the same
    /// zone, a cascade risk sheds and reroutes around the same path, a heat wave engages
    /// emergency routing.
    pub fn collective_behaviour(&self, signal: CollectiveSignal) -> (r: MeshAction)
        ensures
            r == mitigation_of(signal),
            signal matches CollectiveSignal::Overload { zone } ==> r == (MeshAction::RebalanceLoad {
                zone,
            }),
            signal matches CollectiveSignal::CascadeRisk { path } ==> r == (MeshAction::ShedAndReroute {
                path,
            }),
            signal is HeatWave ==> r is EmergencyRouting,
    {
        match signal {
            CollectiveSignal::Overload { zone } => MeshAction::RebalanceLoad { zone },
            CollectiveSignal::CascadeRisk { path } => MeshAction::ShedAndReroute { path },
            CollectiveSignal::HeatWave => MeshAction::EmergencyRouting,
        }
    }

    /// Admit an entry for propagation: only signed, tamper-evident state enters the fabric, so an
    /// unsigned entry is refused.
    pub fn admit_for_propagation(&self, entry: DagEntry) -> (r: Result<DagEntry, DomainError>)
        ensures
            entry.signature is Some ==> r == Ok::<DagEntry, DomainError>(entry),
            entry.signature is None ==> (r matches Err(DomainError::Verification(m)) && m@
                == "refusing to propagate an unsigned DAG entry"@),
    {
        if entry.signature.is_none() {
            return Err(
                DomainError::Verification(
                    String::from_str("refusing to propagate an unsigned DAG entry"),
                ),
            );
        }
        Ok(entry)
    }
}

/// Law: each collective signal is dispatched to its own mitigation, on the same place: an
/// overload rebalances load across the same zone, a cascade risk sheds and reroutes around the
/// same path (whatever its length), and only a heat wave engages emergency routing.
pub proof fn law_each_signal_has_its_mitigation(zone: String, path: Vec<JunctionId>)
    ensures
        mitigation_of(CollectiveSignal::Overload { zone }) == (MeshAction::RebalanceLoad { zone }),
        mitigation_of(CollectiveSignal::CascadeRisk { path }) == (MeshAction::ShedAndReroute {
            path,
        }),
        mitigation_of(CollectiveSignal::HeatWave) is EmergencyRouting,
        !(mitigation_of(CollectiveSignal::Overload { zone }) is EmergencyRouting),
        !(mitigation_of(CollectiveSignal::CascadeRisk { path }) is EmergencyRouting),
{
}

/// Where the handling of a membership change stands.
pub enum NodeEventState {
    /// Waiting for the registry to mark the dropped node down.
    MarkingDown,
    /// Waiting for the live set.
    Reconfiguring,
    /// Waiting for the registry to mark the returning node up.
    MarkingUp,
    /// Replaying missed entries; `replayed` holds those received so far, in order.
    Resyncing { replayed: Vec<DagEntry> },
    /// Over; every further event is ignored.
    Done,
}

/// What the last action produced.
pub enum NodeEventUpdate {
    /// The registry marked the node down.
    MarkedDown,
    /// The registry's live set.
    Live(Vec<NodeId>),
    /// The registry marked the node up.
    MarkedUp,
    /// The fabric's next undelivered entry, if any.
    Next(Option<DagEntry>),
    /// The last action failed; handling ends with this error.
    Failed(DomainError),
}

/// What the runner must do next.
pub enum NodeEventAction {
    /// Mark this node down in the registry.
    MarkDown(NodeId),
    /// Read the registry's live set.
    ReadLive,
    /// Mark this node up in the registry.
    MarkUp(NodeId),
    /// Take the fabric's next undelivered entry.
    NextEntry,
    /// Handling ends with this result.
    Finish(Result<MeshReaction, DomainError>),
    /// The update did not fit the state: nothing to do.
    Ignore,
}

/// Begin handling a membership change: mark a dropped node down, or a returning node up, first.
pub fn begin_node_event(event: NodeEvent) -> (r: (NodeEventState, NodeEventAction))
    ensures
        event matches NodeEvent::Drop(n) ==> (r.0 is MarkingDown && r.1
            == NodeEventAction::MarkDown(n)),
        event matches NodeEvent::Up(n) ==> (r.0 is MarkingUp && r.1 == NodeEventAction::MarkUp(n)),
{
    match event {
        NodeEvent::Drop(n) => (NodeEventState::MarkingDown, NodeEventAction::MarkDown(n)),
        NodeEvent::Up(n) => (NodeEventState::MarkingUp, NodeEventAction::MarkUp(n)),
    }
}

/// One step of the membership-change protocol: from `state`, on `update`, to `next` with
/// `action`.
pub open spec fn node_event_transition(
    state: NodeEventState,
    update: NodeEventUpdate,
    next: NodeEventState,
    action: NodeEventAction,
) -> bool {
    &&& state is Done ==> next is Done && action is Ignore
    &&& update matches NodeEventUpdate::Failed(e) ==> (!(state is Done) ==> next is Done && action
        == NodeEventAction::Finish(Err(e)))
    &&& update is MarkedDown ==> (state is MarkingDown ==> next is Reconfiguring && action
        is ReadLive)
    &&& update matches NodeEventUpdate::Live(l) ==> (state is Reconfiguring ==> next is Done
        && action == NodeEventAction::Finish(Ok(MeshReaction::Reconfigured { live: l })))
    &&& update is MarkedUp ==> (state is MarkingUp ==> (next matches NodeEventState::Resyncing {
        replayed,
    } && replayed@ == Seq::<DagEntry>::empty()) && action is NextEntry)
    &&& update matches NodeEventUpdate::Next(Some(e)) ==> (state matches NodeEventState::Resyncing {
        replayed,
    } ==> (next matches NodeEventState::Resyncing { replayed: now } && now@ == replayed@.push(e))
        && action is NextEntry)
    &&& update matches NodeEventUpdate::Next(None) ==> (state matches NodeEventState::Resyncing {
        replayed,
    } ==> next is Done && action == NodeEventAction::Finish(
        Ok(MeshReaction::Resynced { replayed }),
    ))
    &&& action is ReadLive ==> state is MarkingDown
    &&& action is NextEntry ==> state is MarkingUp || state is Resyncing
    &&& action is Ignore ==> next == state
    &&& !(action is MarkDown) && !(action is MarkUp)
}

/// Advance the handling of a membership change. A drop is reconfigured over the live set only
/// after the node was marked down; a return resyncs only after the node was marked up, and the
/// resync replays every entry the fabric hands over, in order, until it has none left.
pub fn node_event_step(state: NodeEventState, update: NodeEventUpdate) -> (r: (
    NodeEventState,
    NodeEventAction,
))
    ensures
        node_event_transition(state, update, r.0, r.1),
{
    match state {
        NodeEventState::Done => (NodeEventState::Done, NodeEventAction::Ignore),
        NodeEventState::MarkingDown => match update {
            NodeEventUpdate::MarkedDown => (
                NodeEventState::Reconfiguring,
                NodeEventAction::ReadLive,
            ),
            NodeEventUpdate::Failed(e) => (NodeEventState::Done, NodeEventAction::Finish(Err(e))),
            _ => (NodeEventState::MarkingDown, NodeEventAction::Ignore),
        },
        NodeEventState::Reconfiguring => match update {
            NodeEventUpdate::Live(l) => (
                NodeEventState::Done,
                NodeEventAction::Finish(Ok(MeshReaction::Reconfigured { live: l })),
            ),
            NodeEventUpdate::Failed(e) => (NodeEventState::Done, NodeEventAction::Finish(Err(e))),
            _ => (NodeEventState::Reconfiguring, NodeEventAction::Ignore),
        },
        NodeEventState::MarkingUp => match update {
            NodeEventUpdate::MarkedUp => (
                NodeEventState::Resyncing { replayed: Vec::new() },
                NodeEventAction::NextEntry,
            ),
            NodeEventUpdate::Failed(e) => (NodeEventState::Done, NodeEventAction::Finish(Err(e))),
            _ => (NodeEventState::MarkingUp, NodeEventAction::Ignore),
        },
        NodeEventState::Resyncing { replayed } => match update {
            NodeEventUpdate::Next(Some(e)) => {
                let mut replayed = replayed;
                replayed.push(e);
                (NodeEventState::Resyncing { replayed }, NodeEventAction::NextEntry)
            },
            NodeEventUpdate::Next(None) => (
                NodeEventState::Done,
                NodeEventAction::Finish(Ok(MeshReaction::Resynced { replayed })),
            ),
            NodeEventUpdate::Failed(e) => (NodeEventState::Done, NodeEventAction::Finish(Err(e))),
            _ => (NodeEventState::Resyncing { replayed }, NodeEventAction::Ignore),
        },
    }
}

/// The entries a drain delivered: every answer but the final `None`.
pub open spec fn delivered_entries(answers: Seq<Option<DagEntry>>, k: int) -> Seq<DagEntry> {
    answers.take(k).map_values(|a: Option<DagEntry>| a->0)
}

/// While the fabric keeps answering with entries, the resync holds exactly those entries, in
/// the order they were delivered.
proof fn lemma_resync_prefix(
    states: Seq<NodeEventState>,
    actions: Seq<NodeEventAction>,
    answers: Seq<Option<DagEntry>>,
    k: int,
)
    requires
        0 <= k < answers.len(),
        states.len() == answers.len() + 1,
        actions.len() == answers.len(),
        states[0] matches NodeEventState::Resyncing { replayed } && replayed@ == Seq::<
            DagEntry,
        >::empty(),
        forall|i: int|
            0 <= i < answers.len() ==> node_event_transition(
                #[trigger] states[i],
                NodeEventUpdate::Next(answers[i]),
                states[i + 1],
                actions[i],
            ),
        forall|i: int| 0 <= i < answers.len() - 1 ==> #[trigger] answers[i] is Some,
    ensures
        states[k] matches NodeEventState::Resyncing { replayed } && replayed@ == delivered_entries(
            answers,
            k,
        ),
    decreases k,
{
    if k == 0 {
        assert(delivered_entries(answers, 0) =~= Seq::<DagEntry>::empty());
    } else {
        lemma_resync_prefix(states, actions, answers, k - 1);
        assert(node_event_transition(
            states[k - 1],
            NodeEventUpdate::Next(answers[k - 1]),
            states[k],
            actions[k - 1],
        ));
        assert(answers[k - 1] is Some);
        assert(delivered_entries(answers, k) =~= delivered_entries(answers, k - 1).push(
            answers[k - 1]->0,
        ));
    }
}

/// Law: node churn never loses committed state, and a returning node converges. On a drop, the
/// protocol marks the node down, then reconfigures over the fabric's live members, which no
/// longer include the node. Marking a node down and then up on the fabric leaves its committed
/// log as it was; the resync that follows the
/// node's return (the protocol step on `MarkedUp`, then one step per answer of a drain of that
/// fabric) finishes with `Resynced`, holding exactly the entries the fabric had not delivered,
/// in commit order: the whole committed log when nothing had been delivered yet. The committed
/// log is intact at the end.
pub proof fn law_churn_resync_replays_the_undelivered(
    before: SynapticMeshAdapter,
    down: SynapticMeshAdapter,
    up: SynapticMeshAdapter,
    node: NodeId,
    fabric: Seq<SynapticMeshAdapter>,
    answers: Seq<Option<DagEntry>>,
    drop_mid: NodeEventState,
    drop_read: NodeEventAction,
    live: Vec<NodeId>,
    drop_end: NodeEventState,
    drop_finish: NodeEventAction,
    marked_action: NodeEventAction,
    states: Seq<NodeEventState>,
    actions: Seq<NodeEventAction>,
)
    requires
        before.well_formed(),
        marked_down(before, down, node),
        node_event_transition(
            NodeEventState::MarkingDown,
            NodeEventUpdate::MarkedDown,
            drop_mid,
            drop_read,
        ),
        live@ == down.members(),
        node_event_transition(drop_mid, NodeEventUpdate::Live(live), drop_end, drop_finish),
        marked_up(down, up, node),
        drains(fabric, answers),
        fabric[0] == up,
        node_event_transition(
            NodeEventState::MarkingUp,
            NodeEventUpdate::MarkedUp,
            states[0],
            marked_action,
        ),
        states.len() == answers.len() + 1,
        actions.len() == answers.len(),
        forall|i: int|
            0 <= i < answers.len() ==> node_event_transition(
                #[trigger] states[i],
                NodeEventUpdate::Next(answers[i]),
                states[i + 1],
                actions[i],
            ),
    ensures
        drop_read is ReadLive,
        drop_finish == NodeEventAction::Finish(Ok(MeshReaction::Reconfigured { live })),
        names(live@).to_set() == names(before.members()).to_set().remove(node@),
        down.committed_log() == before.committed_log(),
        marked_action is NextEntry,
        actions.last() matches NodeEventAction::Finish(Ok(MeshReaction::Resynced { replayed }))
            && entry_values(replayed@) == entry_values(before.pending_entries()),
        entry_values(before.pending_entries()) == entry_values(before.committed_log()) ==> (actions.last() matches NodeEventAction::Finish(
            Ok(MeshReaction::Resynced { replayed }),
        ) && entry_values(replayed@) == entry_values(before.committed_log())),
        up.committed_log() == before.committed_log(),
        fabric.last().committed_log() == before.committed_log(),
{
    lemma_drain(fabric, answers);
    let m = answers.len() - 1;
    lemma_resync_prefix(states, actions, answers, m);
    assert(node_event_transition(states[m], NodeEventUpdate::Next(answers[m]), states[m + 1], actions[m]));
    assert(answers[m] is None);
    let replayed = states[m]->replayed;
    assert(actions.last() == NodeEventAction::Finish(Ok(MeshReaction::Resynced { replayed })));
    assert(entry_values(replayed@) =~= replayed_values(answers));
}

} // verus!
