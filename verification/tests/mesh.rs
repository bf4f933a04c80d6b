use hoforras::consensus::{DagEntry, MlDsaSignature, ThermalTradeAgreement};
use hoforras::binary32::Binary32;
use hoforras::coordination::coordinator::{
    begin_node_event, node_event_step, MeshCoordinator, MeshReaction, NodeEventAction,
    NodeEventUpdate,
};
use hoforras::coordination::synaptic::SynapticMeshAdapter;
use hoforras::error::DomainError;
use hoforras::ids::{JunctionId, NodeId, Timestamp};
use hoforras::mesh::{CollectiveSignal, MeshAction, NodeEvent};

struct DummyTransport;
struct DummyRegistry;

fn coordinator() -> MeshCoordinator<DummyTransport, DummyRegistry> {
    MeshCoordinator::new(DummyTransport, DummyRegistry)
}

fn node(s: &str) -> NodeId {
    NodeId::new(format!("{s}.thermal.budapest.dark")).unwrap()
}

fn entry(kwh: f32, signed: bool) -> DagEntry {
    DagEntry {
        agreement: ThermalTradeAgreement {
            seller: node("a"),
            buyer: node("b"),
            kwh_offered: Binary32(kwh.to_bits()),
            duration_hours: 6,
            credit_price_per_kwh: Binary32(2.0f32.to_bits()),
            pipe_route: vec![JunctionId(1)],
            valid_from: Timestamp(0),
        },
        signature: if signed { Some(MlDsaSignature(vec![1, 2, 3])) } else { None },
    }
}

#[test]
fn collective_dispatch_table() {
    let c = coordinator();
    assert_eq!(
        c.collective_behaviour(CollectiveSignal::Overload { zone: "north".into() }),
        MeshAction::RebalanceLoad { zone: "north".into() }
    );
    assert_eq!(
        c.collective_behaviour(CollectiveSignal::CascadeRisk { path: vec![JunctionId(7)] }),
        MeshAction::ShedAndReroute { path: vec![JunctionId(7)] }
    );
    assert_eq!(c.collective_behaviour(CollectiveSignal::HeatWave), MeshAction::EmergencyRouting);
}

#[test]
fn registry_tracks_live_membership() {
    let mut mesh = SynapticMeshAdapter::new();
    mesh.mark_up(node("a"));
    mesh.mark_up(node("b"));
    mesh.mark_down(node("a"));
    assert_eq!(mesh.live(), vec![node("b")]);
}

#[test]
fn publish_commits_and_queues() {
    let mut mesh = SynapticMeshAdapter::new();
    mesh.publish(entry(10.0, true));
    assert_eq!(mesh.committed().len(), 1);
    assert_eq!(mesh.pending(), 1);
    assert!(mesh.next_event().is_some());
    assert!(mesh.next_event().is_none());
    assert_eq!(mesh.committed().len(), 1);
}

#[test]
fn live_members_are_listed_once_in_order() {
    let mut mesh = SynapticMeshAdapter::new();
    mesh.mark_up(node("c"));
    mesh.mark_up(node("a"));
    mesh.mark_up(node("c"));
    mesh.mark_down(node("z"));
    assert_eq!(mesh.live(), vec![node("a"), node("c")]);
}

#[test]
fn delivery_follows_commit_order() {
    let mut mesh = SynapticMeshAdapter::new();
    mesh.publish(entry(1.0, true));
    mesh.publish(entry(2.0, true));
    assert_eq!(mesh.next_event().unwrap().agreement.kwh_offered, Binary32(1.0f32.to_bits()));
    mesh.publish(entry(3.0, true));
    assert_eq!(mesh.pending(), 2);
    assert_eq!(mesh.next_event().unwrap().agreement.kwh_offered, Binary32(2.0f32.to_bits()));
    assert_eq!(mesh.next_event().unwrap().agreement.kwh_offered, Binary32(3.0f32.to_bits()));
    assert_eq!(mesh.committed().len(), 3);
}

#[test]
fn propagate_refuses_unsigned_entry() {
    let c = coordinator();
    match c.admit_for_propagation(entry(5.0, false)) {
        Err(DomainError::Verification(m)) => {
            assert_eq!(m, "refusing to propagate an unsigned DAG entry")
        }
        _ => panic!("expected a verification error"),
    }
    assert!(c.admit_for_propagation(entry(5.0, true)).is_ok());
}

#[test]
fn node_drop_marks_down_and_reconfigures() {
    let (s, a) = begin_node_event(NodeEvent::Drop(node("a")));
    assert!(matches!(a, NodeEventAction::MarkDown(ref n) if *n == node("a")));
    let (s, a) = node_event_step(s, NodeEventUpdate::MarkedDown);
    assert!(matches!(a, NodeEventAction::ReadLive));
    let (_, a) = node_event_step(s, NodeEventUpdate::Live(vec![node("b")]));
    match a {
        NodeEventAction::Finish(Ok(MeshReaction::Reconfigured { live })) => {
            assert_eq!(live, vec![node("b")])
        }
        _ => panic!("expected a reconfiguration"),
    }
}

#[test]
fn node_up_marks_up_and_resyncs() {
    let mut fabric = SynapticMeshAdapter::new();
    fabric.publish(entry(1.0, true));
    fabric.publish(entry(2.0, true));
    let (mut s, a) = begin_node_event(NodeEvent::Up(node("a")));
    assert!(matches!(a, NodeEventAction::MarkUp(_)));
    fabric.mark_up(node("a"));
    let mut update = NodeEventUpdate::MarkedUp;
    loop {
        let (next, a) = node_event_step(s, update);
        s = next;
        match a {
            NodeEventAction::NextEntry => update = NodeEventUpdate::Next(fabric.next_event()),
            NodeEventAction::Finish(Ok(MeshReaction::Resynced { replayed })) => {
                assert_eq!(replayed.len(), 2);
                assert_eq!(replayed[1].agreement.kwh_offered, Binary32(2.0f32.to_bits()));
                break;
            }
            _ => panic!("unexpected action during resync"),
        }
    }
    assert_eq!(fabric.live(), vec![node("a")]);
}

#[test]
fn a_failed_registry_ends_handling_with_its_error() {
    let (s, _) = begin_node_event(NodeEvent::Drop(node("a")));
    let (s, a) = node_event_step(s, NodeEventUpdate::Failed(DomainError::Adapter("x".into())));
    assert!(matches!(a, NodeEventAction::Finish(Err(DomainError::Adapter(_)))));
    let (_, a) = node_event_step(s, NodeEventUpdate::MarkedDown);
    assert!(matches!(a, NodeEventAction::Ignore));
}

#[test]
fn churn_keeps_committed_and_resync_replays_it() {
    let mut fabric = SynapticMeshAdapter::new();
    for i in 0..5 {
        fabric.publish(entry(i as f32, true));
    }
    let before: Vec<DagEntry> = fabric.committed();
    fabric.mark_up(node("n"));
    fabric.mark_down(node("n"));
    assert_eq!(fabric.committed(), before);
    fabric.mark_up(node("n"));
    let mut replayed = Vec::new();
    while let Some(e) = fabric.next_event() {
        replayed.push(e);
    }
    assert_eq!(replayed, before);
    assert_eq!(fabric.committed(), before);
    assert_eq!(fabric.pending(), 0);
    assert_eq!(fabric.live(), vec![node("n")]);
}
