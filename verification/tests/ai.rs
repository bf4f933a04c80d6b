use hoforras::ai::bridge::{BackingService, BootAction, BootEvent, ThermalBridgeServer, TOOL_NAMES};
use hoforras::ai::explainer::{AnomalyExplainer, ExplainAction, ExplainEvent, ExplainState};
use hoforras::ai::federation::{FederationOutcome, FederationStub};
use hoforras::ai::ruflo::RufloMcpAdapter;
use hoforras::ai::websocket_sink::WebSocketSink;
use hoforras::binary32::Binary32;
use hoforras::error::DomainError;
use hoforras::forecast::{Anomaly, AnomalyKind};
use hoforras::ids::NodeId;
use hoforras::mesh::{AnomalyContext, Explanation, UiEvent};
use serde_json::Value;

fn json(text: &str) -> Value {
    serde_json::from_str(text).unwrap()
}

fn bridge() -> ThermalBridgeServer<RufloMcpAdapter, (), (), (), (), ()> {
    ThermalBridgeServer::new(RufloMcpAdapter::new(), (), (), (), (), ())
}

// Run the boot protocol against a registry, answering each registration; returns the result and
// the names registered, in order.
fn boot_into(registry: &mut RufloMcpAdapter, refuse_at: Option<usize>) -> (Result<(), DomainError>, Vec<String>) {
    let b = bridge();
    let mut seen = Vec::new();
    let (mut state, mut action) = b.boot_start();
    loop {
        match action {
            BootAction::Register(name) => {
                let event = if Some(seen.len()) == refuse_at {
                    BootEvent::Refused(DomainError::Adapter("registry down".into()))
                } else {
                    registry.register(name.clone());
                    seen.push(name);
                    BootEvent::Registered
                };
                let (s, a) = b.boot_step(state, event);
                state = s;
                action = a;
            }
            BootAction::Finish(r) => return (r, seen),
        }
    }
}

#[test]
fn boot_registers_five_tools() {
    let mut registry = RufloMcpAdapter::new();
    let (result, registered) = boot_into(&mut registry, None);
    assert!(result.is_ok());
    assert_eq!(registered.len(), 5);
    for name in TOOL_NAMES {
        assert!(registered.contains(&name.to_string()), "missing {name}");
        assert!(registry.has(name));
    }
    assert_eq!(registered, TOOL_NAMES.map(|n| n.to_string()).to_vec());
}

#[test]
fn boot_stops_at_the_first_refusal() {
    let mut registry = RufloMcpAdapter::new();
    let (result, registered) = boot_into(&mut registry, Some(2));
    assert!(matches!(result, Err(DomainError::Adapter(_))));
    assert_eq!(registered.len(), 2);
    assert!(!registry.has(TOOL_NAMES[2]));
}

#[test]
fn each_tool_delegates_to_its_service() {
    let b = bridge();
    assert_eq!(b.route("hoforras.thermal.district_status", true).unwrap(), BackingService::DistrictStatus);
    assert_eq!(b.route("hoforras.trade.active_agreements", true).unwrap(), BackingService::TradeQuery);
    assert_eq!(b.route("hoforras.pipe.health_scores", true).unwrap(), BackingService::PipeHealth);
    assert_eq!(b.route("hoforras.forecast.demand_24h", true).unwrap(), BackingService::ForecastQuery);
}

#[test]
fn anomaly_tool_delegates_to_anomaly_service() {
    let b = bridge();
    assert_eq!(b.route("hoforras.anomaly.recent", true).unwrap(), BackingService::AnomalyQuery);
}

#[test]
fn unknown_tool_errors() {
    let b = bridge();
    let mut registry = RufloMcpAdapter::new();
    let _ = boot_into(&mut registry, None);
    let name = "hoforras.nope.unknown";
    match b.route(name, registry.has(name)) {
        Err(DomainError::NotFound(m)) => assert_eq!(m, "unknown tool: hoforras.nope.unknown"),
        _ => panic!("expected not found"),
    }
}

#[test]
fn a_registered_tool_the_bridge_does_not_route_is_refused() {
    let b = bridge();
    match b.route("hoforras.extra.tool", true) {
        Err(DomainError::NotFound(m)) => assert_eq!(m, "unrouted tool: hoforras.extra.tool"),
        _ => panic!("expected not found"),
    }
    // An unregistered published tool is unknown, whatever its name.
    assert!(matches!(b.route("hoforras.anomaly.recent", false), Err(DomainError::NotFound(_))));
}

#[test]
fn register_then_has_and_list() {
    let mut adapter = RufloMcpAdapter::new();
    adapter.register("hoforras.thermal.district_status".into());
    assert!(adapter.has("hoforras.thermal.district_status"));
    assert!(!adapter.has("nope"));
    assert_eq!(adapter.list_tools().len(), 1);
}

#[test]
fn ruflo_adapter_register_has_list_invoke() {
    let mut adapter = RufloMcpAdapter::new();
    for name in TOOL_NAMES {
        adapter.register(name.to_string());
    }
    assert_eq!(adapter.list_tools().len(), 5);
    assert!(adapter.has("hoforras.pipe.health_scores"));
    assert!(adapter.acknowledge("hoforras.pipe.health_scores").is_ok());
    match adapter.acknowledge("missing") {
        Err(DomainError::NotFound(m)) => assert_eq!(m, "unknown tool: missing"),
        _ => panic!("expected not found"),
    }
}

#[test]
fn registering_twice_lists_once_in_order() {
    let mut adapter = RufloMcpAdapter::default();
    adapter.register("b".into());
    adapter.register("a".into());
    adapter.register("b".into());
    assert_eq!(adapter.list_tools(), vec!["a".to_string(), "b".to_string()]);
}

fn context() -> AnomalyContext {
    AnomalyContext {
        node_id: NodeId::new("pozsonyi14.thermal.budapest.dark".to_string()).unwrap(),
        anomaly: Anomaly { kind: AnomalyKind::BurstPrecursor, confidence: Binary32(0.8f32.to_bits()) },
    }
}

#[test]
fn explain_then_push() {
    let explainer = AnomalyExplainer::new((), ());
    let (s, a) = explainer.explain_start(context());
    match a {
        ExplainAction::Explain(ctx) => assert_eq!(ctx, context()),
        _ => panic!("expected the explanation to be asked for first"),
    }
    let explanation = Explanation { text: "pipe stress rising".into() };
    let (s, a) = explainer.explain_step(s, ExplainEvent::Explained(Ok(explanation)));
    match a {
        ExplainAction::Push(UiEvent::AnomalyExplained { node_id, explanation }) => {
            assert_eq!(node_id, context().node_id);
            assert_eq!(explanation.text, "pipe stress rising");
        }
        _ => panic!("expected the explained anomaly to be pushed"),
    }
    assert!(matches!(s, ExplainState::Surfacing));
    let (s, a) = explainer.explain_step(s, ExplainEvent::Pushed(Ok(())));
    assert!(matches!(a, ExplainAction::Finish(Ok(()))));
    assert!(matches!(s, ExplainState::Done));
}

#[test]
fn a_failed_explanation_pushes_nothing() {
    let explainer = AnomalyExplainer::new((), ());
    let (s, _) = explainer.explain_start(context());
    let (s, a) = explainer.explain_step(s, ExplainEvent::Explained(Err(DomainError::Adapter("x".into()))));
    assert!(matches!(a, ExplainAction::Finish(Err(DomainError::Adapter(_)))));
    assert!(matches!(s, ExplainState::Done));
}

#[test]
fn push_records_event() {
    let mut sink = WebSocketSink::new();
    sink.push(UiEvent::AnomalyDetected {
        node_id: NodeId::new("a.thermal.budapest.dark".to_string()).unwrap(),
    });
    assert_eq!(sink.pushed().len(), 1);
}

#[test]
fn explainer_pushes_explained_event_over_websocket() {
    let explainer = AnomalyExplainer::new((), WebSocketSink::new());
    let mut sink = WebSocketSink::new();
    let (s, _) = explainer.explain_start(context());
    let explanation = Explanation { text: "thermal spike".into() };
    let (s, a) = explainer.explain_step(s, ExplainEvent::Explained(Ok(explanation)));
    if let ExplainAction::Push(event) = a {
        sink.push(event);
    }
    let (_, a) = explainer.explain_step(s, ExplainEvent::Pushed(Ok(())));
    assert!(matches!(a, ExplainAction::Finish(Ok(()))));
    let pushed = sink.pushed();
    assert_eq!(pushed.len(), 1);
    assert!(matches!(pushed[0], UiEvent::AnomalyExplained { .. }));
    assert!(explainer.operator().pushed().is_empty());
}

#[test]
fn federation_is_a_disclosed_stub_accepting_only_market_signals() {
    let federation = FederationStub::new();
    assert_eq!(
        federation.exchange(&json(r#"{"kind": "market_signal", "price": 2.3}"#)).unwrap(),
        FederationOutcome::Deferred
    );
    assert!(federation.exchange(&json(r#"{"kind": "raw_frame"}"#)).is_err());
    assert!(federation.exchange(&json(r#"{"temperature_celsius": 88.0}"#)).is_err());
}

#[test]
fn federation_refusal_names_the_rule() {
    let federation = FederationStub::default();
    match federation.exchange(&json(r#"{"kind": 7}"#)) {
        Err(DomainError::Denied(m)) => assert_eq!(
            m,
            "federation accepts only tagged market signals; no raw data crosses districts"
        ),
        _ => panic!("expected a denial"),
    }
    assert!(federation.exchange(&json(r#"["market_signal"]"#)).is_err());
    assert!(federation.accept_kind(Some("market_signal")).is_ok());
    assert!(federation.accept_kind(Some("Market_signal")).is_err());
    assert!(federation.accept_kind(None).is_err());
}
