use hoforras::binary32::Binary32;
use hoforras::broker::agent::{start, step, TickAction, TickEvent, TickReport, TickState, HOUR_NS};
use hoforras::broker::decide::{clamped_window, decide_on_net, to_agreement, to_proposed};
use hoforras::broker::federated::{
    round_gradients, FederatedTrainer, RoundAction, RoundEvent, RoundState,
};
use hoforras::broker::orchestrator::DaaOrchestratorAdapter;
use hoforras::broker::prime_coordinator::{
    aggregation_dimension, column_of, sort_column, trimmed_bounds, PrimeCoordinatorAdapter,
};
use hoforras::broker::rules::DaaRulesAdapter;
use hoforras::broker::seed_mesh::SeedMeshAdapter;
use hoforras::error::DomainError;
use hoforras::forecast::DemandForecast;
use hoforras::governance::{governance, RuleId, RuleVerdict};
use hoforras::gradient::Gradient;
use hoforras::ids::{JunctionId, NodeId, Timestamp};
use hoforras::market::{
    AcceptedTrade, Decision, Kwh, Offer, Price, ProposedTrade, Reflection, Strategy,
    ThermalBalance, TradeWindow,
};
use hoforras::witness::{PrivilegedAction, WitnessRecord};

fn b(x: f32) -> Binary32 {
    Binary32(x.to_bits())
}

fn f(x: Binary32) -> f32 {
    f32::from_bits(x.bits())
}

fn node(s: &str) -> NodeId {
    NodeId::new(format!("{s}.thermal.budapest.dark")).unwrap()
}

fn balance(surplus: f32, deficit: f32) -> ThermalBalance {
    ThermalBalance {
        node_id: NodeId::new("pozsonyi14.thermal.budapest.dark".to_string()).unwrap(),
        surplus_kwh: b(surplus),
        deficit_kwh: b(deficit),
        window: TradeWindow::new(6).unwrap(),
    }
}

// A flat forecast: 24 hours of 10 kWh, so no scarcity and a total of 240.
fn flat_hourly() -> Vec<f32> {
    vec![10.0; 24]
}

fn strategy() -> Strategy {
    Strategy {
        offer_threshold_kwh: b(5.0),
        bid_threshold_kwh: b(5.0),
        reserve_pct: b(0.15),
        base_credit_per_kwh: b(2.0),
        window_hours: 6,
    }
}

// The net position the kernel reasons on: surplus - deficit - reserve need (total * reserve_pct).
fn net_of(balance: &ThermalBalance, hourly: &[f32], strategy: &Strategy) -> Binary32 {
    let total: f32 = hourly.iter().sum();
    let need = total * f(strategy.reserve_pct);
    b(f(balance.surplus_kwh) - f(balance.deficit_kwh) - need)
}

// With a flat forecast both prices are the base price.
fn flat_price(strategy: &Strategy) -> Price {
    Price { credit_per_kwh: strategy.base_credit_per_kwh }
}

fn decide_flat(balance: &ThermalBalance, strategy: &Strategy) -> Decision {
    let net = net_of(balance, &flat_hourly(), strategy);
    decide_on_net(balance, strategy, net, flat_price(strategy), flat_price(strategy))
}

#[test]
fn large_surplus_offers() {
    // net = 100 - 0 - 36 = 64 > 5, so an offer of 64
    match decide_flat(&balance(100.0, 0.0), &strategy()) {
        Decision::Offer(o) => assert!((f(o.kwh.0) - 64.0).abs() < 1e-3),
        other => panic!("expected Offer, got {other:?}"),
    }
}

#[test]
fn large_deficit_bids() {
    // net = 0 - 80 - 36 = -116 < -5, so a bid of 116
    match decide_flat(&balance(0.0, 80.0), &strategy()) {
        Decision::Bid(bid) => assert!((f(bid.kwh.0) - 116.0).abs() < 1e-3),
        other => panic!("expected Bid, got {other:?}"),
    }
}

#[test]
fn balanced_holds() {
    // net = 40 - 0 - 36 = 4, within [-5, 5]
    assert_eq!(decide_flat(&balance(40.0, 0.0), &strategy()), Decision::Hold);
}

#[test]
fn window_is_clamped_to_ceiling() {
    let mut s = strategy();
    s.window_hours = 99;
    match decide_flat(&balance(100.0, 0.0), &s) {
        Decision::Offer(o) => assert_eq!(o.window.hours(), governance().trade_window_hours),
        other => panic!("expected Offer, got {other:?}"),
    }
}

#[test]
fn hold_proposes_nothing() {
    assert!(to_proposed(&Decision::Hold).is_none());
}

#[test]
fn decision_carries_node_prices_and_thresholds() {
    let s = strategy();
    let offer_price = Price { credit_per_kwh: b(3.0) };
    let bid_price = Price { credit_per_kwh: b(4.0) };
    let bal = balance(0.0, 0.0);
    match decide_on_net(&bal, &s, b(5.5), offer_price, bid_price) {
        Decision::Offer(o) => {
            assert_eq!(o.seller, bal.node_id);
            assert_eq!(f(o.price.credit_per_kwh), 3.0);
            assert_eq!(f(o.kwh.0), 5.5);
        }
        other => panic!("expected Offer, got {other:?}"),
    }
    match decide_on_net(&bal, &s, b(-5.5), offer_price, bid_price) {
        Decision::Bid(bid) => {
            assert_eq!(bid.buyer, bal.node_id);
            assert_eq!(f(bid.max_price.credit_per_kwh), 4.0);
            assert_eq!(f(bid.kwh.0), 5.5);
        }
        other => panic!("expected Bid, got {other:?}"),
    }
    // Exactly at a threshold holds; a NaN net holds.
    assert_eq!(decide_on_net(&bal, &s, b(5.0), offer_price, bid_price), Decision::Hold);
    assert_eq!(decide_on_net(&bal, &s, b(-5.0), offer_price, bid_price), Decision::Hold);
    assert_eq!(decide_on_net(&bal, &s, b(f32::NAN), offer_price, bid_price), Decision::Hold);
}

#[test]
fn window_is_clamped_to_at_least_one_hour() {
    let mut s = strategy();
    s.window_hours = 0;
    assert_eq!(clamped_window(&s).hours(), 1);
    s.window_hours = 4;
    assert_eq!(clamped_window(&s).hours(), 4);
}

#[test]
fn offer_lowers_to_a_self_proposal_without_route() {
    let o = Offer {
        seller: node("a"),
        kwh: Kwh(b(12.0)),
        price: Price { credit_per_kwh: b(2.5) },
        window: TradeWindow::new(3).unwrap(),
    };
    let p = to_proposed(&Decision::Offer(o)).unwrap();
    assert_eq!(p.seller, node("a"));
    assert_eq!(p.buyer, node("a"));
    assert_eq!(f(p.kwh.0), 12.0);
    assert_eq!(p.window.hours(), 3);
    assert!(p.pipe_route.is_empty());
}

fn proposed(kwh: f32) -> ProposedTrade {
    ProposedTrade {
        seller: node("a"),
        buyer: node("b"),
        kwh: Kwh(b(kwh)),
        price: Price { credit_per_kwh: b(2.0) },
        window: TradeWindow::new(6).unwrap(),
        pipe_route: vec![JunctionId(1)],
    }
}

#[test]
fn rejects_over_500kwh_daily() {
    let rules = DaaRulesAdapter::new();
    assert_eq!(
        rules.check(&proposed(600.0)),
        RuleVerdict::Violation(RuleId::MaxDailyThermalTransferKwh)
    );
}

#[test]
fn rejects_below_15pct_reserve() {
    let rules = DaaRulesAdapter::with_node_state(b(0.10), b(6.0));
    assert_eq!(
        rules.check(&proposed(40.0)),
        RuleVerdict::Violation(RuleId::MinSafetyReservePercent)
    );
}

#[test]
fn rejects_over_6bar() {
    let rules = DaaRulesAdapter::with_node_state(b(0.15), b(7.0));
    assert_eq!(
        rules.check(&proposed(40.0)),
        RuleVerdict::Violation(RuleId::PipePressureCeilingBar)
    );
}

#[test]
fn accepts_within_all_limits() {
    let rules = DaaRulesAdapter::new();
    assert_eq!(rules.check(&proposed(40.0)), RuleVerdict::Allow);
}

#[test]
fn unavailable_engine_fails_closed() {
    let rules = DaaRulesAdapter::unavailable();
    assert!(matches!(rules.check(&proposed(40.0)), RuleVerdict::Violation(_)));
}

#[test]
fn limits_are_inclusive_and_checked_in_order() {
    let rules = DaaRulesAdapter::new();
    assert_eq!(rules.check(&proposed(500.0)), RuleVerdict::Allow);
    // Over the daily limit and below the reserve: the daily limit is reported first.
    let low_reserve = DaaRulesAdapter::with_node_state(b(0.10), b(9.0));
    assert_eq!(
        low_reserve.check(&proposed(600.0)),
        RuleVerdict::Violation(RuleId::MaxDailyThermalTransferKwh)
    );
    assert_eq!(
        low_reserve.check(&proposed(40.0)),
        RuleVerdict::Violation(RuleId::MinSafetyReservePercent)
    );
    // A NaN amount is not over the limit.
    assert_eq!(rules.check(&proposed(f32::NAN)), RuleVerdict::Allow);
    // The default engine is the healthy one.
    assert_eq!(DaaRulesAdapter::default().check(&proposed(40.0)), RuleVerdict::Allow);
}

#[test]
fn aggregation_rejects_mismatched_dimensions() {
    let _coordinator = PrimeCoordinatorAdapter::new();
    let gradients = vec![
        Gradient::from_local(vec![b(1.0), b(2.0)]),
        Gradient::from_local(vec![b(1.0)]),
    ];
    match aggregation_dimension(&gradients) {
        Err(DomainError::Invalid(m)) => assert_eq!(m, "gradients must share dimensionality"),
        _ => panic!("expected an invalid-input error"),
    }
}

#[test]
fn aggregation_needs_at_least_one_gradient() {
    match aggregation_dimension(&Vec::new()) {
        Err(DomainError::Invalid(m)) => assert_eq!(m, "cannot aggregate zero gradients"),
        _ => panic!("expected an invalid-input error"),
    }
    let gradients = vec![
        Gradient::from_local(vec![b(1.0), b(2.0)]),
        Gradient::from_local(vec![b(3.0), b(4.0)]),
    ];
    assert_eq!(aggregation_dimension(&gradients).unwrap(), 2);
}

#[test]
fn columns_and_trim_bounds_of_a_round() {
    let gradients = vec![
        Gradient::from_local(vec![b(1.0), b(10.0)]),
        Gradient::from_local(vec![b(1.1), b(20.0)]),
        Gradient::from_local(vec![b(1000.0), b(30.0)]),
    ];
    assert_eq!(column_of(&gradients, 0), vec![b(1.0), b(1.1), b(1000.0)]);
    assert_eq!(column_of(&gradients, 1), vec![b(10.0), b(20.0), b(30.0)]);
    assert_eq!(trimmed_bounds(5), (1, 4));
    assert_eq!(trimmed_bounds(3), (1, 2));
    assert_eq!(trimmed_bounds(2), (0, 2));
    assert_eq!(trimmed_bounds(1), (0, 1));
}

#[test]
fn a_round_is_the_peers_then_the_local_gradient() {
    let local = Gradient::from_local(vec![b(9.0)]);
    let peers = vec![Gradient::from_local(vec![b(1.0)]), Gradient::from_local(vec![b(2.0)])];
    let round = round_gradients(local, peers);
    assert_eq!(round.len(), 3);
    assert_eq!(round[0].as_slice(), &[b(1.0)]);
    assert_eq!(round[2].as_slice(), &[b(9.0)]);
}

fn accepted() -> AcceptedTrade {
    AcceptedTrade {
        proposed: proposed(40.0),
        accepted_at: Timestamp(77),
        pipe_route: vec![JunctionId(7), JunctionId(12)],
    }
}

#[test]
fn accepted_trade_maps_to_its_agreement() {
    let g = to_agreement(&accepted());
    assert_eq!(g.seller, node("a"));
    assert_eq!(g.buyer, node("b"));
    assert_eq!(f(g.kwh_offered), 40.0);
    assert_eq!(g.duration_hours, 6);
    assert_eq!(f(g.credit_price_per_kwh), 2.0);
    assert_eq!(g.pipe_route, vec![JunctionId(7), JunctionId(12)]);
    assert_eq!(g.valid_from, Timestamp(77));
}

#[test]
fn orchestrator_counts_postings_and_executions() {
    let mut o = DaaOrchestratorAdapter::new(strategy());
    assert_eq!(o.posted_count(), 0);
    assert!(o.await_acceptance().is_none());
    let offer = Offer {
        seller: node("a"),
        kwh: Kwh(b(1.0)),
        price: Price { credit_per_kwh: b(2.0) },
        window: TradeWindow::new(1).unwrap(),
    };
    o.post_offer(&offer);
    o.post_offer(&offer);
    assert_eq!(o.posted_count(), 2);
    o.set_acceptance(Some(accepted()));
    assert!(o.await_acceptance().is_some());
    o.execute(&accepted());
    assert_eq!(o.executed_count(), 1);
    assert_eq!(o.posted_count(), 2);
    let mut s = strategy();
    s.window_hours = 3;
    o.store(s);
    assert_eq!(o.load().window_hours, 3);
}

#[test]
fn seed_mesh_reports_its_balance() {
    let m = SeedMeshAdapter::new(balance(12.0, 3.0));
    assert_eq!(f(m.read_surplus_deficit().surplus_kwh), 12.0);
    assert_eq!(f(m.read_surplus_deficit().deficit_kwh), 3.0);
}

fn witnessed() -> TickEvent {
    TickEvent::Witnessed(WitnessRecord::new([0u8; 64]))
}

#[test]
fn tick_monitors_then_forecasts_then_reasons() {
    let (s, a) = start();
    assert!(matches!(a, TickAction::ReadBalance));
    let (s, a) = step(s, TickEvent::Balance(balance(100.0, 0.0)));
    match a {
        TickAction::ForecastDemand(w) => {
            assert_eq!(w.from_ts, Timestamp(0));
            assert_eq!(w.to_ts, Timestamp(6 * HOUR_NS));
            assert_eq!(w.node_id, balance(0.0, 0.0).node_id);
        }
        _ => panic!("expected a forecast request"),
    }
    let forecast = DemandForecast { hourly_kwh: vec![b(10.0); 24] };
    let (s, a) = step(s, TickEvent::Forecast(forecast));
    assert!(matches!(a, TickAction::Reason(_, _)));
    let (s, a) = step(s, TickEvent::Decided(Decision::Hold));
    assert!(matches!(a, TickAction::Finish(Ok(TickReport::Idle))));
    assert!(s.is_done());
}

fn reasoning() -> TickState {
    let (s, _) = start();
    let (s, _) = step(s, TickEvent::Balance(balance(100.0, 0.0)));
    let (s, _) = step(s, TickEvent::Forecast(DemandForecast { hourly_kwh: vec![] }));
    s
}

fn offer_decision() -> Decision {
    Decision::Offer(Offer {
        seller: node("a"),
        kwh: Kwh(b(64.0)),
        price: Price { credit_per_kwh: b(2.0) },
        window: TradeWindow::new(6).unwrap(),
    })
}

#[test]
fn rule_violation_is_witnessed_and_stops_trading() {
    let (s, a) = step(reasoning(), TickEvent::Decided(offer_decision()));
    assert!(matches!(a, TickAction::CheckRules(_)));
    let (s, a) = step(s, TickEvent::Verdict(RuleVerdict::Violation(RuleId::PipePressureCeilingBar)));
    assert!(matches!(
        a,
        TickAction::Witness(PrivilegedAction::RuleRejection { rule: RuleId::PipePressureCeilingBar })
    ));
    let (s, a) = step(s, witnessed());
    assert!(matches!(
        a,
        TickAction::Finish(Ok(TickReport::Rejected(RuleId::PipePressureCeilingBar)))
    ));
    let (_, a) = step(s, TickEvent::Posted);
    assert!(matches!(a, TickAction::Ignore));
}

#[test]
fn no_counterparty_posts_only() {
    let (s, _) = step(reasoning(), TickEvent::Decided(offer_decision()));
    let (s, a) = step(s, TickEvent::Verdict(RuleVerdict::Allow));
    assert!(matches!(a, TickAction::Post));
    let (s, a) = step(s, TickEvent::Posted);
    assert!(matches!(a, TickAction::AwaitAcceptance));
    let (_, a) = step(s, TickEvent::Acceptance(None));
    assert!(matches!(a, TickAction::Finish(Ok(TickReport::Posted))));
}

#[test]
fn executed_trade_runs_the_full_protocol() {
    let (s, _) = step(reasoning(), TickEvent::Decided(offer_decision()));
    let (s, _) = step(s, TickEvent::Verdict(RuleVerdict::Allow));
    let (s, _) = step(s, TickEvent::Posted);
    let (s, a) = step(s, TickEvent::Acceptance(Some(accepted())));
    match a {
        TickAction::Finalize(g) => assert_eq!(g.pipe_route, vec![JunctionId(7), JunctionId(12)]),
        _ => panic!("expected finalization before anything else"),
    }
    let (s, a) = step(s, TickEvent::Finalized(hoforras::consensus::Finality { reached_at: Timestamp(1) }));
    assert!(matches!(a, TickAction::Witness(PrivilegedAction::TradeSigned)));
    let (s, a) = step(s, witnessed());
    assert!(matches!(a, TickAction::Execute));
    let (s, a) = step(s, TickEvent::Executed);
    assert!(matches!(a, TickAction::Witness(PrivilegedAction::Exec)));
    let (s, a) = step(s, witnessed());
    assert!(matches!(a, TickAction::Route));
    let (s, a) = step(s, TickEvent::Routed);
    assert!(matches!(a, TickAction::Witness(PrivilegedAction::Routing)));
    let (s, a) = step(s, witnessed());
    assert!(matches!(a, TickAction::DebitCredit));
    let (s, a) = step(s, TickEvent::Debited);
    assert!(matches!(a, TickAction::Evaluate));
    let reflection = Reflection { value_ratio: b(1.0), note: "ok".to_string() };
    let (s, a) = step(s, TickEvent::Reflected(reflection));
    assert!(matches!(a, TickAction::Adapt));
    let (s, a) = step(s, TickEvent::Adapted);
    match a {
        TickAction::Finish(Ok(TickReport::Executed { reflection })) => {
            assert_eq!(reflection.note, "ok")
        }
        _ => panic!("expected an executed report"),
    }
    assert!(s.is_done());
}

#[test]
fn a_failed_step_ends_the_tick_with_its_error() {
    let (s, _) = start();
    let (s, a) = step(s, TickEvent::Failed(DomainError::Adapter("down".to_string())));
    assert!(matches!(a, TickAction::Finish(Err(DomainError::Adapter(_)))));
    assert!(s.is_done());
}

#[test]
fn broker_agent_holds_its_ports() {
    let agent = hoforras::broker::agent::BrokerAgent::new(1u8, 2u8, 3u8, 4u8, 5u8, 6u8, 7u8, 8u8, 9u8);
    assert_eq!(*agent.seed_mesh(), 1);
    assert_eq!(*agent.forecast(), 2);
    assert_eq!(*agent.rules(), 3);
    assert_eq!(*agent.market(), 4);
    assert_eq!(*agent.evaluator(), 5);
    assert_eq!(*agent.strategy(), 6);
    assert_eq!(*agent.ledger(), 7);
    assert_eq!(*agent.witness(), 8);
    assert_eq!(*agent.consensus(), 9);
    assert!(agent.tick_lock().try_lock().is_ok());
}

#[test]
fn columns_sort_stably_in_ieee_order() {
    let column = vec![b(1.0), b(-0.0), b(-2.5), b(0.0), b(f32::INFINITY), b(-0.0)];
    let sorted = sort_column(&column);
    let bits: Vec<u32> = sorted.iter().map(|x| x.bits()).collect();
    let expected: Vec<u32> =
        [-2.5f32, -0.0, 0.0, -0.0, 1.0, f32::INFINITY].iter().map(|x| x.to_bits()).collect();
    assert_eq!(bits, expected);
    assert!(sort_column(&Vec::new()).is_empty());
}

#[test]
fn trimming_a_sorted_column_drops_the_byzantine_outlier() {
    // Four honest values near 1.0 and one spike at 1000.0: the kept window leaves the spike out.
    let column = vec![b(1.0), b(1.1), b(0.9), b(1.0), b(1000.0)];
    let sorted = sort_column(&column);
    let (lo, hi) = trimmed_bounds(sorted.len());
    let kept: Vec<f32> = sorted[lo..hi].iter().map(|x| f(*x)).collect();
    assert_eq!(kept, vec![1.0, 1.0, 1.1]);
    assert!(kept.iter().all(|x| *x < 2.0));
}

#[test]
fn a_round_witnesses_only_a_successful_aggregation() {
    let trainer = FederatedTrainer::new((), ());
    let local = Gradient::from_local(vec![b(3.0)]);
    let (s, a) = trainer.round_start(local, vec![Gradient::from_local(vec![b(1.0)])]);
    match a {
        RoundAction::Aggregate(g) => {
            assert_eq!(g.len(), 2);
            assert_eq!(g[1].as_slice(), &[b(3.0)]);
        }
        _ => panic!("expected aggregation first"),
    }
    let (s, a) = trainer.round_step(s, RoundEvent::Aggregated(Ok(Gradient::from_local(vec![b(2.0)]))));
    assert!(matches!(a, RoundAction::Witness(PrivilegedAction::GradientAggregated)));
    let (s, a) = trainer.round_step(s, RoundEvent::Witnessed(Ok(WitnessRecord::new([0u8; 64]))));
    match a {
        RoundAction::Finish(Ok(g)) => assert_eq!(g.as_slice(), &[b(2.0)]),
        _ => panic!("expected the aggregate"),
    }
    assert!(matches!(s, RoundState::Done));

    let (s, _) = trainer.round_start(Gradient::from_local(vec![]), vec![]);
    let (_, a) = trainer.round_step(s, RoundEvent::Aggregated(Err(DomainError::Invalid("x".into()))));
    assert!(matches!(a, RoundAction::Finish(Err(DomainError::Invalid(_)))));
}
