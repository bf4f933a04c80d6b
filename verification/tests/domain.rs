use hoforras::binary32::Binary32;
use hoforras::capability::{Capability, Expiry, Rights, Scope};
use hoforras::error::DomainError;
use hoforras::forecast::AgentProfile;
use hoforras::gradient::Gradient;
use hoforras::governance::governance;
use hoforras::ids::{NodeId, Timestamp};
use hoforras::market::TradeWindow;
use hoforras::memory::{Embedding, EMBEDDING_DIM};
use hoforras::recovery::{
    default_recovery_params, CAR_CO2E_KG_YR_BITS, HOME_HEATING_KWH_YR_BITS, TREE_CO2E_KG_YR_BITS,
};
use hoforras::witness::{WitnessRecord, WITNESS_RECORD_LEN};

fn b(x: f32) -> Binary32 {
    Binary32(x.to_bits())
}

fn f(x: Binary32) -> f32 {
    f32::from_bits(x.bits())
}

#[test]
fn node_id_requires_dark_domain() {
    assert!(NodeId::new("pozsonyi14.thermal.budapest.dark".to_string()).is_ok());
    assert!(NodeId::new("pozsonyi14.example.com".to_string()).is_err());
}

#[test]
fn governance_constants_match_spec() {
    let g = governance();
    assert_eq!(f(g.max_daily_thermal_transfer_kwh), 500.0);
    assert_eq!(f(g.min_safety_reserve_percent), 0.15);
    assert_eq!(f(g.pipe_pressure_ceiling_bar), 6.0);
    assert_eq!(g.trade_window_hours, 6);
}

#[test]
fn rejects_over_6h_window() {
    assert!(TradeWindow::new(7).is_err());
}

#[test]
fn gradient_round_trips_and_only_constructs_from_local() {
    let g = Gradient::from_local(vec![b(0.1), b(0.2), b(0.3)]);
    assert_eq!(g.len(), 3);
    assert_eq!(g.as_slice(), &[b(0.1), b(0.2), b(0.3)]);
}

#[test]
fn node_id_keeps_its_domain_and_names_a_rejected_one() {
    let id = NodeId::new("pozsonyi14.thermal.budapest.dark".to_string()).unwrap();
    assert_eq!(id.as_str(), "pozsonyi14.thermal.budapest.dark");
    match NodeId::new("pozsonyi14.example.com".to_string()) {
        Err(DomainError::Invalid(m)) => {
            assert_eq!(m, "NodeId must be a .dark domain, got `pozsonyi14.example.com`")
        }
        _ => panic!("expected an invalid-input error"),
    }
    assert!(NodeId::new(".dark".to_string()).is_ok());
    assert!(NodeId::new("x.darknet".to_string()).is_err());
    assert!(NodeId::new(String::new()).is_err());
}

#[test]
fn trade_window_accepts_one_to_six_hours() {
    assert_eq!(TradeWindow::new(1).unwrap().hours(), 1);
    assert_eq!(TradeWindow::new(6).unwrap().hours(), 6);
    match TradeWindow::new(0) {
        Err(DomainError::Governance(m)) => assert_eq!(m, "trade window 0h outside (0, 6h]"),
        _ => panic!("expected a governance error"),
    }
    match TradeWindow::new(7) {
        Err(DomainError::Governance(m)) => assert_eq!(m, "trade window 7h outside (0, 6h]"),
        _ => panic!("expected a governance error"),
    }
}

#[test]
fn domain_error_describes_each_variant() {
    let m = || "x".to_string();
    assert_eq!(DomainError::Invalid(m()).describe(), "invalid input: x");
    assert_eq!(DomainError::Denied(m()).describe(), "access denied: x");
    assert_eq!(DomainError::Governance(m()).describe(), "governance violation: x");
    assert_eq!(DomainError::Serialization(m()).describe(), "serialization error: x");
    assert_eq!(DomainError::Verification(m()).describe(), "verification failed: x");
    assert_eq!(DomainError::Adapter(m()).describe(), "adapter error: x");
    assert_eq!(DomainError::NotFound(m()).describe(), "not found: x");
}

#[test]
fn embedding_requires_128_dimensions() {
    assert_eq!(EMBEDDING_DIM, 128);
    let ok = Embedding::new(vec![b(0.5); 128]).unwrap();
    assert_eq!(ok.as_slice().len(), 128);
    assert_eq!(ok.as_slice()[7], b(0.5));
    match Embedding::new(vec![b(0.5); 3]) {
        Err(DomainError::Invalid(m)) => assert_eq!(m, "embedding must be 128-dim, got 3"),
        _ => panic!("expected an invalid-input error"),
    }
}

#[test]
fn capability_expires_strictly_after_its_instant() {
    let cap = Capability {
        rights: Rights::Read,
        scope: Scope::AggregatedThermalAvailability,
        expiry: Expiry::At(Timestamp(100)),
    };
    assert!(!cap.is_expired(Timestamp(99)));
    assert!(!cap.is_expired(Timestamp(100)));
    assert!(cap.is_expired(Timestamp(101)));
}

#[test]
fn binary32_compares_as_ieee_754() {
    assert!(b(1.0).lt(b(2.0)));
    assert!(b(-3.0).lt(b(-2.5)));
    assert!(!b(2.0).lt(b(2.0)));
    assert!(b(2.0).le(b(2.0)));
    assert!(b(0.0).same(b(-0.0)));
    assert!(!b(f32::NAN).same(b(f32::NAN)));
    assert!(!b(f32::NAN).lt(b(1.0)) && !b(1.0).lt(b(f32::NAN)));
    assert!(!b(f32::NAN).le(b(f32::NAN)));
    assert!(b(f32::NAN).is_nan());
    assert!(!b(f32::INFINITY).is_finite());
    assert!(b(-7.5).is_finite());
    assert_eq!(f(b(4.25).neg()), -4.25);
    assert_eq!(f(b(-4.25).neg()), 4.25);
    assert!(b(-1.0).lt(b(-0.0)));
    assert!(b(f32::NEG_INFINITY).lt(b(f32::MIN)));
    assert_eq!(f(Binary32::zero()), 0.0);
}

#[test]
fn agent_profile_defaults_to_thermal_lstm() {
    let p = AgentProfile::default();
    assert_eq!(p.specialization, "thermal_timeseries");
    assert_eq!(p.neural_model, "lstm");
    assert_eq!(f(p.analytical), 0.95);
    assert_eq!(f(p.systematic), 0.9);
}

#[test]
fn recovery_defaults_are_the_documented_coefficients() {
    let p = default_recovery_params();
    assert_eq!(f(p.recoverable_fraction), 0.65);
    assert_eq!(f(p.price_per_kwh), 0.12);
    assert_eq!(f(p.grid_emission_factor_kg_per_kwh), 0.23);
    assert_eq!(f(p.recovery_unit_min_loss_kwh_yr), 2000.0);
    assert_eq!(f(p.min_confidence_for_harvest), 0.5);
    assert_eq!(f(p.seed_sensor_cost), 180.0);
    assert_eq!(f(p.appliance_cost), 2200.0);
    assert_eq!(f(p.recovery_unit_cost), 8500.0);
    assert_eq!(f(p.install_cost_per_device), 450.0);
    assert_eq!(f(p.opex_fraction_of_capex), 0.06);
    assert_eq!(f32::from_bits(CAR_CO2E_KG_YR_BITS), 4600.0);
    assert_eq!(f32::from_bits(TREE_CO2E_KG_YR_BITS), 21.0);
    assert_eq!(f32::from_bits(HOME_HEATING_KWH_YR_BITS), 12_000.0);
}

#[test]
fn witness_record_keeps_its_bytes() {
    let mut bytes = [0u8; WITNESS_RECORD_LEN];
    bytes[0] = 7;
    bytes[63] = 9;
    let r = WitnessRecord::new(bytes);
    assert_eq!(r.as_bytes(), &bytes);
}
