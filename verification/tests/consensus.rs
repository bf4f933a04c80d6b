use hoforras::binary32::Binary32;
use hoforras::canonical::agreement_bytes;
use hoforras::consensus::{DagEntry, Finality, MlDsaSignature, ThermalTradeAgreement};
use hoforras::error::DomainError;
use hoforras::ids::{JunctionId, NodeId, Timestamp};
use hoforras::trade_consensus::gateway::{
    begin_finalize, boundary_check, finalize_step, ConsensusGateway, FinalizeAction,
    FinalizeEvent, FinalizeState,
};
use hoforras::trade_consensus::qudag::{QuDagAdapter, ML_DSA_65_PK_LEN, ML_DSA_65_SIG_LEN};

fn b(x: f32) -> Binary32 {
    Binary32(x.to_bits())
}

fn agreement() -> ThermalTradeAgreement {
    ThermalTradeAgreement {
        seller: NodeId::new("pozsonyi14.thermal.budapest.dark".to_string()).unwrap(),
        buyer: NodeId::new("pozsonyi22.thermal.budapest.dark".to_string()).unwrap(),
        kwh_offered: b(40.0),
        duration_hours: 6,
        credit_price_per_kwh: b(2.3),
        pipe_route: vec![JunctionId(7), JunctionId(12), JunctionId(18)],
        valid_from: Timestamp(0),
    }
}

fn trade(duration_hours: u32) -> ThermalTradeAgreement {
    let mut t = agreement();
    t.duration_hours = duration_hours;
    t
}

// The canonical bytes of an agreement: its fields in declaration order, encoded with `postcard`
// (node ids as their text, amounts as `f32`, junctions as `u32`, the timestamp as `u64`).
fn message(a: &ThermalTradeAgreement) -> Vec<u8> {
    let route: Vec<u32> = a.pipe_route.iter().map(|j| j.0).collect();
    postcard::to_allocvec(&(
        a.seller.as_str(),
        a.buyer.as_str(),
        f32::from_bits(a.kwh_offered.bits()),
        a.duration_hours,
        f32::from_bits(a.credit_price_per_kwh.bits()),
        route,
        a.valid_from.0,
    ))
    .unwrap()
}

#[test]
fn sign_attaches_ml_dsa_signature_that_verifies() {
    let adapter = QuDagAdapter::new().unwrap();
    let signed = adapter.sign(DagEntry::new(agreement())).unwrap();
    assert!(signed.signature.is_some());
    assert_eq!(signed.signature.as_ref().unwrap().0.len(), ML_DSA_65_SIG_LEN);
    assert!(adapter.verify(&signed));
}

#[test]
fn unsigned_entry_does_not_verify() {
    let adapter = QuDagAdapter::new().unwrap();
    assert!(!adapter.verify(&DagEntry::new(agreement())));
}

#[test]
fn ml_dsa_sign_then_verify_roundtrips() {
    let adapter = QuDagAdapter::new().unwrap();
    let signed = adapter.sign(DagEntry::new(agreement())).unwrap();
    assert!(adapter.verify(&signed));
}

#[test]
fn mutating_a_signed_entry_breaks_verification() {
    let adapter = QuDagAdapter::new().unwrap();
    let signed = adapter.sign(DagEntry::new(agreement())).unwrap();

    let mut tampered = signed.clone();
    tampered.agreement.kwh_offered = b(41.0);
    assert!(!adapter.verify(&tampered));

    let mut rerouted = signed.clone();
    rerouted.agreement.pipe_route.push(JunctionId(99));
    assert!(!adapter.verify(&rerouted));

    assert!(adapter.verify(&signed));
}

#[test]
fn a_signature_of_the_wrong_length_never_verifies() {
    let adapter = QuDagAdapter::new().unwrap();
    let mut entry = DagEntry::new(agreement());
    entry.signature = Some(MlDsaSignature(vec![1, 2, 3]));
    assert!(!adapter.verify(&entry));
}

#[test]
fn another_key_does_not_verify() {
    let signer = QuDagAdapter::new().unwrap();
    let other = QuDagAdapter::new().unwrap();
    let signed = signer.sign(DagEntry::new(agreement())).unwrap();
    assert!(!other.verify(&signed));
    assert_eq!(signer.public_key_bytes().len(), ML_DSA_65_PK_LEN);
}

#[test]
fn broadcast_refuses_unsigned_entries() {
    let adapter = QuDagAdapter::new().unwrap();
    match adapter.broadcast_and_await_consensus(&DagEntry::new(agreement())) {
        Err(DomainError::Verification(m)) => {
            assert_eq!(m, "refusing to broadcast an unsigned DAG entry")
        }
        _ => panic!("expected a verification error"),
    }
    let signed = adapter.sign(DagEntry::new(agreement())).unwrap();
    let finality = adapter.broadcast_and_await_consensus(&signed).unwrap();
    assert_eq!(finality.reached_at, Timestamp(0));
}

#[test]
fn resolve_peer_requires_dark_domain() {
    let adapter = QuDagAdapter::new().unwrap();
    let addr = adapter.resolve("pozsonyi22.thermal.budapest.dark".to_string()).unwrap();
    assert_eq!(addr.0, "kad://pozsonyi22.thermal.budapest.dark");
    match adapter.resolve("pozsonyi22.example.com".to_string()) {
        Err(DomainError::Invalid(m)) => {
            assert_eq!(m, "peer must be a .dark domain, got `pozsonyi22.example.com`")
        }
        _ => panic!("expected an invalid-input error"),
    }
}

#[test]
fn boundary_accepts_six_hours_rejects_seven() {
    assert!(boundary_check(&trade(6)).is_ok());
    assert!(matches!(boundary_check(&trade(7)), Err(DomainError::Governance(_))));
}

#[test]
fn boundary_rejects_nonpositive_kwh() {
    let mut t = trade(6);
    t.kwh_offered = b(0.0);
    assert!(matches!(boundary_check(&t), Err(DomainError::Invalid(_))));
    t.kwh_offered = b(f32::NAN);
    assert!(matches!(boundary_check(&t), Err(DomainError::Invalid(_))));
}

#[test]
fn boundary_messages_name_the_broken_rule() {
    match boundary_check(&trade(7)) {
        Err(DomainError::Governance(m)) => {
            assert_eq!(m, "trade duration 7h exceeds the 6h governance ceiling")
        }
        _ => panic!("expected a governance error"),
    }
    let mut t = trade(6);
    t.kwh_offered = b(f32::INFINITY);
    match boundary_check(&t) {
        Err(DomainError::Invalid(m)) => assert_eq!(m, "kwh_offered must be positive and finite"),
        _ => panic!("expected an invalid-input error"),
    }
    let mut t = trade(6);
    t.credit_price_per_kwh = b(-0.5);
    match boundary_check(&t) {
        Err(DomainError::Invalid(m)) => {
            assert_eq!(m, "credit_price_per_kwh must be non-negative and finite")
        }
        _ => panic!("expected an invalid-input error"),
    }
    let mut t = trade(6);
    t.credit_price_per_kwh = b(0.0);
    assert!(boundary_check(&t).is_ok());
}

#[test]
fn finalize_signs_then_broadcasts() {
    let (s, a) = begin_finalize(agreement());
    let entry = match a {
        FinalizeAction::Sign(e) => e,
        _ => panic!("expected signing first"),
    };
    assert!(entry.signature.is_none());
    let adapter = QuDagAdapter::new().unwrap();
    let signed = adapter.sign(entry).unwrap();
    let (s, a) = finalize_step(s, FinalizeEvent::Signed(Ok(signed)));
    let to_broadcast = match a {
        FinalizeAction::Broadcast(e) => e,
        _ => panic!("expected the broadcast of the signed entry"),
    };
    assert!(to_broadcast.signature.is_some());
    let finality = adapter.broadcast_and_await_consensus(&to_broadcast);
    let (s, a) = finalize_step(s, FinalizeEvent::Broadcasted(finality));
    assert!(matches!(a, FinalizeAction::Finish(Ok(Finality { reached_at: Timestamp(0) }))));
    assert!(matches!(s, FinalizeState::Done));
}

#[test]
fn boundary_rejects_overlong_duration() {
    let (s, a) = begin_finalize(trade(7));
    assert!(matches!(a, FinalizeAction::Finish(Err(DomainError::Governance(_)))));
    assert!(matches!(s, FinalizeState::Done));
}

#[test]
fn a_failed_signature_ends_finalizing() {
    let (s, _) = begin_finalize(agreement());
    let (s, a) = finalize_step(s, FinalizeEvent::Signed(Err(DomainError::Adapter("x".to_string()))));
    assert!(matches!(a, FinalizeAction::Finish(Err(DomainError::Adapter(_)))));
    let (_, a) = finalize_step(s, FinalizeEvent::Broadcasted(Ok(Finality { reached_at: Timestamp(1) })));
    assert!(matches!(a, FinalizeAction::Ignore));
}

#[test]
fn gateway_holds_its_ports() {
    let gw = ConsensusGateway::new(1u8, 2u16, 3u32);
    assert_eq!(*gw.signer(), 1);
    assert_eq!(*gw.network(), 2);
    assert_eq!(*gw.discovery(), 3);
}

#[test]
fn canonical_bytes_are_the_postcard_encoding_of_the_fields() {
    let a = agreement();
    assert_eq!(agreement_bytes(&a).unwrap(), message(&a));
    let mut other = agreement();
    other.kwh_offered = b(41.0);
    assert_ne!(agreement_bytes(&other).unwrap(), message(&a));
}

#[test]
fn a_signed_entry_keeps_its_agreement() {
    let adapter = QuDagAdapter::new().unwrap();
    let signed = adapter.sign(DagEntry::new(agreement())).unwrap();
    assert_eq!(signed.agreement, agreement());
}
