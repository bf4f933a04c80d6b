//! Trade consensus value objects: agreements, signatures, DAG entries, finality.

use vstd::prelude::*;

use crate::binary32::Binary32;
use crate::ids::{copy_route, JunctionId, NodeId, Timestamp};

verus! {

/// A cross-building thermal trade agreement, encoded as a signed DAG entry.
#[derive(Debug, PartialEq)]
pub struct ThermalTradeAgreement {
    pub seller: NodeId,
    pub buyer: NodeId,
    pub kwh_offered: Binary32,
    pub duration_hours: u32,
    pub credit_price_per_kwh: Binary32,
    pub pipe_route: Vec<JunctionId>,
    pub valid_from: Timestamp,
}

/// An ML-DSA (post-quantum) signature over canonical bytes.
#[derive(Debug, PartialEq)]
pub struct MlDsaSignature(pub Vec<u8>);

/// A DAG entry: a payload plus an optional signature (set once signed).
#[derive(Debug, PartialEq)]
pub struct DagEntry {
    pub agreement: ThermalTradeAgreement,
    pub signature: Option<MlDsaSignature>,
}

/// The value of an agreement: seller, buyer, kWh, duration, price, route, start.
pub type AgreementValue = (Seq<char>, Seq<char>, Binary32, u32, Binary32, Seq<JunctionId>, Timestamp);

impl View for ThermalTradeAgreement {
    type V = AgreementValue;

    open spec fn view(&self) -> AgreementValue {
        (
            self.seller@,
            self.buyer@,
            self.kwh_offered,
            self.duration_hours,
            self.credit_price_per_kwh,
            self.pipe_route@,
            self.valid_from,
        )
    }
}

impl View for DagEntry {
    type V = (AgreementValue, Option<Seq<u8>>);

    open spec fn view(&self) -> (AgreementValue, Option<Seq<u8>>) {
        (
            self.agreement@,
            match self.signature {
                Some(s) => Some(s.0@),
                None => None,
            },
        )
    }
}

pub(crate) fn copy_bytes(bytes: &Vec<u8>) -> (r: Vec<u8>)
    ensures
        r@ == bytes@,
{
    let mut out: Vec<u8> = Vec::new();
    let mut i: usize = 0;
    while i < bytes.len()
        invariant
            i <= bytes@.len(),
            out@ == bytes@.subrange(0, i as int),
        decreases bytes.len() - i,
    {
        out.push(bytes[i]);
        i = i + 1;
    }
    assert(out@ =~= bytes@);
    out
}

impl Clone for ThermalTradeAgreement {
    fn clone(&self) -> (r: ThermalTradeAgreement)
        ensures
            r@ == self@,
            r.seller == self.seller,
            r.buyer == self.buyer,
    {
        ThermalTradeAgreement {
            seller: self.seller.clone(),
            buyer: self.buyer.clone(),
            kwh_offered: self.kwh_offered,
            duration_hours: self.duration_hours,
            credit_price_per_kwh: self.credit_price_per_kwh,
            pipe_route: copy_route(&self.pipe_route),
            valid_from: self.valid_from,
        }
    }
}

impl Clone for MlDsaSignature {
    fn clone(&self) -> (r: MlDsaSignature)
        ensures
            r.0@ == self.0@,
    {
        MlDsaSignature(copy_bytes(&self.0))
    }
}

impl Clone for DagEntry {
    fn clone(&self) -> (r: DagEntry)
        ensures
            r@ == self@,
    {
        let signature = match &self.signature {
            Some(s) => Some(s.clone()),
            None => None,
        };
        DagEntry { agreement: self.agreement.clone(), signature }
    }
}

impl DagEntry {
    /// An unsigned entry for `agreement`.
    pub fn new(agreement: ThermalTradeAgreement) -> (r: DagEntry)
        ensures
            r.agreement == agreement,
            r.signature is None,
    {
        DagEntry { agreement, signature: None }
    }
}

/// Consensus finality marker.
#[derive(Clone, Copy, Debug, PartialEq)]
pub struct Finality {
    pub reached_at: Timestamp,
}

/// A resolved peer network address (from `.dark` discovery).
#[derive(Clone, Debug, PartialEq, Eq)]
pub struct NodeAddr(pub String);

} // verus!
