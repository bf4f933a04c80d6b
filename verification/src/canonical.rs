//! The canonical bytes of a trade agreement: what its ML-DSA signature is taken over. The
//! encoding is deterministic and reproducible, so that signatures verify across Appliances and
//! software versions: `postcard` over the agreement's fields in declaration order (node ids as
//! their text, amounts as the four little-endian bytes of their IEEE pattern, hours, the route's
//! junction ids, the validity instant).

use vstd::prelude::*;

use crate::consensus::ThermalTradeAgreement;
use crate::error::DomainError;
use crate::ids::JunctionId;

verus! {

/// The `postcard` encoding (`postcard::to_allocvec`) of the tuple of an agreement's fields,
/// `None` when the encoder reports an error.
pub uninterp spec fn postcard_agreement(
    seller: Seq<char>,
    buyer: Seq<char>,
    kwh_bits: u32,
    duration_hours: u32,
    price_bits: u32,
    route: Seq<u32>,
    valid_from: u64,
) -> Option<Seq<u8>>;

/// Encodes the tuple of an agreement's fields with `postcard::to_allocvec` (each amount as the
/// four little-endian bytes of its bit pattern, which is how `postcard` writes an `f32`).
/// Claimed: the result is `postcard_agreement` of the fields; an encoder error comes back as its
/// text.
#[verifier::external_body]
fn encode_agreement(
    seller: &str,
    buyer: &str,
    kwh_bits: u32,
    duration_hours: u32,
    price_bits: u32,
    route: &[u32],
    valid_from: u64,
) -> (r: Result<Vec<u8>, String>)
    ensures
        r is Ok <==> postcard_agreement(
            seller@,
            buyer@,
            kwh_bits,
            duration_hours,
            price_bits,
            route@,
            valid_from,
        ) is Some,
        r matches Ok(bytes) ==> postcard_agreement(
            seller@,
            buyer@,
            kwh_bits,
            duration_hours,
            price_bits,
            route@,
            valid_from,
        ) == Some(bytes@),
{
    let fields =
        (seller, buyer, kwh_bits.to_le_bytes(), duration_hours, price_bits.to_le_bytes(), route, valid_from);
    postcard::to_allocvec(&fields).map_err(|e| e.to_string())
}

/// The junction ids of a route.
pub open spec fn route_ids(route: Seq<JunctionId>) -> Seq<u32> {
    route.map_values(|j: JunctionId| j.0)
}

/// The canonical bytes of an agreement, `None` when the encoder fails.
pub open spec fn agreement_message(a: ThermalTradeAgreement) -> Option<Seq<u8>> {
    postcard_agreement(
        a.seller@,
        a.buyer@,
        a.kwh_offered.0,
        a.duration_hours,
        a.credit_price_per_kwh.0,
        route_ids(a.pipe_route@),
        a.valid_from.0,
    )
}

fn junction_ids(route: &Vec<JunctionId>) -> (r: Vec<u32>)
    ensures
        r@ == route_ids(route@),
{
    let mut out: Vec<u32> = Vec::new();
    let mut i: usize = 0;
    while i < route.len()
        invariant
            i <= route@.len(),
            out@ == route_ids(route@.subrange(0, i as int)),
        decreases route.len() - i,
    {
        proof {
            assert(route_ids(route@.subrange(0, i + 1)) =~= route_ids(route@.subrange(0, i as int)).push(
                route@[i as int].0,
            ));
        }
        out.push(route[i].0);
        i = i + 1;
    }
    assert(route@.subrange(0, i as int) =~= route@);
    out
}

/// The canonical bytes of `agreement`. An encoder failure is a serialization error.
pub fn agreement_bytes(agreement: &ThermalTradeAgreement) -> (r: Result<Vec<u8>, DomainError>)
    ensures
        r is Ok <==> agreement_message(*agreement) is Some,
        r matches Ok(bytes) ==> agreement_message(*agreement) == Some(bytes@),
        r matches Err(e) ==> e is Serialization,
{
    let route = junction_ids(&agreement.pipe_route);
    match encode_agreement(
        agreement.seller.as_str(),
        agreement.buyer.as_str(),
        agreement.kwh_offered.0,
        agreement.duration_hours,
        agreement.credit_price_per_kwh.0,
        route.as_slice(),
        agreement.valid_from.0,
    ) {
        Ok(bytes) => Ok(bytes),
        Err(e) => Err(DomainError::Serialization(e)),
    }
}

} // verus!
