//! The decision kernel: given the building's net thermal position and its strategy, offer, bid
//! or hold. Nothing here enforces governance; these functions only propose.
//!
//! The net position `surplus - deficit - reserve` and the two prices are float arithmetic over
//! the forecast; the caller computes them and this module takes the decision on them.

use vstd::prelude::*;

use crate::binary32::{below, negated, Binary32};
use crate::consensus::ThermalTradeAgreement;
use crate::governance::TRADE_WINDOW_HOURS;
use crate::ids::copy_route;
use crate::market::{
    AcceptedTrade, Bid, Decision, Kwh, Offer, Price, ProposedTrade, Strategy, ThermalBalance,
    TradeWindow,
};

verus! {

/// A pure pricing service: the asking and bidding prices for a strategy under a forecast.
pub struct PricingService;

/// `hours` clamped into `1 ..= TRADE_WINDOW_HOURS`.
pub open spec fn clamp_hours(hours: u32) -> u32 {
    if hours < 1 {
        1
    } else if hours > TRADE_WINDOW_HOURS {
        TRADE_WINDOW_HOURS
    } else {
        hours
    }
}

/// `hours` is the window a strategy asking for `wanted` hours trades over: within one hour and
/// the ceiling, the asked length when that lies within, the ceiling when more is asked, one hour
/// when none is.
pub open spec fn window_for(wanted: u32, hours: u32) -> bool {
    &&& 1 <= hours <= TRADE_WINDOW_HOURS
    &&& 1 <= wanted <= TRADE_WINDOW_HOURS ==> hours == wanted
    &&& wanted > TRADE_WINDOW_HOURS ==> hours == TRADE_WINDOW_HOURS
    &&& wanted == 0 ==> hours == 1
}

/// A trade window clamped to the governance ceiling and at least one hour.
pub fn clamped_window(strategy: &Strategy) -> (r: TradeWindow)
    ensures
        r@ == clamp_hours(strategy.window_hours),
        window_for(strategy.window_hours, r@),
{
    let hours = if strategy.window_hours < 1 {
        1
    } else if strategy.window_hours > TRADE_WINDOW_HOURS {
        TRADE_WINDOW_HOURS
    } else {
        strategy.window_hours
    };
    match TradeWindow::new(hours) {
        Ok(w) => w,
        Err(_) => vstd::pervasive::unreached(),
    }
}

/// The decision taken on a net position `net`: sell `net` when it exceeds the offer threshold,
/// buy `-net` when it is below minus the bid threshold, otherwise hold.
pub open spec fn decision_on_net(
    balance: ThermalBalance,
    strategy: Strategy,
    net: Binary32,
    offer_price: Price,
    bid_price: Price,
    window: TradeWindow,
) -> Decision {
    if below(strategy.offer_threshold_kwh, net) {
        Decision::Offer(
            Offer { seller: balance.node_id, kwh: Kwh(net), price: offer_price, window: window },
        )
    } else if below(net, negated(strategy.bid_threshold_kwh)) {
        Decision::Bid(
            Bid {
                buyer: balance.node_id,
                kwh: Kwh(negated(net)),
                max_price: bid_price,
                window: window,
            },
        )
    } else {
        Decision::Hold
    }
}

/// The reasoning kernel on a computed net position `net = surplus - deficit - reserve need`,
/// with the prices the pricing service asks (`offer_price`) and will pay (`bid_price`).
pub fn decide_on_net(
    balance: &ThermalBalance,
    strategy: &Strategy,
    net: Binary32,
    offer_price: Price,
    bid_price: Price,
) -> (r: Decision)
    ensures
        r is Offer <==> below(strategy.offer_threshold_kwh, net),
        r is Bid <==> !below(strategy.offer_threshold_kwh, net) && below(
            net,
            negated(strategy.bid_threshold_kwh),
        ),
        r is Hold <==> !below(strategy.offer_threshold_kwh, net) && !below(
            net,
            negated(strategy.bid_threshold_kwh),
        ),
        r matches Decision::Offer(o) ==> o.seller == balance.node_id && o.kwh == Kwh(net)
            && o.price == offer_price && window_for(strategy.window_hours, o.window@),
        r matches Decision::Bid(b) ==> b.buyer == balance.node_id && b.kwh == Kwh(negated(net))
            && b.max_price == bid_price && window_for(strategy.window_hours, b.window@),
        exists|w: TradeWindow|
            w@ == clamp_hours(strategy.window_hours) && r == decision_on_net(
                *balance,
                *strategy,
                net,
                offer_price,
                bid_price,
                w,
            ),
{
    let window = clamped_window(strategy);
    if net.gt(strategy.offer_threshold_kwh) {
        Decision::Offer(
            Offer { seller: balance.node_id.clone(), kwh: Kwh(net), price: offer_price, window },
        )
    } else if net.lt(strategy.bid_threshold_kwh.neg()) {
        Decision::Bid(
            Bid {
                buyer: balance.node_id.clone(),
                kwh: Kwh(net.neg()),
                max_price: bid_price,
                window,
            },
        )
    } else {
        Decision::Hold
    }
}

/// `p` is the proposal a decision lowers to: the decision's own party on both sides (the
/// counterparty is bound at acceptance), its kWh, price and window, and an empty route.
pub open spec fn proposal_of(decision: Decision, p: ProposedTrade) -> bool {
    match decision {
        Decision::Offer(o) => p.seller == o.seller && p.buyer == o.seller && p.kwh == o.kwh
            && p.price == o.price && p.window == o.window && p.pipe_route@.len() == 0,
        Decision::Bid(b) => p.seller == b.buyer && p.buyer == b.buyer && p.kwh == b.kwh
            && p.price == b.max_price && p.window == b.window && p.pipe_route@.len() == 0,
        Decision::Hold => false,
    }
}

/// Lower a decision to the `ProposedTrade` the governance gate checks. `Hold` proposes nothing.
pub fn to_proposed(decision: &Decision) -> (r: Option<ProposedTrade>)
    ensures
        r is None <==> decision is Hold,
        r matches Some(p) ==> proposal_of(*decision, p),
{
    match decision {
        Decision::Offer(o) => Some(
            ProposedTrade {
                seller: o.seller.clone(),
                buyer: o.seller.clone(),
                kwh: o.kwh,
                price: o.price,
                window: o.window,
                pipe_route: Vec::new(),
            },
        ),
        Decision::Bid(b) => Some(
            ProposedTrade {
                seller: b.buyer.clone(),
                buyer: b.buyer.clone(),
                kwh: b.kwh,
                price: b.max_price,
                window: b.window,
                pipe_route: Vec::new(),
            },
        ),
        Decision::Hold => None,
    }
}

/// `g` is the consensus agreement for an accepted trade: its parties, kWh, window length and
/// price, the accepted route, valid from the acceptance instant.
pub open spec fn agreement_of(accepted: AcceptedTrade, g: ThermalTradeAgreement) -> bool {
    &&& g.seller == accepted.proposed.seller
    &&& g.buyer == accepted.proposed.buyer
    &&& g.kwh_offered == accepted.proposed.kwh.0
    &&& g.duration_hours == accepted.proposed.window@
    &&& g.credit_price_per_kwh == accepted.proposed.price.credit_per_kwh
    &&& g.pipe_route@ == accepted.pipe_route@
    &&& g.valid_from == accepted.accepted_at
}

/// Map an accepted trade to the consensus context's `ThermalTradeAgreement`.
pub fn to_agreement(accepted: &AcceptedTrade) -> (r: ThermalTradeAgreement)
    ensures
        agreement_of(*accepted, r),
{
    let p = &accepted.proposed;
    ThermalTradeAgreement {
        seller: p.seller.clone(),
        buyer: p.buyer.clone(),
        kwh_offered: p.kwh.0,
        duration_hours: p.window.hours(),
        credit_price_per_kwh: p.price.credit_per_kwh,
        pipe_route: copy_route(&accepted.pipe_route),
        valid_from: accepted.accepted_at,
    }
}

/// Law: the kernel sells exactly when the net position exceeds the offer threshold, buys exactly
/// when it does not and lies strictly below minus the bid threshold, and holds otherwise. An
/// offer sells the whole net position at the asking price, a bid buys its opposite at the bid
/// price, both for the building itself over the clamped window.
pub proof fn law_decision_follows_thresholds(
    balance: ThermalBalance,
    strategy: Strategy,
    net: Binary32,
    offer_price: Price,
    bid_price: Price,
    window: TradeWindow,
)
    ensures
        decision_on_net(balance, strategy, net, offer_price, bid_price, window) is Offer
            <==> below(strategy.offer_threshold_kwh, net),
        decision_on_net(balance, strategy, net, offer_price, bid_price, window) is Bid <==> !below(
            strategy.offer_threshold_kwh,
            net,
        ) && below(net, negated(strategy.bid_threshold_kwh)),
        decision_on_net(balance, strategy, net, offer_price, bid_price, window) is Hold <==> !below(
            strategy.offer_threshold_kwh,
            net,
        ) && !below(net, negated(strategy.bid_threshold_kwh)),
        decision_on_net(balance, strategy, net, offer_price, bid_price, window) matches Decision::Offer(o)
            ==> o.seller == balance.node_id && o.kwh == Kwh(net) && o.price == offer_price && o.window
            == window,
        decision_on_net(balance, strategy, net, offer_price, bid_price, window) matches Decision::Bid(b)
            ==> b.buyer == balance.node_id && b.kwh == Kwh(negated(net)) && b.max_price == bid_price
            && b.window == window,
{
}

/// Law: the clamped window lies within one hour and the ceiling, keeps a length that already
/// does, and takes the nearest bound otherwise.
pub proof fn law_window_is_clamped(wanted: u32)
    ensures
        window_for(wanted, clamp_hours(wanted)),
{
}

} // verus!
