//! The ThermalSense-Bridge: exactly five published MCP tools, each routed to exactly one backing
//! service. An unknown tool is refused before any service is touched.
//!
//! Booting is a small state machine ([`BootState`]): register each published tool in order and stop
//! at the first refusal. Invoking is a decision ([`ThermalBridgeServer::route`]) from the tool name
//! and whether the registry knows it to the one backing service that answers.

use vstd::prelude::*;

use crate::error::DomainError;
use crate::text::{concat2, same_text};

verus! {

/// The five, and only five, tools the bridge publishes.
pub const TOOL_NAMES: [&'static str; 5] = [
    "hoforras.thermal.district_status",
    "hoforras.trade.active_agreements",
    "hoforras.pipe.health_scores",
    "hoforras.anomaly.recent",
    "hoforras.forecast.demand_24h",
];

/// The published tool names, as text.
pub open spec fn published_tools() -> Seq<Seq<char>> {
    seq![
        "hoforras.thermal.district_status"@,
        "hoforras.trade.active_agreements"@,
        "hoforras.pipe.health_scores"@,
        "hoforras.anomaly.recent"@,
        "hoforras.forecast.demand_24h"@,
    ]
}


/// The backing service a tool is answered by.
#[derive(Clone, Copy, Debug, PartialEq, Eq, Structural)]
pub enum BackingService {
    /// District status snapshot.
    DistrictStatus,
    /// Active trade agreements.
    TradeQuery,
    /// Pipe health scores.
    PipeHealth,
    /// Recent anomalies (takes the call's arguments).
    AnomalyQuery,
    /// 24-hour demand forecast (takes the call's arguments).
    ForecastQuery,
}

/// The one backing service that answers `name`, if the bridge routes it.
pub open spec fn service_of(name: Seq<char>) -> Option<BackingService> {
    if name == "hoforras.thermal.district_status"@ {
        Some(BackingService::DistrictStatus)
    } else if name == "hoforras.trade.active_agreements"@ {
        Some(BackingService::TradeQuery)
    } else if name == "hoforras.pipe.health_scores"@ {
        Some(BackingService::PipeHealth)
    } else if name == "hoforras.anomaly.recent"@ {
        Some(BackingService::AnomalyQuery)
    } else if name == "hoforras.forecast.demand_24h"@ {
        Some(BackingService::ForecastQuery)
    } else {
        None
    }
}

/// The error text for a tool the registry does not know.
pub open spec fn unknown_tool_message(name: Seq<char>) -> Seq<char> {
    "unknown tool: "@ + name
}

/// The error text for a registered tool the bridge does not route.
pub open spec fn unrouted_tool_message(name: Seq<char>) -> Seq<char> {
    "unrouted tool: "@ + name
}

/// The open host service over a tool registry and its five backing services.
pub struct ThermalBridgeServer<R, ST, TR, PI, AN, FO> {
    registry: R,
    status: ST,
    trade: TR,
    pipe: PI,
    anomaly: AN,
    forecast: FO,
}

impl<R, ST, TR, PI, AN, FO> ThermalBridgeServer<R, ST, TR, PI, AN, FO> {
    /// The tool registry.
    pub closed spec fn registry_spec(&self) -> R {
        self.registry
    }

    /// The district status service.
    pub closed spec fn status_spec(&self) -> ST {
        self.status
    }

    /// The trade query service.
    pub closed spec fn trade_spec(&self) -> TR {
        self.trade
    }

    /// The pipe health service.
    pub closed spec fn pipe_spec(&self) -> PI {
        self.pipe
    }

    /// The anomaly query service.
    pub closed spec fn anomaly_spec(&self) -> AN {
        self.anomaly
    }

    /// The forecast query service.
    pub closed spec fn forecast_spec(&self) -> FO {
        self.forecast
    }

    /// A bridge over `registry` and the five backing services.
    pub fn new(registry: R, status: ST, trade: TR, pipe: PI, anomaly: AN, forecast: FO) -> (r: Self)
        ensures
            r.registry_spec() == registry,
            r.status_spec() == status,
            r.trade_spec() == trade,
            r.pipe_spec() == pipe,
            r.anomaly_spec() == anomaly,
            r.forecast_spec() == forecast,
    {
        ThermalBridgeServer { registry, status, trade, pipe, anomaly, forecast }
    }

    /// The tool registry.
    pub fn registry(&self) -> (r: &R)
        ensures
            *r == self.registry_spec(),
    {
        &self.registry
    }

    /// The district status service.
    pub fn status(&self) -> (r: &ST)
        ensures
            *r == self.status_spec(),
    {
        &self.status
    }

    /// The trade query service.
    pub fn trade(&self) -> (r: &TR)
        ensures
            *r == self.trade_spec(),
    {
        &self.trade
    }

    /// The pipe health service.
    pub fn pipe(&self) -> (r: &PI)
        ensures
            *r == self.pipe_spec(),
    {
        &self.pipe
    }

    /// The anomaly query service.
    pub fn anomaly(&self) -> (r: &AN)
        ensures
            *r == self.anomaly_spec(),
    {
        &self.anomaly
    }

    /// The forecast query service.
    pub fn forecast(&self) -> (r: &FO)
        ensures
            *r == self.forecast_spec(),
    {
        &self.forecast
    }

    /// Decide who answers a call of tool `name`, given whether the registry knows it. A tool the
    /// registry does not know is refused and no service is consulted; a known tool goes to exactly
    /// its one backing service; a known tool the bridge does not route (registry and bridge have
    /// drifted apart) is refused too.
    pub fn route(&self, name: &str, registered: bool) -> (r: Result<BackingService, DomainError>)
        ensures
            !registered ==> (r matches Err(DomainError::NotFound(m)) && m@ == unknown_tool_message(
                name@,
            )),
            registered && service_of(name@) is Some ==> r == Ok::<BackingService, DomainError>(
                service_of(name@)->0,
            ),
            registered && service_of(name@) is None ==> (r matches Err(DomainError::NotFound(m))
                && m@ == unrouted_tool_message(name@)),
    {
        if !registered {
            return Err(DomainError::NotFound(concat2("unknown tool: ", name)));
        }
        if same_text(name, "hoforras.thermal.district_status") {
            Ok(BackingService::DistrictStatus)
        } else if same_text(name, "hoforras.trade.active_agreements") {
            Ok(BackingService::TradeQuery)
        } else if same_text(name, "hoforras.pipe.health_scores") {
            Ok(BackingService::PipeHealth)
        } else if same_text(name, "hoforras.anomaly.recent") {
            Ok(BackingService::AnomalyQuery)
        } else if same_text(name, "hoforras.forecast.demand_24h") {
            Ok(BackingService::ForecastQuery)
        } else {
            Err(DomainError::NotFound(concat2("unrouted tool: ", name)))
        }
    }
}

/// Where booting stands.
pub enum BootState {
    /// Waiting for the registry to acknowledge published tool number `next`.
    Registering { next: usize },
    /// Over.
    Done,
}

/// What the registry answered to the last registration.
pub enum BootEvent {
    /// The tool was registered.
    Registered,
    /// The registry refused; booting ends with this error.
    Refused(DomainError),
}

/// What the runner must do next.
pub enum BootAction {
    /// Register this tool name.
    Register(String),
    /// Booting ends with this result.
    Finish(Result<(), DomainError>),
}

/// A boot state the machine can be in: a registration index within the published set.
pub open spec fn boot_valid(s: BootState) -> bool {
    s matches BootState::Registering { next } ==> next < 5
}

/// The state after `event`.
pub open spec fn boot_next(s: BootState, event: BootEvent) -> BootState {
    match s {
        BootState::Registering { next } => match event {
            BootEvent::Registered => if next + 1 < 5 {
                BootState::Registering { next: (next + 1) as usize }
            } else {
                BootState::Done
            },
            BootEvent::Refused(_) => BootState::Done,
        },
        BootState::Done => BootState::Done,
    }
}

/// The state a boot reaches after answering `events`, in order.
pub open spec fn boot_run(events: Seq<BootEvent>) -> BootState
    decreases events.len(),
{
    if events.len() == 0 {
        BootState::Registering { next: 0 }
    } else {
        boot_next(boot_run(events.drop_last()), events.last())
    }
}

impl<R, ST, TR, PI, AN, FO> ThermalBridgeServer<R, ST, TR, PI, AN, FO> {
    /// Start booting: register the first published tool.
    pub fn boot_start(&self) -> (r: (BootState, BootAction))
        ensures
            r.0 == (BootState::Registering { next: 0 }),
            r.1 matches BootAction::Register(n) && n@ == published_tools()[0],
    {
        proof {
            lemma_tool_names_published();
        }
        (BootState::Registering { next: 0 }, BootAction::Register(String::from_str(TOOL_NAMES[0])))
    }

    /// Advance booting on the registry's answer: after each acknowledgement register the next
    /// published tool, in order; after the fifth, boot succeeds; a refusal ends booting with that
    /// error.
    pub fn boot_step(&self, state: BootState, event: BootEvent) -> (r: (BootState, BootAction))
        requires
            state is Registering,
            boot_valid(state),
        ensures
            r.0 == boot_next(state, event),
            boot_valid(r.0),
            r.0 matches BootState::Registering { next } ==> (r.1 matches BootAction::Register(n)
                && n@ == published_tools()[next as int]),
            event matches BootEvent::Refused(e) ==> r.1 == BootAction::Finish(
                Err::<(), DomainError>(e),
            ),
            (event is Registered && state->next == 4) ==> r.1 == BootAction::Finish(
                Ok::<(), DomainError>(()),
            ),
    {
        proof {
            lemma_tool_names_published();
        }
        let next = match state {
            BootState::Registering { next } => next,
            BootState::Done => 0,
        };
        match event {
            BootEvent::Refused(e) => (BootState::Done, BootAction::Finish(Err(e))),
            BootEvent::Registered => {
                if next + 1 < 5 {
                    let n = next + 1;
                    (BootState::Registering { next: n }, BootAction::Register(String::from_str(TOOL_NAMES[n])))
                } else {
                    (BootState::Done, BootAction::Finish(Ok(())))
                }
            },
        }
    }
}

/// Law: while every registration is acknowledged, booting registers the published tools one after
/// another, and it finishes only once all five have been acknowledged.
pub proof fn law_boot_finishes_after_all_five(events: Seq<BootEvent>)
    requires
        forall|i: int| 0 <= i < events.len() ==> #[trigger] events[i] is Registered,
    ensures
        boot_run(events) is Done <==> events.len() >= 5,
        boot_run(events) matches BootState::Registering { next } ==> next == events.len(),
    decreases events.len(),
{
    if events.len() > 0 {
        let prev = events.drop_last();
        assert forall|i: int| 0 <= i < prev.len() implies #[trigger] prev[i] is Registered by {
            assert(prev[i] == events[i]);
        }
        law_boot_finishes_after_all_five(prev);
        assert(events.last() is Registered) by {
            assert(events[events.len() - 1] is Registered);
        }
    }
}

/// The published tools are the constant's entries, in order.
pub proof fn lemma_tool_names_published()
    ensures
        TOOL_NAMES@.len() == 5,
        forall|i: int| 0 <= i < 5 ==> (#[trigger] TOOL_NAMES@[i])@ == published_tools()[i],
{
}


/// The published tools are pairwise distinct texts.
proof fn lemma_published_distinct()
    ensures
        forall|i: int, j: int|
            0 <= i < 5 && 0 <= j < 5 && i != j ==> #[trigger] published_tools()[i]
                != #[trigger] published_tools()[j],
{
    reveal_strlit("hoforras.thermal.district_status");
    reveal_strlit("hoforras.trade.active_agreements");
    reveal_strlit("hoforras.pipe.health_scores");
    reveal_strlit("hoforras.anomaly.recent");
    reveal_strlit("hoforras.forecast.demand_24h");
    let p = published_tools();
    assert(p[0][10] != p[1][10]);
    assert(p[0].len() != p[2].len());
    assert(p[0].len() != p[3].len());
    assert(p[0].len() != p[4].len());
    assert(p[1].len() != p[2].len());
    assert(p[1].len() != p[3].len());
    assert(p[1].len() != p[4].len());
    assert(p[2].len() != p[3].len());
    assert(p[2].len() != p[4].len());
    assert(p[3].len() != p[4].len());
}

/// Law: the bridge routes each published tool to exactly one backing service, no two published
/// tools share a service, and no name outside the published set reaches any service.
pub proof fn law_published_tools_route_one_to_one()
    ensures
        forall|i: int| 0 <= i < 5 ==> (#[trigger] service_of(published_tools()[i])) is Some,
        forall|i: int, j: int|
            0 <= i < 5 && 0 <= j < 5 && i != j ==> #[trigger] service_of(published_tools()[i])
                != #[trigger] service_of(published_tools()[j]),
        forall|n: Seq<char>| (#[trigger] service_of(n)) is Some ==> published_tools().contains(n),
{
    lemma_published_distinct();
    let p = published_tools();
    assert(service_of(p[0]) == Some(BackingService::DistrictStatus));
    assert(service_of(p[1]) == Some(BackingService::TradeQuery));
    assert(service_of(p[2]) == Some(BackingService::PipeHealth));
    assert(service_of(p[3]) == Some(BackingService::AnomalyQuery));
    assert(service_of(p[4]) == Some(BackingService::ForecastQuery));
    assert forall|n: Seq<char>| (#[trigger] service_of(n)) is Some implies p.contains(n) by {
        if n == p[0] {
            assert(p[0] == n);
        } else if n == p[1] {
            assert(p[1] == n);
        } else if n == p[2] {
            assert(p[2] == n);
        } else if n == p[3] {
            assert(p[3] == n);
        } else {
            assert(p[4] == n);
        }
    }
}

} // verus!
