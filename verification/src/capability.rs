//! Node isolation & security value objects: scoped, expiring capabilities.

use vstd::prelude::*;

use crate::ids::{NodeId, Timestamp};

verus! {

/// Access rights granted by a capability. The pilot needs only `Read`.
#[derive(Clone, Copy, Debug, PartialEq, Eq, Structural)]
pub enum Rights {
    Read,
}

/// What a capability grants access to. `Raw` must not cross a partition boundary; only
/// `AggregatedThermalAvailability` may.
#[derive(Clone, Copy, Debug, PartialEq, Eq, Structural)]
pub enum Scope {
    Raw,
    AggregatedThermalAvailability,
}

/// Capability expiry. Capabilities are short-lived to bound exposure.
#[derive(Clone, Copy, Debug, PartialEq, Eq, Structural)]
pub enum Expiry {
    /// Absolute expiry timestamp (ns), checked against an injected clock.
    At(Timestamp),
}

/// An unforgeable, scoped, expiring capability token.
#[derive(Clone, Copy, Debug, PartialEq, Eq, Structural)]
pub struct Capability {
    pub rights: Rights,
    pub scope: Scope,
    pub expiry: Expiry,
}

impl Capability {
    /// True if this capability has expired as of `now`: strictly after its expiry instant.
    pub fn is_expired(&self, now: Timestamp) -> (r: bool)
        ensures
            r == match self.expiry {
                Expiry::At(t) => now.0 > t.0,
            },
    {
        match self.expiry {
            Expiry::At(t) => now.0 > t.0,
        }
    }
}

/// A request to read across a partition boundary.
#[derive(Clone, Debug, PartialEq, Eq)]
pub struct AccessRequest {
    pub requester: NodeId,
    pub target: NodeId,
    pub scope: Scope,
}

/// The capability gate's decision (distinct from the market `Decision`).
#[derive(Clone, Debug, PartialEq, Eq)]
pub enum AccessDecision {
    Allow,
    Deny(String),
}

} // verus!
