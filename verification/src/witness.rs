//! Witness / audit value objects.

use vstd::prelude::*;

use crate::governance::RuleId;
use crate::ids::NodeId;

verus! {

/// Length of a hash-chained witness record, in bytes.
pub const WITNESS_RECORD_LEN: usize = 64;

/// A privileged action that must be witnessed.
#[derive(Clone, Debug, PartialEq)]
pub enum PrivilegedAction {
    TradeSigned,
    Exec,
    Routing,
    ReadingAccepted,
    NodeIsolated { node: NodeId, reason: String },
    CrossPartitionRead,
    RuleRejection { rule: RuleId },
    GradientAggregated,
}

/// A 64-byte, hash-chained audit entry.
#[derive(Clone, Copy, Debug, PartialEq)]
pub struct WitnessRecord(pub [u8; WITNESS_RECORD_LEN]);

impl WitnessRecord {
    /// A record holding `bytes`.
    pub fn new(bytes: [u8; WITNESS_RECORD_LEN]) -> (r: WitnessRecord)
        ensures
            r.0 == bytes,
    {
        WitnessRecord(bytes)
    }

    /// The record's bytes.
    pub fn as_bytes(&self) -> (r: &[u8; WITNESS_RECORD_LEN])
        ensures
            *r == self.0,
    {
        &self.0
    }
}

} // verus!
