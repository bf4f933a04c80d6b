//! The domain-level error type. Ports and adapters report failures as `DomainError`.

use vstd::prelude::*;

use crate::text::concat2;

verus! {

/// Errors expressible purely in domain terms. Adapters map vendor errors into these.
#[derive(Clone, Debug, PartialEq, Eq)]
pub enum DomainError {
    /// Input failed validation at a system boundary.
    Invalid(String),
    /// A cross-partition access was denied.
    Denied(String),
    /// A governance rule was violated.
    Governance(String),
    /// A serialization / canonical-bytes failure.
    Serialization(String),
    /// A signature or consensus verification failed.
    Verification(String),
    /// An upstream adapter reported a failure.
    Adapter(String),
    /// A requested resource was not found.
    NotFound(String),
}

/// The human-readable rendering of an error: a fixed prefix per variant, then the detail.
pub open spec fn error_text(e: DomainError) -> Seq<char> {
    match e {
        DomainError::Invalid(m) => "invalid input: "@ + m@,
        DomainError::Denied(m) => "access denied: "@ + m@,
        DomainError::Governance(m) => "governance violation: "@ + m@,
        DomainError::Serialization(m) => "serialization error: "@ + m@,
        DomainError::Verification(m) => "verification failed: "@ + m@,
        DomainError::Adapter(m) => "adapter error: "@ + m@,
        DomainError::NotFound(m) => "not found: "@ + m@,
    }
}

impl DomainError {
    /// Render the error as text (what `Display` shows).
    pub fn describe(&self) -> (r: String)
        ensures
            r@ == error_text(*self),
    {
        match self {
            DomainError::Invalid(m) => concat2("invalid input: ", m.as_str()),
            DomainError::Denied(m) => concat2("access denied: ", m.as_str()),
            DomainError::Governance(m) => concat2("governance violation: ", m.as_str()),
            DomainError::Serialization(m) => concat2("serialization error: ", m.as_str()),
            DomainError::Verification(m) => concat2("verification failed: ", m.as_str()),
            DomainError::Adapter(m) => concat2("adapter error: ", m.as_str()),
            DomainError::NotFound(m) => concat2("not found: ", m.as_str()),
        }
    }
}

} // verus!
