//! Cross-district federation, deferred. Full federation would exchange only market signals between
//! districts, never raw data; the stub enforces that rule (anything not tagged as a market signal
//! is refused) and otherwise reports the exchange as deferred.

use vstd::prelude::*;

use serde_json::Value;

use crate::error::DomainError;
use crate::text::same_text;

verus! {

/// A JSON document, as `serde_json` holds it. Opaque here: the library reads it only through the
/// two accessors below.
#[verifier::external_type_specification]
#[verifier::external_body]
pub struct ExJsonValue(Value);

/// The member named `key` of a JSON document, when the document is an object that has one:
/// what `serde_json::Value::get` with a string key returns.
pub uninterp spec fn json_member_of(value: Value, key: Seq<char>) -> Option<Value>;

/// The text of a JSON document, when it is a JSON string: what `serde_json::Value::as_str`
/// returns.
pub uninterp spec fn json_text_of(value: Value) -> Option<Seq<char>>;

/// `serde_json::Value::get` with a string key. Claimed: the result is `json_member_of` of the
/// document and the key.
#[verifier::external_body]
fn json_member<'a>(value: &'a Value, key: &str) -> (r: Option<&'a Value>)
    ensures
        r is None <==> json_member_of(*value, key@) is None,
        r matches Some(m) ==> json_member_of(*value, key@) == Some(*m),
{
    value.get(key)
}

/// `serde_json::Value::as_str`. Claimed: the result is `json_text_of` of the document.
#[verifier::external_body]
fn json_text<'a>(value: &'a Value) -> (r: Option<&'a str>)
    ensures
        r is None <==> json_text_of(*value) is None,
        r matches Some(t) ==> json_text_of(*value) == Some(t@),
{
    value.as_str()
}

/// The text of a signal's `kind` member, when it has one that is a JSON string.
pub open spec fn kind_tag(signal: Value) -> Option<Seq<char>> {
    match json_member_of(signal, "kind"@) {
        Some(member) => json_text_of(member),
        None => None,
    }
}

/// The outcome of a federation exchange: always deferred, once the signal was validated as a
/// market signal.
#[derive(Clone, Copy, Debug, PartialEq, Eq, Structural)]
pub enum FederationOutcome {
    /// A validated market signal; the real cross-district exchange is deferred.
    Deferred,
}

/// The text of the refusal of anything but a tagged market signal.
pub open spec fn signals_only_message() -> Seq<char> {
    "federation accepts only tagged market signals; no raw data crosses districts"@
}

/// The tag a market signal carries.
pub open spec fn market_signal_tag() -> Seq<char> {
    "market_signal"@
}

/// The disclosed federation stub.
pub struct FederationStub;

impl Default for FederationStub {
    fn default() -> (r: FederationStub)
        ensures
            r == FederationStub,
    {
        FederationStub
    }
}

impl FederationStub {
    /// The stub.
    pub fn new() -> (r: FederationStub)
        ensures
            r == FederationStub,
    {
        FederationStub
    }

    /// Judge a signal by its `kind` tag: only a tagged market signal passes, and its exchange is
    /// deferred; anything else, including an untagged payload, is denied.
    pub fn accept_kind(&self, kind: Option<&str>) -> (r: Result<FederationOutcome, DomainError>)
        ensures
            (kind matches Some(k) && k@ == market_signal_tag()) ==> r == Ok::<
                FederationOutcome,
                DomainError,
            >(FederationOutcome::Deferred),
            !(kind matches Some(k) && k@ == market_signal_tag()) ==> (r matches Err(
                DomainError::Denied(m),
            ) && m@ == signals_only_message()),
    {
        let accepted = match kind {
            Some(k) => same_text(k, "market_signal"),
            None => false,
        };
        if !accepted {
            return Err(
                DomainError::Denied(
                    String::from_str(
                        "federation accepts only tagged market signals; no raw data crosses districts",
                    ),
                ),
            );
        }
        Ok(FederationOutcome::Deferred)
    }

    /// Exchange a cross-district signal: read its `kind` member and judge it by that tag. Only a
    /// signal tagged as a market signal passes, and its exchange is deferred; anything else is
    /// refused with the signals-only message.
    pub fn exchange(&self, signal: &Value) -> (r: Result<FederationOutcome, DomainError>)
        ensures
            r is Ok <==> kind_tag(*signal) == Some(market_signal_tag()),
            r is Ok ==> r == Ok::<FederationOutcome, DomainError>(FederationOutcome::Deferred),
            r is Err ==> (r matches Err(DomainError::Denied(m)) && m@ == signals_only_message()),
    {
        let kind = match json_member(signal, "kind") {
            Some(member) => json_text(member),
            None => None,
        };
        self.accept_kind(kind)
    }
}

} // verus!
