//! Identity value objects: `NodeId` (a `.dark` domain), `JunctionId`, `Timestamp`.

use vstd::prelude::*;

use crate::error::DomainError;
use crate::text::{concat3, ends_with, has_suffix};

verus! {

/// The namespace suffix every node identity carries.
pub open spec fn dark_suffix() -> Seq<char> {
    seq!['.', 'd', 'a', 'r', 'k']
}

/// A building/Appliance identity, expressed as a directory-less `.dark` domain
/// (e.g. `pozsonyi14.thermal.budapest.dark`).
#[derive(Debug, Hash)]
pub struct NodeId(String);

impl View for NodeId {
    type V = Seq<char>;

    closed spec fn view(&self) -> Seq<char> {
        self.0@
    }
}

/// The text of the error for a name outside the `.dark` namespace.
pub open spec fn not_dark_message(s: Seq<char>) -> Seq<char> {
    "NodeId must be a .dark domain, got `"@ + s + "`"@
}

/// True when `s` ends in `.dark`.
pub fn is_dark_domain(s: &str) -> (r: bool)
    ensures
        r == has_suffix(s@, dark_suffix()),
{
    let suffix = ".dark";
    proof {
        reveal_strlit(".dark");
        assert(suffix@ =~= dark_suffix());
    }
    ends_with(s, suffix)
}

impl NodeId {
    /// Construct from a `.dark` domain string. Validates the namespace suffix at the boundary.
    pub fn new(dark_domain: String) -> (r: Result<NodeId, DomainError>)
        ensures
            r is Ok <==> has_suffix(dark_domain@, dark_suffix()),
            r matches Ok(id) ==> id@ == dark_domain@,
            r matches Err(e) ==> e matches DomainError::Invalid(m) && m@ == not_dark_message(
                dark_domain@,
            ),
    {
        if !is_dark_domain(dark_domain.as_str()) {
            let m = concat3("NodeId must be a .dark domain, got `", dark_domain.as_str(), "`");
            return Err(DomainError::Invalid(m));
        }
        Ok(NodeId(dark_domain))
    }

    /// The domain name.
    pub fn as_str(&self) -> (r: &str)
        ensures
            r@ == self@,
    {
        self.0.as_str()
    }
}

impl Clone for NodeId {
    fn clone(&self) -> (r: NodeId)
        ensures
            r == *self,
    {
        NodeId(self.0.clone())
    }
}

impl PartialEq for NodeId {
    fn eq(&self, other: &NodeId) -> (r: bool) {
        self.0 == other.0
    }
}

impl Eq for NodeId {
}

impl vstd::std_specs::cmp::PartialEqSpecImpl for NodeId {
    open spec fn obeys_eq_spec() -> bool {
        true
    }

    open spec fn eq_spec(&self, other: &NodeId) -> bool {
        self@ == other@
    }
}

/// A pipe-network junction identifier.
#[derive(Clone, Copy, Debug, PartialEq, Eq, Hash, Structural)]
pub struct JunctionId(pub u32);

/// Nanosecond wall-clock timestamp, supplied by an injected clock.
#[derive(Clone, Copy, Debug, PartialEq, Eq, PartialOrd, Ord, Structural)]
pub struct Timestamp(pub u64);

} // verus!

verus! {

/// A fresh copy of a pipe route.
pub fn copy_route(route: &Vec<JunctionId>) -> (r: Vec<JunctionId>)
    ensures
        r@ == route@,
{
    let mut out: Vec<JunctionId> = Vec::new();
    let mut i: usize = 0;
    while i < route.len()
        invariant
            i <= route@.len(),
            out@ == route@.subrange(0, i as int),
        decreases route.len() - i,
    {
        out.push(route[i]);
        i = i + 1;
    }
    assert(out@ =~= route@);
    out
}

} // verus!
