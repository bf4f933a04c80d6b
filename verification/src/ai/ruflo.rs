//! The reference MCP tool registry: the registered tool set is the open host service's catalogue.
//! Registration and discovery are an in-memory set of names; the MCP-facing invocation only
//! acknowledges tools that are registered.

use vstd::prelude::*;

use crate::error::DomainError;
use crate::name_set::{sorted_names, texts, NameSet};
use crate::text::concat2;

verus! {

/// The reference MCP adapter: a registry of tool names.
pub struct RufloMcpAdapter {
    tools: NameSet,
}

/// The error text for a tool that is not registered.
pub open spec fn unregistered_tool_message(name: Seq<char>) -> Seq<char> {
    "unknown tool: "@ + name
}

impl RufloMcpAdapter {
    /// The registered tool names.
    pub closed spec fn tools(&self) -> Set<Seq<char>> {
        self.tools.contents()
    }

    /// The registered tool names, in lexicographic order.
    pub closed spec fn catalogue(&self) -> Seq<Seq<char>> {
        self.tools.listed()
    }

    /// The registry's invariant: the catalogue lists each registered tool once, in order.
    pub closed spec fn well_formed(&self) -> bool {
        self.tools.well_formed()
    }

    /// The catalogue lists exactly the registered tools, each once, so its length is their number.
    pub proof fn lemma_catalogue(&self)
        requires
            self.well_formed(),
        ensures
            self.catalogue().to_set() == self.tools(),
            self.catalogue().no_duplicates(),
            self.catalogue().len() == self.tools().len(),
    {
        let c = self.catalogue();
        assert forall|i: int, j: int| 0 <= i < c.len() && 0 <= j < c.len() && i != j implies c[i]
            != c[j] by {
            if i < j {
                crate::text::lemma_lex_irreflexive(c[i]);
            } else {
                crate::text::lemma_lex_irreflexive(c[j]);
            }
        }
        c.unique_seq_to_set();
    }

    /// An empty registry.
    pub fn new() -> (r: RufloMcpAdapter)
        ensures
            r.well_formed(),
            r.tools() == Set::<Seq<char>>::empty(),
    {
        let r = RufloMcpAdapter { tools: NameSet::new() };
        assert(r.tools() =~= Set::<Seq<char>>::empty());
        r
    }

    /// Register a tool; registering a known tool again changes nothing.
    pub fn register(&mut self, name: String)
        ensures
            final(self).well_formed(),
            final(self).tools() == old(self).tools().insert(name@),
    {
        self.tools.insert(name);
        proof {
            use_type_invariant(&self.tools);
        }
    }

    /// True when `name` is registered.
    pub fn has(&self, name: &str) -> (r: bool)
        ensures
            r == self.tools().contains(name@),
    {
        self.tools.contains(name)
    }

    /// The registered tools, each once, in ascending lexicographic order.
    pub fn list_tools(&self) -> (r: Vec<String>)
        ensures
            texts(r@) == self.catalogue(),
            sorted_names(texts(r@)),
            texts(r@).to_set() == self.tools(),
    {
        self.tools.list()
    }

    /// Acknowledge an MCP invocation of `name`: a registered tool is acknowledged, any other is
    /// not found.
    pub fn acknowledge(&self, name: &str) -> (r: Result<(), DomainError>)
        ensures
            r is Ok <==> self.tools().contains(name@),
            r is Err ==> (r matches Err(DomainError::NotFound(m)) && m@ == unregistered_tool_message(
                name@,
            )),
    {
        if !self.has(name) {
            return Err(DomainError::NotFound(concat2("unknown tool: ", name)));
        }
        Ok(())
    }
}

impl Default for RufloMcpAdapter {
    fn default() -> (r: RufloMcpAdapter)
        ensures
            r.well_formed(),
            r.tools() == Set::<Seq<char>>::empty(),
    {
        RufloMcpAdapter::new()
    }
}

} // verus!
