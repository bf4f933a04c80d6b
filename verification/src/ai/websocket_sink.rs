//! The reference operator channel: records the events that would travel to the dashboard, in the
//! order they were pushed.

use vstd::prelude::*;

use crate::mesh::{same_event, UiEvent};

verus! {

/// The reference operator channel.
pub struct WebSocketSink {
    pushed: Vec<UiEvent>,
}

impl WebSocketSink {
    /// The events pushed so far, oldest first.
    pub closed spec fn events(&self) -> Seq<UiEvent> {
        self.pushed@
    }

    /// A sink that has seen no event.
    pub fn new() -> (r: WebSocketSink)
        ensures
            r.events() == Seq::<UiEvent>::empty(),
    {
        WebSocketSink { pushed: Vec::new() }
    }

    /// Record `event` after those already pushed.
    pub fn push(&mut self, event: UiEvent)
        ensures
            final(self).events() == old(self).events().push(event),
    {
        self.pushed.push(event);
    }

    /// A copy of the events pushed so far, oldest first.
    pub fn pushed(&self) -> (r: Vec<UiEvent>)
        ensures
            r@.len() == self.events().len(),
            forall|i: int| 0 <= i < r@.len() ==> same_event(self.events()[i], #[trigger] r@[i]),
    {
        let mut out: Vec<UiEvent> = Vec::new();
        let mut i: usize = 0;
        while i < self.pushed.len()
            invariant
                i <= self.pushed@.len(),
                out@.len() == i,
                forall|j: int| 0 <= j < i ==> same_event(self.pushed@[j], #[trigger] out@[j]),
            decreases self.pushed.len() - i,
        {
            out.push(self.pushed[i].clone());
            i = i + 1;
        }
        out
    }
}

impl Default for WebSocketSink {
    fn default() -> (r: WebSocketSink)
        ensures
            r.events() == Seq::<UiEvent>::empty(),
    {
        WebSocketSink::new()
    }
}

} // verus!
