//! [`CapturingLayer`]: an in-memory buffer of emitted events.
//!
//! Suitable for tests, examples, and small in-process tools (assertions,
//! demos, exploratory CLIs). Production deployments that ship events off-host
//! should wire a non-blocking sink so a slow consumer cannot backpressure the
//! agent.

use vstd::prelude::*;

use crate::event::ObservabilityEvent;
use crate::query::{copy_events, EventQuery};

verus! {

/// Buffer to which every captured [`ObservabilityEvent`] is appended.
#[derive(Debug)]
pub struct CapturingLayer {
    events: Vec<ObservabilityEvent>,
}

impl View for CapturingLayer {
    type V = Seq<crate::event::EventView>;

    closed spec fn view(&self) -> Seq<crate::event::EventView> {
        self.events.deep_view()
    }
}

impl Default for CapturingLayer {
    fn default() -> (layer: Self)
        ensures
            layer@ == Seq::<crate::event::EventView>::empty(),
    {
        CapturingLayer::new()
    }
}

impl CapturingLayer {
    /// Build an empty layer.
    pub fn new() -> (layer: Self)
        ensures
            layer@ == Seq::<crate::event::EventView>::empty(),
    {
        let layer = CapturingLayer { events: Vec::new() };
        assert(layer@ =~= Seq::<crate::event::EventView>::empty());
        layer
    }

    /// Captures `event`.
    pub fn on_event(&mut self, event: ObservabilityEvent)
        ensures
            final(self)@ == old(self)@.push(event@),
    {
        let ghost before = self.events.deep_view();
        self.events.push(event);
        assert(self.events.deep_view() =~= before.push(event@));
    }

    /// Return a copy of all captured events in insertion order.
    pub fn snapshot(&self) -> (events: Vec<ObservabilityEvent>)
        ensures
            events.deep_view() == self@,
    {
        let events = copy_events(&self.events, 0);
        assert(self@.skip(0) =~= self@);
        events
    }

    /// Return a query view over a copy of all captured events.
    pub fn query(&self) -> (query: EventQuery)
        ensures
            query@ == self@,
    {
        EventQuery::new(self.snapshot())
    }

    /// Clear the captured buffer.
    pub fn clear(&mut self)
        ensures
            final(self)@ == Seq::<crate::event::EventView>::empty(),
    {
        self.events.clear();
        assert(self.events.deep_view() =~= Seq::<crate::event::EventView>::empty());
    }

    /// Number of events captured so far.
    pub fn len(&self) -> (len: usize)
        ensures
            len == self@.len(),
    {
        self.events.len()
    }

    /// `true` when no events have been captured.
    pub fn is_empty(&self) -> (empty: bool)
        ensures
            empty == (self@.len() == 0),
    {
        self.events.len() == 0
    }
}

} // verus!
