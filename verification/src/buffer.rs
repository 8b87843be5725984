//! The ordered store of captured GUI events that await the host's input layer.
use vstd::prelude::*;
use crate::event::GuiEvent;

verus! {

/// Captured events in capture order. Nothing is reordered or merged: what
/// comes out is what went in, oldest first.
///
/// The buffer itself is a plain value; the process that shares it between the
/// thread that drives the event loop and the host's drain keeps it under one
/// lock.
pub struct EventBuffer {
    events: Vec<GuiEvent>,
}

impl View for EventBuffer {
    type V = Seq<GuiEvent>;

    closed spec fn view(&self) -> Seq<GuiEvent> {
        self.events@
    }
}

impl EventBuffer {
    /// An empty buffer.
    pub fn new() -> (b: EventBuffer)
        ensures
            b@ == Seq::<GuiEvent>::empty(),
    {
        EventBuffer { events: Vec::new() }
    }

    /// The number of events that wait.
    pub fn len(&self) -> (n: usize)
        ensures
            n == self@.len(),
    {
        self.events.len()
    }

    /// Whether no event waits.
    pub fn is_empty(&self) -> (e: bool)
        ensures
            e == (self@.len() == 0),
    {
        self.events.len() == 0
    }

    /// Appends `event` behind everything captured before.
    pub fn push(&mut self, event: GuiEvent)
        ensures
            final(self)@ == old(self)@.push(event),
    {
        self.events.push(event);
    }

    /// Removes everything and hands it out in capture order.
    pub fn drain_all(&mut self) -> (drained: Vec<GuiEvent>)
        ensures
            drained@ == old(self)@,
            final(self)@ == Seq::<GuiEvent>::empty(),
    {
        let mut drained: Vec<GuiEvent> = Vec::new();
        std::mem::swap(&mut self.events, &mut drained);
        drained
    }
}

} // verus!
