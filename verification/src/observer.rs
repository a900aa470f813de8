//! Observers: the push side of the library. A handle holds at most one,
//! and hands it every translated event right after the snapshot is updated.

use vstd::prelude::*;

use crate::events::WinTabEvent;

verus! {

/// A recipient for translated stylus events.
///
/// The abstract `observed` sequence is the observer's whole history: every
/// event it has been handed, oldest first. `notify` must extend it by
/// exactly the event received, so that a caller's record of what an
/// observer saw is the record of what was delivered to it.
pub trait TabObserver: Sized {
    /// The events this observer has received so far, oldest first.
    spec fn observed(&self) -> Seq<WinTabEvent>;

    /// Receives one translated event.
    fn notify(&mut self, event: WinTabEvent)
        ensures
            final(self).observed() == old(self).observed().push(event),
    ;
}

/// An observer that keeps every event it receives, in delivery order.
pub struct EventLog {
    events: Vec<WinTabEvent>,
}

impl EventLog {
    /// An empty log.
    pub fn new() -> (r: EventLog)
        ensures
            r.observed() == Seq::<WinTabEvent>::empty(),
    {
        EventLog { events: Vec::new() }
    }

    /// The recorded events, oldest first.
    pub fn events(&self) -> (r: &Vec<WinTabEvent>)
        ensures
            r@ == self.observed(),
    {
        &self.events
    }
}

impl TabObserver for EventLog {
    closed spec fn observed(&self) -> Seq<WinTabEvent> {
        self.events@
    }

    fn notify(&mut self, event: WinTabEvent) {
        self.events.push(event);
    }
}

} // verus!
