//! The journal: an append-only queue of structured events.
//!
//! Writers never wait: when the queue is full the oldest event is dropped
//! and counted.

use vstd::prelude::*;
use std::collections::VecDeque;

verus! {

#[derive(Clone, Copy, Debug, PartialEq, Eq, Structural)]
pub enum Level {
    Error,
    Warning,
    Info,
    Debug,
}

/// One structured event.
#[derive(Clone, Debug, PartialEq, Eq)]
pub struct Event {
    pub timestamp_ms: u64,
    pub source: u128,
    pub level: Level,
    pub payload: String,
}

pub struct Journal {
    events: VecDeque<Event>,
    capacity: usize,
    dropped: u64,
}

impl Journal {
    /// The events waiting for the consumer, oldest first.
    pub closed spec fn events(&self) -> Seq<Event> {
        self.events@
    }

    /// The most events the journal keeps.
    pub closed spec fn capacity(&self) -> nat {
        self.capacity as nat
    }

    /// How many events were dropped for want of room.
    pub closed spec fn dropped(&self) -> u64 {
        self.dropped
    }

    pub open spec fn wf(&self) -> bool {
        self.events().len() <= self.capacity() && self.capacity() > 0
    }

    pub fn new(capacity: usize) -> (r: Journal)
        requires
            capacity > 0,
        ensures
            r.wf(),
            r.events().len() == 0,
            r.capacity() == capacity,
            r.dropped() == 0,
    {
        Journal { events: VecDeque::new(), capacity, dropped: 0 }
    }

    /// Appends `e`; when the journal is full its oldest event is dropped and
    /// the drop counter goes up by one, saturating.
    pub fn append(&mut self, e: Event)
        requires
            old(self).wf(),
        ensures
            final(self).wf(),
            final(self).capacity() == old(self).capacity(),
            old(self).events().len() < old(self).capacity() ==> final(self).events() == old(
                self,
            ).events().push(e) && final(self).dropped() == old(self).dropped(),
            old(self).events().len() == old(self).capacity() ==> final(self).events() == old(
                self,
            ).events().drop_first().push(e) && final(self).dropped() == if old(self).dropped()
                == u64::MAX {
                u64::MAX
            } else {
                (old(self).dropped() + 1) as u64
            },
    {
        if self.events.len() == self.capacity {
            let _ = self.events.pop_front();
            self.dropped = self.dropped.saturating_add(1);
        }
        self.events.push_back(e);
    }

    /// Hands the oldest event to the consumer.
    pub fn take(&mut self) -> (r: Option<Event>)
        requires
            old(self).wf(),
        ensures
            final(self).wf(),
            final(self).capacity() == old(self).capacity(),
            final(self).dropped() == old(self).dropped(),
            old(self).events().len() == 0 ==> r is None && final(self).events() == old(self).events(),
            old(self).events().len() > 0 ==> r == Some(old(self).events()[0]) && final(self).events()
                == old(self).events().drop_first(),
    {
        self.events.pop_front()
    }

    pub fn len(&self) -> (r: usize)
        ensures
            r == self.events().len(),
    {
        self.events.len()
    }

    pub fn dropped_count(&self) -> (r: u64)
        ensures
            r == self.dropped(),
    {
        self.dropped
    }
}

} // verus!
