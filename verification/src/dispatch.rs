//! Event fan-out: a bounded broadcast queue with independent subscriber
//! cursors and drop-oldest overflow.
//!
//! The dispatcher retains a bounded tail of the event log.  Every
//! published event enters the (ghost) log; a receiver walks the log by its
//! own cursor, and a receiver that falls behind the retained tail is told
//! how many events it missed rather than stalling the publisher.

use vstd::prelude::*;

use crate::events::MonitoringEvent;

verus! {

/// What one poll of a receiver yields.
pub enum Received<'a> {
    /// The next event in the log.
    Event(&'a MonitoringEvent),
    /// The receiver lagged: this many events were dropped before the
    /// retained tail; the cursor has skipped to the oldest retained event.
    Lagged(u64),
    /// No event has been published past this receiver's cursor.
    Empty,
}

/// One subscriber's position in the event log.
#[derive(Debug, Clone, Copy, PartialEq, Eq, Structural)]
pub struct EventReceiver {
    /// Index into the event log of the next event to receive.
    pub cursor: u64,
}

/// Bounded broadcast queue over monitoring events.
pub struct EventDispatcher {
    /// Retained tail of the event log.
    pub buffer: Vec<MonitoringEvent>,
    /// How many events have been evicted from the front of the log.
    pub base: u64,
    /// Bound on the retained tail.
    pub capacity: usize,
    /// The full sequence of events ever published.
    pub log: Ghost<Seq<MonitoringEvent>>,
}

impl EventDispatcher {
    /// The buffer is the tail of the log and respects the capacity.
    pub open spec fn wf(&self) -> bool {
        &&& self.capacity >= 1
        &&& self.buffer@.len() <= self.capacity
        &&& self.log@.len() <= u64::MAX
        &&& self.base + self.buffer@.len() == self.log@.len()
        &&& forall|i: int|
            0 <= i < self.buffer@.len() ==> #[trigger] self.buffer@[i] == self.log@[
                self.base + i
            ]
    }

    /// How many events have ever been published.
    pub open spec fn published(&self) -> int {
        self.log@.len() as int
    }

    /// Create a dispatcher that retains up to `capacity` events.
    pub fn new(capacity: usize) -> (r: EventDispatcher)
        requires
            capacity >= 1,
        ensures
            r.wf(),
            r.log@ == Seq::<MonitoringEvent>::empty(),
            r.capacity == capacity,
    {
        EventDispatcher {
            buffer: Vec::new(),
            base: 0,
            capacity,
            log: Ghost(Seq::empty()),
        }
    }

    /// Publish one event: it is appended to the log, and the oldest
    /// retained event is evicted if the tail is full.
    pub fn publish(&mut self, e: MonitoringEvent)
        requires
            old(self).wf(),
            old(self).published() < u64::MAX,
        ensures
            final(self).wf(),
            final(self).log@ == old(self).log@.push(e),
            final(self).capacity == old(self).capacity,
    {
        if self.buffer.len() == self.capacity {
            self.buffer.remove(0);
            self.base = self.base + 1;
        }
        self.buffer.push(e);
        proof {
            self.log@ = self.log@.push(e);
        }
    }

    /// Publish a batch of events, in order.
    pub fn publish_batch(&mut self, events: Vec<MonitoringEvent>)
        requires
            old(self).wf(),
            old(self).published() + events@.len() <= u64::MAX,
        ensures
            final(self).wf(),
            final(self).log@ == old(self).log@ + events@,
            final(self).capacity == old(self).capacity,
    {
        let ghost all = events@;
        let ghost total = events@.len();
        let mut rest = events;
        while rest.len() > 0
            invariant
                self.wf(),
                self.capacity == old(self).capacity,
                rest@.len() <= total,
                all.len() == total,
                rest@ == all.subrange((total - rest@.len()) as int, total as int),
                self.log@ == old(self).log@ + all.subrange(0, (total - rest@.len()) as int),
                old(self).published() + total <= u64::MAX,
            decreases rest@.len(),
        {
            let ghost done = total - rest@.len();
            let e = rest.remove(0);
            proof {
                assert(e == all[done as int]);
                assert(rest@ =~= all.subrange(done as int + 1, total as int));
            }
            self.publish(e);
            proof {
                assert(self.log@ =~= old(self).log@ + all.subrange(0, done as int + 1));
            }
        }
        proof {
            assert(self.log@ =~= old(self).log@ + all);
        }
    }

    /// Create a new receiver that will see every event published after
    /// this call.
    pub fn subscribe(&self) -> (r: EventReceiver)
        requires
            self.wf(),
        ensures
            r.cursor == self.published(),
    {
        let ghost len = self.log@.len();
        let cursor: u64 = self.base + (self.buffer.len() as u64);
        EventReceiver { cursor }
    }

    /// Poll the next event for `rx`: the event at its cursor, `Empty` at
    /// the end of the log, or `Lagged` (skipping to the oldest retained
    /// event) when the cursor points below the retained tail.
    pub fn recv<'a>(&'a self, rx: &mut EventReceiver) -> (r: Received<'a>)
        requires
            self.wf(),
            old(rx).cursor <= self.published(),
        ensures
            old(rx).cursor < self.base ==> (r matches Received::Lagged(n) && n == self.base - old(
                rx,
            ).cursor && final(rx).cursor == self.base),
            self.base <= old(rx).cursor < self.published() ==> (r matches Received::Event(e) && *e
                == self.log@[old(rx).cursor as int] && final(rx).cursor == old(rx).cursor + 1),
            old(rx).cursor == self.published() ==> (r matches Received::Empty && final(rx).cursor == old(
                rx,
            ).cursor),
    {
        if rx.cursor < self.base {
            let missed = self.base - rx.cursor;
            rx.cursor = self.base;
            Received::Lagged(missed)
        } else {
            let offset = rx.cursor - self.base;
            if offset < self.buffer.len() as u64 {
                let e = &self.buffer[offset as usize];
                rx.cursor = rx.cursor + 1;
                Received::Event(e)
            } else {
                Received::Empty
            }
        }
    }
}

} // verus!
