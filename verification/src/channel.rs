//! The event channel: a bounded queue of detection signals with an
//! explicit lossy-under-backpressure publish.
//!
//! Publishing never blocks and never errors: when the queue is full the
//! event is dropped and only a drop counter moves, so a burst of matches
//! during a long job is lost rather than stalling frame capture. The
//! consumer cannot observe a dropped event.

use vstd::prelude::*;

verus! {

/// The design-default channel capacity.
pub const DEFAULT_CHANNEL_CAPACITY: usize = 10;

/// A zero-payload signal meaning "something matched now". Arrival order
/// in the channel is its only ordering information.
#[derive(Clone, Copy, Debug, PartialEq, Eq, Structural)]
pub struct DetectionEvent {}

/// A bounded queue of detection signals with drop-if-full publish.
pub struct EventChannel {
    events: Vec<DetectionEvent>,
    capacity: usize,
    dropped: u64,
}

impl EventChannel {
    /// How many events are queued for the consumer.
    pub closed spec fn queued(&self) -> nat {
        self.events@.len()
    }

    /// The fixed capacity the channel was created with.
    pub closed spec fn cap(&self) -> nat {
        self.capacity as nat
    }

    /// How many publishes were dropped against a full queue.
    pub closed spec fn drop_count(&self) -> nat {
        self.dropped as nat
    }

    /// The queue never holds more than its capacity.
    pub open spec fn wf(&self) -> bool {
        self.queued() <= self.cap() && self.cap() >= 1
    }

    /// Creates an empty channel of the given capacity.
    pub fn new(capacity: usize) -> (r: EventChannel)
        requires
            capacity >= 1,
        ensures
            r.wf(),
            r.cap() == capacity,
            r.queued() == 0,
            r.drop_count() == 0,
    {
        EventChannel { events: Vec::new(), capacity, dropped: 0 }
    }

    /// Publishes one event without blocking: queued when there is room,
    /// silently dropped (and counted) when the queue is full. Returns
    /// whether the event was queued; a full queue is not an error, and
    /// the drop leaves nothing for the consumer to observe.
    pub fn try_publish(&mut self) -> (published: bool)
        requires
            old(self).wf(),
        ensures
            final(self).wf(),
            final(self).cap() == old(self).cap(),
            published <==> old(self).queued() < old(self).cap(),
            published ==> final(self).queued() == old(self).queued() + 1 && final(self).drop_count()
                == old(self).drop_count(),
            !published ==> final(self).queued() == old(self).queued() && final(self).drop_count()
                == if old(self).drop_count() < u64::MAX {
                old(self).drop_count() + 1
            } else {
                old(self).drop_count()
            },
    {
        if self.events.len() < self.capacity {
            self.events.push(DetectionEvent {});
            true
        } else {
            if self.dropped < u64::MAX {
                self.dropped = self.dropped + 1;
            }
            false
        }
    }

    /// Takes the oldest queued event, if any. Returns `None` exactly
    /// when the queue is empty.
    pub fn try_recv(&mut self) -> (r: Option<DetectionEvent>)
        requires
            old(self).wf(),
        ensures
            final(self).wf(),
            final(self).cap() == old(self).cap(),
            final(self).drop_count() == old(self).drop_count(),
            r is Some <==> old(self).queued() > 0,
            r is Some ==> final(self).queued() == old(self).queued() - 1,
            r is None ==> final(self).queued() == old(self).queued(),
    {
        if self.events.len() > 0 {
            Some(self.events.remove(0))
        } else {
            None
        }
    }

    /// How many events are queued.
    pub fn len(&self) -> (r: usize)
        ensures
            r == self.queued(),
    {
        self.events.len()
    }

    /// The channel's capacity.
    pub fn capacity(&self) -> (r: usize)
        ensures
            r == self.cap(),
    {
        self.capacity
    }

    /// How many publishes have been dropped so far (saturating).
    pub fn dropped(&self) -> (r: u64)
        ensures
            r == self.drop_count(),
    {
        self.dropped
    }
}

} // verus!
