//! In-process publish/subscribe bus.
//!
//! `submit_event` stamps a fact with a fresh opaque receipt and appends it
//! to a bounded buffer; every subscription holds its own cursor into the
//! stream of absolute submission indices.  When a slow subscriber's cursor
//! falls out of the retained window, its next poll reports how many facts
//! it lost and repositions it at the oldest retained fact — the subscriber
//! must then re-sync from the store, not treat the lag as fatal.
//!
//! A subscription observes only facts submitted after it was opened: its
//! start index is the submission count at `subscribe` time, and polling
//! never yields an index below the start.  Facts submitted earlier are not
//! replayed.

use vstd::prelude::*;

use crate::bytes::clone_bytes;
use crate::domain::DomainError;
use crate::events::Event;
use crate::events::EventView;
use crate::ids::fresh_uuid_bytes;

verus! {

/// Opaque correlation identifier minted when a fact is dispatched.
pub type EventReceipt = Vec<u8>;

/// A fact paired with the receipt minted when it was submitted.
#[derive(Debug)]
pub struct EventWrapper(pub Event, pub EventReceipt);

/// Mathematical image of [`EventWrapper`].
pub struct EventWrapperView {
    pub event: EventView,
    pub receipt: Seq<u8>,
}

impl View for EventWrapper {
    type V = EventWrapperView;

    open spec fn view(&self) -> EventWrapperView {
        EventWrapperView { event: self.0@, receipt: self.1@ }
    }
}

impl Clone for EventWrapper {
    /// A clone carries the same fact and receipt.
    fn clone(&self) -> (r: Self)
        ensures
            r@ == self@,
    {
        EventWrapper(self.0.clone(), clone_bytes(&self.1))
    }
}

/// What one poll of a subscription yields.
#[derive(Debug)]
pub enum RecvOutcome {
    /// The next fact of the subscriber's stream.
    Event(EventWrapper),
    /// The subscriber fell behind and this many facts were discarded for
    /// it; it should re-derive its state from the store and poll again.
    Lagged(u64),
    /// Nothing has been submitted beyond the cursor.
    Empty,
}

/// Mathematical image of [`EventDispatch`]: the retained window of the
/// fact stream, with `dropped` facts discarded in front of it.
#[verifier::ext_equal]
pub struct EventDispatchView {
    pub capacity: int,
    pub dropped: int,
    pub buffer: Seq<EventWrapperView>,
}

impl EventDispatchView {
    /// Number of facts ever submitted.
    pub open spec fn total(self) -> int {
        self.dropped + self.buffer.len()
    }

    /// The fact at absolute submission index `i`, while it is retained.
    pub open spec fn event_at(self, i: int) -> EventWrapperView {
        self.buffer[i - self.dropped]
    }
}

/// The dispatcher: a bounded window over the stream of submitted facts.
pub struct EventDispatch {
    capacity: usize,
    dropped: u64,
    buffer: Vec<EventWrapper>,
}

impl View for EventDispatch {
    type V = EventDispatchView;

    closed spec fn view(&self) -> EventDispatchView {
        EventDispatchView {
            capacity: self.capacity as int,
            dropped: self.dropped as int,
            buffer: Seq::new(self.buffer@.len(), |i: int| self.buffer@[i]@),
        }
    }
}

/// One subscriber's cursor into the fact stream.
pub struct Subscription {
    start: u64,
    cursor: u64,
}

/// Mathematical image of [`Subscription`]: `start` is the submission count
/// when the subscription was opened, `cursor` the next index to observe.
#[verifier::ext_equal]
pub struct SubscriptionView {
    pub start: int,
    pub cursor: int,
}

impl View for Subscription {
    type V = SubscriptionView;

    closed spec fn view(&self) -> SubscriptionView {
        SubscriptionView { start: self.start as int, cursor: self.cursor as int }
    }
}

impl Subscription {
    /// A subscription never looks back past its start.
    pub open spec fn wf(&self) -> bool {
        0 <= self@.start <= self@.cursor
    }
}

impl EventDispatch {
    /// Dispatcher invariant: a positive bounded window, and a submission
    /// count that stays representable.
    pub open spec fn wf(&self) -> bool {
        &&& self@.capacity >= 1
        &&& self@.buffer.len() <= self@.capacity
        &&& self@.total() <= u64::MAX as int
    }

    /// A fresh dispatcher that retains up to `capacity` facts per
    /// subscriber.
    pub fn ephemeral(capacity: usize) -> (s: Self)
        requires
            capacity >= 1,
        ensures
            s.wf(),
            s@.capacity == capacity as int,
            s@.dropped == 0,
            s@.buffer == Seq::<EventWrapperView>::empty(),
    {
        let s = EventDispatch { capacity, dropped: 0, buffer: Vec::new() };
        proof {
            assert(s@.buffer =~= Seq::<EventWrapperView>::empty());
        }
        s
    }

    /// Number of facts ever submitted through this dispatcher.
    pub fn total_submitted(&self) -> (r: u64)
        requires
            self.wf(),
        ensures
            r as int == self@.total(),
    {
        self.dropped + (self.buffer.len() as u64)
    }

    /// Open a subscription.  It observes every fact submitted after this
    /// call returns and none submitted before: its start and cursor are the
    /// current submission count, so no earlier fact is ever replayed into
    /// it.
    pub fn subscribe(&mut self) -> (sub: Subscription)
        requires
            old(self).wf(),
        ensures
            final(self)@ == old(self)@,
            sub.wf(),
            sub@.start == old(self)@.total(),
            sub@.cursor == old(self)@.total(),
    {
        let total = self.dropped + (self.buffer.len() as u64);
        Subscription { start: total, cursor: total }
    }

    /// Submit a fact: mint a fresh receipt, append the wrapped fact to the
    /// stream, and hand the receipt back.  When the window is full the
    /// oldest retained fact is discarded, which lagging subscribers later
    /// see as loss; publishing itself never blocks and never fails.
    pub fn submit_event(&mut self, event: Event) -> (r: Result<EventReceipt, DomainError>)
        requires
            old(self).wf(),
            old(self)@.total() < u64::MAX as int,
        ensures
            final(self).wf(),
            r is Ok,
            r->Ok_0@.len() == 16,
            final(self)@.capacity == old(self)@.capacity,
            final(self)@.total() == old(self)@.total() + 1,
            final(self)@.dropped == (if old(self)@.buffer.len() < old(self)@.capacity {
                old(self)@.dropped
            } else {
                old(self)@.dropped + 1
            }),
            final(self)@.buffer == (if old(self)@.buffer.len() < old(self)@.capacity {
                old(self)@.buffer
            } else {
                old(self)@.buffer.drop_first()
            }).push(EventWrapperView { event: event@, receipt: r->Ok_0@ }),
            final(self)@.event_at(old(self)@.total()) == (EventWrapperView {
                event: event@,
                receipt: r->Ok_0@,
            }),
    {
        let receipt = fresh_uuid_bytes();
        let wrapper = EventWrapper(event, clone_bytes(&receipt));
        let ghost pre = self@;
        if self.buffer.len() == self.capacity {
            self.buffer.remove(0);
            self.dropped = self.dropped + 1;
            proof {
                assert(self@.buffer =~= pre.buffer.drop_first());
            }
        }
        let ghost mid = self@;
        self.buffer.push(wrapper);
        proof {
            assert(self@.buffer =~= mid.buffer.push(wrapper@));
        }
        Ok(receipt)
    }
}

impl Subscription {
    /// Poll for the next fact.
    ///
    /// Yields facts in strictly increasing order of absolute submission
    /// index, never below the subscription's start index — a fact that was
    /// already submitted when the subscription was opened is never
    /// observed.  A cursor that fell out of the retained window is reported
    /// as lag and repositioned at the oldest retained fact.
    pub fn recv(&mut self, bus: &EventDispatch) -> (r: RecvOutcome)
        requires
            old(self).wf(),
            bus.wf(),
        ensures
            final(self).wf(),
            final(self)@.start == old(self)@.start,
            match r {
                RecvOutcome::Event(w) => {
                    &&& bus@.dropped <= old(self)@.cursor < bus@.total()
                    &&& old(self)@.cursor >= old(self)@.start
                    &&& w@ == bus@.event_at(old(self)@.cursor)
                    &&& final(self)@.cursor == old(self)@.cursor + 1
                },
                RecvOutcome::Lagged(n) => {
                    &&& old(self)@.cursor < bus@.dropped
                    &&& n as int == bus@.dropped - old(self)@.cursor
                    &&& final(self)@.cursor == bus@.dropped
                },
                RecvOutcome::Empty => {
                    &&& old(self)@.cursor >= bus@.total()
                    &&& *final(self) == *old(self)
                },
            },
    {
        if self.cursor < bus.dropped {
            let n = bus.dropped - self.cursor;
            self.cursor = bus.dropped;
            RecvOutcome::Lagged(n)
        } else {
            let offset = self.cursor - bus.dropped;
            if offset < bus.buffer.len() as u64 {
                let w = bus.buffer[offset as usize].clone();
                self.cursor = self.cursor + 1;
                RecvOutcome::Event(w)
            } else {
                RecvOutcome::Empty
            }
        }
    }
}

/// No replay across subscriptions: a fact that was already submitted when a
/// subscription was opened sits at an absolute index below the
/// subscription's start, and polling yields only indices at or above the
/// start, so the subscription never observes that fact.
pub proof fn lemma_subscribe_no_replay(
    at_subscribe: EventDispatchView,
    sub: SubscriptionView,
    earlier: int,
    yielded: int,
)
    requires
        sub.start == at_subscribe.total(),
        0 <= earlier < at_subscribe.total(),
        yielded >= sub.start,
    ensures
        yielded != earlier,
{
}

} // verus!
