//! The distribution hub: a bounded broadcast buffer with independent
//! subscriber cursors.
//!
//! The hub owns a bounded buffer of events. Publishing appends an event; when
//! the buffer is full the oldest retained event is evicted, so a slow
//! subscriber observes a gap rather than blocking the publisher. Every
//! subscriber holds its own cursor and reads at its own pace; reading never
//! changes the hub. Blocking and synchronization are the caller's business:
//! the hub itself is a plain state machine whose every step is total.

use vstd::prelude::*;

use std::collections::VecDeque;

use crate::csgo::Event;

verus! {

/// The lifecycle states of the hub.
#[derive(Debug, Clone, Copy, PartialEq, Eq, Hash, Structural)]
pub enum HubState {
    /// The buffer is allocated; its capacity is fixed for good.
    Created,
    /// Publishes and subscriptions are accepted.
    Running,
    /// No new publishes are accepted; existing subscribers may drain.
    ShuttingDown,
    /// Reads fail with the closed condition.
    Stopped,
}

/// The hub's mathematical model.
///
/// `dropped` counts the events evicted so far, so the event published as
/// number `n` (counting from zero) is `retained[n - dropped]` as long as it
/// is retained. A subscriber cursor is such an absolute event number.
pub ghost struct HubView {
    /// The fixed capacity of the buffer, at least one.
    pub capacity: nat,
    /// How many events have been evicted.
    pub dropped: nat,
    /// The retained events, oldest first.
    pub retained: Seq<Event>,
    /// The lifecycle state.
    pub state: HubState,
}

impl HubView {
    /// How many events have ever been published.
    pub open spec fn total(self) -> nat {
        self.dropped + self.retained.len()
    }

    /// The hub's invariant: positive capacity, the buffer within it, and the
    /// publish counter within the machine's range.
    pub open spec fn wf(self) -> bool {
        &&& self.capacity >= 1
        &&& self.retained.len() <= self.capacity
        &&& self.total() <= u64::MAX
    }
}

/// What one accepted publish does to the hub: the event is appended, and
/// when the buffer is full the oldest retained event is evicted.
pub open spec fn spec_publish(h: HubView, e: Event) -> HubView {
    if h.retained.len() < h.capacity {
        HubView { retained: h.retained.push(e), ..h }
    } else {
        HubView { dropped: h.dropped + 1, retained: h.retained.skip(1).push(e), ..h }
    }
}

/// Publishing a whole sequence of events, in order.
pub open spec fn spec_publish_all(h: HubView, es: Seq<Event>) -> HubView
    decreases es.len(),
{
    if es.len() == 0 {
        h
    } else {
        spec_publish(spec_publish_all(h, es.drop_last()), es.last())
    }
}

/// The absolute number of the next event a cursor can observe: its own
/// position, or the oldest retained event if the cursor has lagged behind.
pub open spec fn spec_read_lo(h: HubView, cursor: nat) -> nat {
    if cursor > h.dropped {
        cursor
    } else {
        h.dropped
    }
}

/// Whether a read at this cursor yields an event.
pub open spec fn spec_read_avail(h: HubView, cursor: nat) -> bool {
    h.state != HubState::Stopped && spec_read_lo(h, cursor) < h.total()
}

/// The event a read at this cursor yields, when one is available.
pub open spec fn spec_read_event(h: HubView, cursor: nat) -> Event {
    h.retained[spec_read_lo(h, cursor) - h.dropped]
}

/// The cursor after a read: past the observed event, or unchanged when
/// nothing was read.
pub open spec fn spec_read_cursor(h: HubView, cursor: nat) -> nat {
    if spec_read_avail(h, cursor) {
        spec_read_lo(h, cursor) + 1
    } else {
        cursor
    }
}

/// Whether a read at this cursor observes the closed condition: always once
/// the hub is stopped, and after the buffer is drained while it shuts down.
pub open spec fn spec_read_closed(h: HubView, cursor: nat) -> bool {
    ||| h.state == HubState::Stopped
    ||| (h.state == HubState::ShuttingDown && !spec_read_avail(h, cursor))
}

/// The cursor a new subscriber starts at: the oldest retained event while
/// the hub accepts subscribers, and the end of the stream once shutdown has
/// begun, so that such a subscriber observes the closed condition at once.
pub open spec fn spec_subscribe_cursor(h: HubView) -> nat {
    if h.state == HubState::Created || h.state == HubState::Running {
        h.dropped
    } else {
        h.total()
    }
}

/// The events that `k` successive reads at this cursor observe.
pub open spec fn spec_drain(h: HubView, cursor: nat, k: nat) -> Seq<Event>
    decreases k,
{
    if k == 0 || !spec_read_avail(h, cursor) {
        Seq::empty()
    } else {
        seq![spec_read_event(h, cursor)] + spec_drain(
            h,
            spec_read_cursor(h, cursor),
            (k - 1) as nat,
        )
    }
}

/// What stays in a buffer of capacity `cap` that held `r` after `es` is
/// pushed through it: the latest `cap` events of `r + es`.
pub open spec fn keep_latest(r: Seq<Event>, es: Seq<Event>, cap: nat) -> Seq<Event> {
    if r.len() + es.len() > cap {
        (r + es).skip(r.len() + es.len() - cap)
    } else {
        r + es
    }
}

/// A fresh running hub of the given capacity, before any publish.
pub open spec fn fresh_hub(cap: nat) -> HubView {
    HubView { capacity: cap, dropped: 0, retained: Seq::empty(), state: HubState::Running }
}

/// Publishing a sequence of events keeps the hub well-formed, counts every
/// event, and retains exactly the latest `capacity` of them.
pub proof fn lemma_publish_all_shape(h: HubView, es: Seq<Event>)
    requires
        h.wf(),
        h.state == HubState::Running,
        h.total() + es.len() <= u64::MAX,
    ensures
        spec_publish_all(h, es).capacity == h.capacity,
        spec_publish_all(h, es).state == h.state,
        spec_publish_all(h, es).total() == h.total() + es.len(),
        spec_publish_all(h, es).retained == keep_latest(h.retained, es, h.capacity),
        spec_publish_all(h, es).wf(),
    decreases es.len(),
{
    let r = h.retained;
    let cap = h.capacity;
    if es.len() == 0 {
        assert(keep_latest(r, es, cap) =~= r);
    } else {
        lemma_publish_all_shape(h, es.drop_last());
        let prev = spec_publish_all(h, es.drop_last());
        let hp = spec_publish_all(h, es);
        assert(hp == spec_publish(prev, es.last()));
        if prev.retained.len() < cap {
            assert(hp.retained =~= keep_latest(r, es, cap));
        } else {
            assert(hp.retained =~= keep_latest(r, es, cap));
        }
    }
}

/// Reads inside the retained window observe exactly the retained events, in
/// order and without a gap.
pub proof fn lemma_drain_window(h: HubView, cursor: nat, k: nat)
    requires
        h.wf(),
        h.state != HubState::Stopped,
        h.dropped <= cursor,
        cursor + k <= h.total(),
    ensures
        spec_drain(h, cursor, k) == h.retained.subrange(
            cursor - h.dropped,
            cursor - h.dropped + k,
        ),
    decreases k,
{
    if k == 0 {
        assert(spec_drain(h, cursor, k) =~= h.retained.subrange(
            cursor - h.dropped,
            cursor - h.dropped + k,
        ));
    } else {
        assert(spec_read_lo(h, cursor) == cursor);
        assert(spec_read_avail(h, cursor));
        lemma_drain_window(h, cursor + 1, (k - 1) as nat);
        assert(spec_drain(h, cursor, k) =~= h.retained.subrange(
            cursor - h.dropped,
            cursor - h.dropped + k,
        ));
    }
}

/// In-order delivery: a subscriber positioned at the end of the stream that
/// reads once per published event observes exactly those events, in the
/// order they were published, as long as no more events were published than
/// the hub's capacity.
pub proof fn lemma_publish_then_drain(h: HubView, es: Seq<Event>, cursor: nat)
    requires
        h.wf(),
        h.state == HubState::Running,
        cursor == h.total(),
        es.len() <= h.capacity,
        h.total() + es.len() <= u64::MAX,
    ensures
        spec_drain(spec_publish_all(h, es), cursor, es.len()) == es,
{
    lemma_publish_all_shape(h, es);
    let hp = spec_publish_all(h, es);
    assert(hp.retained.len() >= es.len());
    assert(hp.dropped <= cursor);
    lemma_drain_window(hp, cursor, es.len());
    assert(hp.retained.subrange(
        cursor - hp.dropped,
        cursor - hp.dropped + es.len(),
    ) =~= es);
}

/// Lag drop: when more events run through a fresh hub than it can retain,
/// only the latest `capacity` of them stay, and a subscriber attaching
/// afterwards observes exactly those; the earlier events are unrecoverable.
pub proof fn lemma_lag_drop(cap: nat, es: Seq<Event>)
    requires
        1 <= cap,
        cap <= es.len(),
        es.len() <= u64::MAX,
    ensures
        spec_publish_all(fresh_hub(cap), es).retained == es.skip(es.len() - cap),
        spec_subscribe_cursor(spec_publish_all(fresh_hub(cap), es)) == es.len() - cap,
        spec_drain(
            spec_publish_all(fresh_hub(cap), es),
            spec_subscribe_cursor(spec_publish_all(fresh_hub(cap), es)),
            cap,
        ) == es.skip(es.len() - cap),
{
    lemma_publish_all_shape(fresh_hub(cap), es);
    let hp = spec_publish_all(fresh_hub(cap), es);
    assert(hp.retained =~= es.skip(es.len() - cap));
    assert(hp.dropped == es.len() - cap);
    lemma_drain_window(hp, hp.dropped, cap);
    assert(hp.retained.subrange(0, cap as int) =~= hp.retained);
}

/// A lagging cursor skips forward, it never reorders: everything a lagged
/// subscriber goes on to observe is exactly what a subscriber standing at
/// the oldest retained event observes.
pub proof fn lemma_lagged_reads_skip_forward(h: HubView, cursor: nat, k: nat)
    requires
        h.wf(),
        cursor <= h.dropped,
    ensures
        spec_drain(h, cursor, k) == spec_drain(h, h.dropped, k),
{
    if k > 0 && spec_read_avail(h, cursor) {
        assert(spec_read_lo(h, cursor) == h.dropped);
        assert(spec_read_lo(h, h.dropped) == h.dropped);
    }
}

/// A subscriber created after shutdown has begun observes the closed
/// condition at once: its first read yields no event, reports the hub as
/// closed, and leaves the cursor where it is.
pub proof fn lemma_closed_for_late_subscriber(h: HubView)
    requires
        h.wf(),
        h.state == HubState::ShuttingDown || h.state == HubState::Stopped,
    ensures
        !spec_read_avail(h, spec_subscribe_cursor(h)),
        spec_read_closed(h, spec_subscribe_cursor(h)),
        spec_read_cursor(h, spec_subscribe_cursor(h)) == spec_subscribe_cursor(h),
{
}

/// The outcome of one read attempt.
#[derive(Debug)]
pub enum ReadOutcome<'a> {
    /// The next event this subscriber had not yet observed.
    Received(&'a Event),
    /// Nothing to observe yet; the caller may wait and try again.
    Empty,
    /// The hub is closed for this subscriber: no event will ever follow.
    Closed,
}

/// A subscriber's handle: its private cursor into the hub's event stream.
///
/// Handles are independent: reading through one never affects another.
#[derive(Debug, Clone, Copy, PartialEq, Eq, Hash, Structural)]
pub struct SubscriberHandle {
    /// The absolute number of the next event to observe.
    pub cursor: u64,
}

/// The bounded broadcast hub.
#[derive(Debug)]
pub struct Hub {
    capacity: usize,
    dropped: u64,
    buffer: VecDeque<Event>,
    state: HubState,
}

impl View for Hub {
    type V = HubView;

    closed spec fn view(&self) -> HubView {
        HubView {
            capacity: self.capacity as nat,
            dropped: self.dropped as nat,
            retained: self.buffer@,
            state: self.state,
        }
    }
}

impl Hub {
    /// Allocate a hub with the given fixed capacity.
    pub fn new(capacity: usize) -> (h: Hub)
        requires
            capacity >= 1,
        ensures
            h@.wf(),
            h@.capacity == capacity,
            h@.dropped == 0,
            h@.retained == Seq::<Event>::empty(),
            h@.state == HubState::Created,
    {
        Hub { capacity, dropped: 0, buffer: VecDeque::new(), state: HubState::Created }
    }

    /// The hub's lifecycle state.
    pub fn state(&self) -> (s: HubState)
        ensures
            s == self@.state,
    {
        self.state
    }

    /// The hub's fixed capacity.
    pub fn capacity(&self) -> (c: usize)
        ensures
            c == self@.capacity,
    {
        self.capacity
    }

    /// How many events have ever been published.
    pub fn total(&self) -> (t: u64)
        requires
            self@.wf(),
        ensures
            t == self@.total(),
    {
        self.dropped + self.buffer.len() as u64
    }

    /// Start accepting publishes and subscriptions.
    pub fn start(&mut self)
        requires
            old(self)@.wf(),
            old(self)@.state == HubState::Created,
        ensures
            final(self)@ == (HubView { state: HubState::Running, ..old(self)@ }),
            final(self)@.wf(),
    {
        self.state = HubState::Running;
    }

    /// Stop accepting publishes; existing subscribers may drain.
    pub fn begin_shutdown(&mut self)
        requires
            old(self)@.wf(),
            old(self)@.state == HubState::Running,
        ensures
            final(self)@ == (HubView { state: HubState::ShuttingDown, ..old(self)@ }),
            final(self)@.wf(),
    {
        self.state = HubState::ShuttingDown;
    }

    /// Stop the hub for good: every read now observes the closed condition.
    pub fn stop(&mut self)
        requires
            old(self)@.wf(),
            old(self)@.state == HubState::ShuttingDown,
        ensures
            final(self)@ == (HubView { state: HubState::Stopped, ..old(self)@ }),
            final(self)@.wf(),
    {
        self.state = HubState::Stopped;
    }

    /// Publish an event: accepted exactly while the hub is running, and a
    /// full buffer evicts its oldest event rather than blocking.
    pub fn publish(&mut self, e: Event) -> (accepted: bool)
        requires
            old(self)@.wf(),
            old(self)@.total() < u64::MAX,
        ensures
            final(self)@.wf(),
            accepted == (old(self)@.state == HubState::Running),
            accepted ==> final(self)@ == spec_publish(old(self)@, e),
            !accepted ==> final(self)@ == old(self)@,
    {
        if !(self.state == HubState::Running) {
            return false;
        }
        self.buffer.push_back(e);
        if self.buffer.len() > self.capacity {
            let _ = self.buffer.pop_front();
            self.dropped = self.dropped + 1;
            proof {
                assert(self.buffer@ =~= old(self)@.retained.skip(1).push(e));
            }
        }
        true
    }

    /// Hand out a new subscriber handle.
    ///
    /// While the hub accepts subscribers the handle starts at the oldest
    /// retained event; once shutdown has begun it starts past the end of the
    /// stream, so its first read observes the closed condition.
    pub fn subscribe(&self) -> (s: SubscriberHandle)
        requires
            self@.wf(),
        ensures
            s.cursor == spec_subscribe_cursor(self@),
    {
        match self.state {
            HubState::Created => SubscriberHandle { cursor: self.dropped },
            HubState::Running => SubscriberHandle { cursor: self.dropped },
            HubState::ShuttingDown => SubscriberHandle {
                cursor: self.dropped + self.buffer.len() as u64,
            },
            HubState::Stopped => SubscriberHandle {
                cursor: self.dropped + self.buffer.len() as u64,
            },
        }
    }

    /// One read attempt for a subscriber: the next unobserved event if one
    /// is retained (skipping over any evicted gap), the closed condition
    /// once none will ever follow, and `Empty` when the subscriber would
    /// have to wait.
    pub fn try_read<'a>(&'a self, sub: &mut SubscriberHandle) -> (r: ReadOutcome<'a>)
        requires
            self@.wf(),
        ensures
            final(sub).cursor == spec_read_cursor(self@, old(sub).cursor as nat),
            r is Received <==> spec_read_avail(self@, old(sub).cursor as nat),
            r is Closed <==> spec_read_closed(self@, old(sub).cursor as nat),
            r is Empty <==> !spec_read_avail(self@, old(sub).cursor as nat)
                && !spec_read_closed(self@, old(sub).cursor as nat),
            r matches ReadOutcome::Received(e) ==> *e == spec_read_event(
                self@,
                old(sub).cursor as nat,
            ),
    {
        if self.state == HubState::Stopped {
            return ReadOutcome::Closed;
        }
        let lo = if sub.cursor > self.dropped {
            sub.cursor
        } else {
            self.dropped
        };
        let total = self.dropped + self.buffer.len() as u64;
        if lo < total {
            let idx = (lo - self.dropped) as usize;
            let e = &self.buffer[idx];
            sub.cursor = lo + 1;
            return ReadOutcome::Received(e);
        }
        if self.state == HubState::ShuttingDown {
            ReadOutcome::Closed
        } else {
            ReadOutcome::Empty
        }
    }
}

} // verus!
