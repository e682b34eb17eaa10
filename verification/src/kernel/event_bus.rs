//! Observer event bus bookkeeping: subscribers, retained history and delivery metrics.
//!
//! The bus is generic over the event type. The actor layer owns the subscriber
//! channels: it offers each event to the subscribers this bus lists and reports how
//! each offer went; the downstream sink is called there too.

use vstd::prelude::*;

verus! {

/// Stable observer subscription identity.
#[derive(Debug, PartialEq, Eq, Hash)]
pub struct ObserverId(String);

impl View for ObserverId {
    type V = Seq<char>;

    closed spec fn view(&self) -> Seq<char> {
        self.0@
    }
}

impl Clone for ObserverId {
    fn clone(&self) -> (r: Self)
        ensures
            r@ == self@,
    {
        ObserverId(self.0.clone())
    }
}

impl ObserverId {
    /// Creates an observer ID from an existing string.
    pub fn from_string(value: String) -> (r: Self)
        ensures
            r@ == value@,
    {
        ObserverId(value)
    }

    /// Returns the observer ID as a string slice.
    pub fn as_str(&self) -> (r: &str)
        ensures
            r@ == self@,
    {
        self.0.as_str()
    }
}

/// How offering an event to one subscriber went.
#[derive(Debug, Clone, Copy, PartialEq, Eq, Structural)]
pub enum SendOutcome {
    Delivered,
    Full,
    Closed,
}

/// Point-in-time observer bus metrics.
#[derive(Debug, Clone, Copy, PartialEq, Eq, Structural)]
pub struct ObserverBusSnapshot {
    pub subscriber_count: usize,
    pub retained_event_count: usize,
    pub dropped_event_count: usize,
    pub closed_subscriber_count: usize,
    pub sink_error_count: usize,
}

/// The newest `capacity` events, newest first, after `event` arrives; nothing is kept
/// when the capacity is zero.
pub open spec fn retained_history<E>(history: Seq<E>, event: E, capacity: usize) -> Seq<E> {
    if capacity == 0 {
        history
    } else {
        let h = seq![event] + history;
        if h.len() > capacity { h.take(capacity as int) } else { h }
    }
}

/// The subscriber IDs after subscribing `id`: appended when new, unchanged when the ID
/// is already subscribed.
pub open spec fn with_subscriber(ids: Seq<Seq<char>>, id: Seq<char>) -> Seq<Seq<char>> {
    if ids.contains(id) {
        ids
    } else {
        ids.push(id)
    }
}

/// Subscribing the same observer twice is the same as subscribing it once.
pub proof fn lemma_subscribe_idempotent(ids: Seq<Seq<char>>, id: Seq<char>)
    ensures
        with_subscriber(with_subscriber(ids, id), id) == with_subscriber(ids, id),
        with_subscriber(ids, id).contains(id),
{
    if !ids.contains(id) {
        assert(ids.push(id)[ids.len() as int] == id);
    }
}

/// With a non-zero capacity the event just retained is the newest one kept, and the
/// history never grows beyond the capacity.
pub proof fn lemma_retained_newest_first<E>(history: Seq<E>, event: E, capacity: usize)
    requires
        history.len() <= capacity,
    ensures
        retained_history(history, event, capacity).len() <= capacity,
        capacity > 0 ==> retained_history(history, event, capacity)[0] == event,
        capacity > 0 ==> forall|i: int|
            0 < i < retained_history(history, event, capacity).len() ==> #[trigger] retained_history(
                history,
                event,
                capacity,
            )[i] == history[i - 1],
{
}

/// When every subscriber's channel accepted the event, every subscriber stays.
pub proof fn lemma_no_closed_channel_keeps_subscribers(ids: Seq<Seq<char>>, outcomes: Seq<SendOutcome>)
    requires
        outcomes.len() == ids.len(),
        forall|i: int| 0 <= i < outcomes.len() ==> outcomes[i] != SendOutcome::Closed,
    ensures
        open_subscribers(ids, outcomes) == ids,
    decreases ids.len(),
{
    if ids.len() > 0 {
        lemma_no_closed_channel_keeps_subscribers(ids.drop_last(), outcomes.drop_last());
        assert(ids.drop_last().push(ids.last()) =~= ids);
    }
}

/// How many outcomes are of the given kind.
pub open spec fn count_outcomes(outcomes: Seq<SendOutcome>, kind: SendOutcome) -> nat
    decreases outcomes.len(),
{
    if outcomes.len() == 0 {
        0
    } else {
        count_outcomes(outcomes.drop_last(), kind) + if outcomes.last() == kind { 1nat } else { 0nat }
    }
}

/// The subscribers that stay: those whose channel is not closed, in order.
pub open spec fn open_subscribers(ids: Seq<Seq<char>>, outcomes: Seq<SendOutcome>) -> Seq<Seq<char>>
    decreases ids.len(),
{
    if ids.len() == 0 || outcomes.len() != ids.len() {
        ids
    } else {
        let prev = open_subscribers(ids.drop_last(), outcomes.drop_last());
        if outcomes.last() == SendOutcome::Closed { prev } else { prev.push(ids.last()) }
    }
}

/// The observer bus of one runtime.
pub struct ObserverBus<E> {
    subscribers: Vec<ObserverId>,
    history: Vec<E>,
    retained_capacity: usize,
    subscriber_capacity: usize,
    dropped_event_count: usize,
    closed_subscriber_count: usize,
    sink_error_count: usize,
}

/// No two subscriptions share an ID.
pub open spec fn distinct_ids(ids: Seq<Seq<char>>) -> bool {
    forall|i: int, j: int| 0 <= i < ids.len() && 0 <= j < ids.len() && i != j ==> ids[i] != ids[j]
}

impl<E> ObserverBus<E> {
    /// Subscriber IDs, in subscription order.
    pub closed spec fn subscriber_ids(&self) -> Seq<Seq<char>> {
        self.subscribers@.map_values(|o: ObserverId| o@)
    }

    /// Retained events, newest first.
    pub closed spec fn history(&self) -> Seq<E> {
        self.history@
    }

    /// How many events the bus retains.
    pub closed spec fn retained_capacity(&self) -> usize {
        self.retained_capacity
    }

    /// The capacity of each subscriber's channel.
    pub closed spec fn subscriber_capacity(&self) -> usize {
        self.subscriber_capacity
    }

    /// Events dropped because a subscriber's channel was full.
    pub closed spec fn dropped(&self) -> usize {
        self.dropped_event_count
    }

    /// Subscribers removed because their channel was closed.
    pub closed spec fn closed(&self) -> usize {
        self.closed_subscriber_count
    }

    /// Events the downstream sink failed to record.
    pub closed spec fn sink_errors(&self) -> usize {
        self.sink_error_count
    }

    /// One subscription per ID and a history within its capacity.
    pub open spec fn wf(&self) -> bool {
        &&& distinct_ids(self.subscriber_ids())
        &&& self.history().len() <= self.retained_capacity()
    }

    /// An empty bus that retains up to `retained_capacity` events; subscriber channels
    /// hold as many, and at least one.
    pub fn new(retained_capacity: usize) -> (r: Self)
        ensures
            r.wf(),
            r.subscriber_ids().len() == 0,
            r.history().len() == 0,
            r.retained_capacity() == retained_capacity,
            r.subscriber_capacity() == if retained_capacity > 1 { retained_capacity } else { 1 },
            r.dropped() == 0 && r.closed() == 0 && r.sink_errors() == 0,
    {
        let r = ObserverBus {
            subscribers: Vec::new(),
            history: Vec::new(),
            retained_capacity,
            subscriber_capacity: if retained_capacity > 1 { retained_capacity } else { 1 },
            dropped_event_count: 0,
            closed_subscriber_count: 0,
            sink_error_count: 0,
        };
        assert(r.subscriber_ids() =~= Seq::<Seq<char>>::empty());
        r
    }

    /// The capacity of the channel to create for a new subscriber.
    pub fn channel_capacity(&self) -> (r: usize)
        ensures
            r == self.subscriber_capacity(),
    {
        self.subscriber_capacity
    }

    /// Subscribes an observer; a later subscription under the same ID replaces the
    /// earlier one and keeps its place.
    pub fn subscribe(&mut self, observer_id: ObserverId)
        requires
            old(self).wf(),
        ensures
            final(self).wf(),
            final(self).subscriber_ids() == with_subscriber(old(self).subscriber_ids(), observer_id@),
            final(self).history() == old(self).history(),
            final(self).retained_capacity() == old(self).retained_capacity(),
            final(self).subscriber_capacity() == old(self).subscriber_capacity(),
            final(self).dropped() == old(self).dropped(),
            final(self).closed() == old(self).closed(),
            final(self).sink_errors() == old(self).sink_errors(),
    {
        if self.is_subscribed(&observer_id) {
            return;
        }
        let ghost before = self.subscribers@;
        self.subscribers.push(observer_id);
        assert(self.subscriber_ids() =~= before.map_values(|o: ObserverId| o@).push(observer_id@));
    }

    fn is_subscribed(&self, observer_id: &ObserverId) -> (b: bool)
        ensures
            b == self.subscriber_ids().contains(observer_id@),
    {
        let n = self.subscribers.len();
        let mut i: usize = 0;
        while i < n
            invariant
                n == self.subscribers@.len(),
                i <= n,
                forall|j: int| 0 <= j < i ==> self.subscriber_ids()[j] != observer_id@,
            decreases n - i,
        {
            assert(self.subscriber_ids()[i as int] == self.subscribers@[i as int]@);
            if self.subscribers[i].0 == observer_id.0 {
                assert(self.subscriber_ids()[i as int] == observer_id@);
                return true;
            }
            i = i + 1;
        }
        false
    }

    /// The subscribers to offer the next event to, in order.
    pub fn subscribers(&self) -> (r: Vec<ObserverId>)
        ensures
            r@.map_values(|o: ObserverId| o@) == self.subscriber_ids(),
    {
        let mut out: Vec<ObserverId> = Vec::new();
        let n = self.subscribers.len();
        let mut i: usize = 0;
        while i < n
            invariant
                n == self.subscribers@.len(),
                i <= n,
                out@.map_values(|o: ObserverId| o@) == self.subscriber_ids().take(i as int),
            decreases n - i,
        {
            let ghost before = out@;
            let c = self.subscribers[i].clone();
            out.push(c);
            assert(out@.map_values(|o: ObserverId| o@) =~= before.map_values(|o: ObserverId| o@).push(c@));
            assert(self.subscriber_ids()[i as int] == self.subscribers@[i as int]@);
            assert(out@.map_values(|o: ObserverId| o@) =~= self.subscriber_ids().take(i + 1));
            i = i + 1;
        }
        assert(self.subscriber_ids().take(n as int) =~= self.subscriber_ids());
        out
    }

    /// Retains an event: it becomes the newest, and the oldest beyond the capacity are
    /// dropped. A bus with capacity zero retains nothing.
    pub fn retain(&mut self, event: E)
        requires
            old(self).wf(),
        ensures
            final(self).wf(),
            final(self).history() == retained_history(old(self).history(), event, old(self).retained_capacity()),
            final(self).subscriber_ids() == old(self).subscriber_ids(),
            final(self).retained_capacity() == old(self).retained_capacity(),
            final(self).subscriber_capacity() == old(self).subscriber_capacity(),
            final(self).dropped() == old(self).dropped(),
            final(self).closed() == old(self).closed(),
            final(self).sink_errors() == old(self).sink_errors(),
    {
        if self.retained_capacity == 0 {
            return;
        }
        let ghost old_history = self.history@;
        self.history.insert(0, event);
        assert(self.history@ =~= seq![event] + old_history);
        self.history.truncate(self.retained_capacity);
        assert(self.history@ =~= retained_history(old_history, event, self.retained_capacity));
    }

    /// Applies the outcomes of offering one event to the subscribers (`outcomes[i]` for
    /// the i-th): full channels count as dropped events, closed channels remove their
    /// subscriber and are counted.
    pub fn record_delivery(&mut self, outcomes: &Vec<SendOutcome>)
        requires
            old(self).wf(),
            outcomes@.len() == old(self).subscriber_ids().len(),
            old(self).dropped() + count_outcomes(outcomes@, SendOutcome::Full) <= usize::MAX,
            old(self).closed() + count_outcomes(outcomes@, SendOutcome::Closed) <= usize::MAX,
        ensures
            final(self).wf(),
            final(self).subscriber_ids() == open_subscribers(old(self).subscriber_ids(), outcomes@),
            final(self).dropped() == old(self).dropped() + count_outcomes(outcomes@, SendOutcome::Full),
            final(self).closed() == old(self).closed() + count_outcomes(outcomes@, SendOutcome::Closed),
            final(self).history() == old(self).history(),
            final(self).retained_capacity() == old(self).retained_capacity(),
            final(self).subscriber_capacity() == old(self).subscriber_capacity(),
            final(self).sink_errors() == old(self).sink_errors(),
    {
        let ghost ids = self.subscriber_ids();
        let mut kept: Vec<ObserverId> = Vec::new();
        let mut dropped: usize = 0;
        let mut closed: usize = 0;
        let n = self.subscribers.len();
        let mut i: usize = 0;
        while i < n
            invariant
                n == self.subscribers@.len(),
                n == outcomes@.len(),
                ids == self.subscriber_ids(),
                distinct_ids(ids),
                i <= n,
                dropped == count_outcomes(outcomes@.take(i as int), SendOutcome::Full),
                closed == count_outcomes(outcomes@.take(i as int), SendOutcome::Closed),
                dropped <= i,
                closed <= i,
                kept@.map_values(|o: ObserverId| o@) == open_subscribers(ids.take(i as int), outcomes@.take(i as int)),
                forall|k: int| 0 <= k < kept@.len() ==> #[trigger] ids.take(i as int).contains(kept@[k]@),
            decreases n - i,
        {
            assert(outcomes@.take(i + 1).drop_last() =~= outcomes@.take(i as int));
            assert(ids.take(i + 1).drop_last() =~= ids.take(i as int));
            assert(ids[i as int] == self.subscribers@[i as int]@);
            match outcomes[i] {
                SendOutcome::Delivered => {
                    let ghost before = kept@;
                    let c = self.subscribers[i].clone();
                    kept.push(c);
                    assert(kept@.map_values(|o: ObserverId| o@) =~= before.map_values(|o: ObserverId| o@).push(c@));
                },
                SendOutcome::Full => {
                    dropped = dropped + 1;
                    let ghost before = kept@;
                    let c = self.subscribers[i].clone();
                    kept.push(c);
                    assert(kept@.map_values(|o: ObserverId| o@) =~= before.map_values(|o: ObserverId| o@).push(c@));
                },
                SendOutcome::Closed => {
                    closed = closed + 1;
                },
            }
            assert forall|k: int| 0 <= k < kept@.len() implies #[trigger] ids.take(i + 1).contains(kept@[k]@) by {
                if k < kept@.len() - 1 || outcomes@[i as int] == SendOutcome::Closed {
                    assert(ids.take(i as int).contains(kept@[k]@));
                    let w = choose|w: int| 0 <= w < i && ids.take(i as int)[w] == kept@[k]@;
                    assert(ids.take(i + 1)[w] == kept@[k]@);
                } else {
                    assert(ids.take(i + 1)[i as int] == kept@[k]@);
                }
            }
            i = i + 1;
        }
        assert(outcomes@.take(n as int) =~= outcomes@);
        assert(ids.take(n as int) =~= ids);
        proof {
            lemma_open_subscribers_distinct(ids, outcomes@);
        }
        self.subscribers = kept;
        self.dropped_event_count = self.dropped_event_count + dropped;
        self.closed_subscriber_count = self.closed_subscriber_count + closed;
    }

    /// Counts an event the downstream sink failed to record.
    pub fn record_sink_error(&mut self)
        requires
            old(self).sink_errors() < usize::MAX,
        ensures
            final(self).sink_errors() == old(self).sink_errors() + 1,
            final(self).subscriber_ids() == old(self).subscriber_ids(),
            final(self).history() == old(self).history(),
            final(self).retained_capacity() == old(self).retained_capacity(),
            final(self).subscriber_capacity() == old(self).subscriber_capacity(),
            final(self).dropped() == old(self).dropped(),
            final(self).closed() == old(self).closed(),
    {
        self.sink_error_count = self.sink_error_count + 1;
    }

    /// The retained events, newest first.
    pub fn history_events(&self) -> (r: &Vec<E>)
        ensures
            r@ == self.history(),
    {
        &self.history
    }

    /// Point-in-time metrics.
    pub fn snapshot(&self) -> (r: ObserverBusSnapshot)
        ensures
            r.subscriber_count == self.subscriber_ids().len(),
            r.retained_event_count == self.history().len(),
            r.dropped_event_count == self.dropped(),
            r.closed_subscriber_count == self.closed(),
            r.sink_error_count == self.sink_errors(),
    {
        ObserverBusSnapshot {
            subscriber_count: self.subscribers.len(),
            retained_event_count: self.history.len(),
            dropped_event_count: self.dropped_event_count,
            closed_subscriber_count: self.closed_subscriber_count,
            sink_error_count: self.sink_error_count,
        }
    }
}

/// Removing closed subscribers keeps the remaining IDs distinct.
pub proof fn lemma_open_subscribers_distinct(ids: Seq<Seq<char>>, outcomes: Seq<SendOutcome>)
    requires
        distinct_ids(ids),
        outcomes.len() == ids.len(),
    ensures
        distinct_ids(open_subscribers(ids, outcomes)),
        forall|k: int|
            0 <= k < open_subscribers(ids, outcomes).len() ==> #[trigger] ids.contains(
                open_subscribers(ids, outcomes)[k],
            ),
    decreases ids.len(),
{
    if ids.len() > 0 {
        let prev_ids = ids.drop_last();
        let prev_out = outcomes.drop_last();
        assert(distinct_ids(prev_ids));
        lemma_open_subscribers_distinct(prev_ids, prev_out);
        let prev = open_subscribers(prev_ids, prev_out);
        assert forall|k: int| 0 <= k < prev.len() implies #[trigger] prev[k] != ids.last() by {
            assert(prev_ids.contains(prev[k]));
            let w = choose|w: int| 0 <= w < prev_ids.len() && prev_ids[w] == prev[k];
            assert(ids[w] == prev[k]);
            assert(w != ids.len() - 1);
        }
        assert forall|k: int| 0 <= k < prev.len() implies #[trigger] ids.contains(prev[k]) by {
            assert(prev_ids.contains(prev[k]));
            let w = choose|w: int| 0 <= w < prev_ids.len() && prev_ids[w] == prev[k];
            assert(ids[w] == prev[k]);
        }
        if outcomes.last() != SendOutcome::Closed {
            assert(ids[ids.len() - 1] == ids.last());
        }
    }
}

} // verus!
