//! The in-memory channel broker: subscriber lists and newest-first message history
//! for every channel kind, with routing decisions for published messages.
//!
//! The actor layer owns the subscriber mailboxes: it carries out the routes this
//! broker returns and reports the subscribers it could not reach.

use vstd::prelude::*;

use crate::domain::{flow_allowed, flow_error, subscriber_text, ChannelKind, SystemId, VsmMessage};

verus! {

/// How many messages each channel keeps.
pub const HISTORY_LIMIT: usize = 10_000;

/// One channel's subscribers, in subscription order, and its history, newest first.
pub struct ChannelState {
    subscribers: Vec<String>,
    history: Vec<VsmMessage>,
}

/// A channel as plain values.
pub struct ChannelModel {
    pub subscribers: Seq<Seq<char>>,
    pub history: Seq<VsmMessage>,
}

/// No subscriber ID appears twice.
pub open spec fn distinct(ids: Seq<Seq<char>>) -> bool {
    forall|i: int, j: int| 0 <= i < ids.len() && 0 <= j < ids.len() && i != j ==> ids[i] != ids[j]
}

/// The history after a message is retained: newest first, at most the limit.
pub open spec fn with_message(history: Seq<VsmMessage>, message: VsmMessage) -> Seq<VsmMessage> {
    let h = seq![message] + history;
    if h.len() > HISTORY_LIMIT { h.take(HISTORY_LIMIT as int) } else { h }
}

/// The subscribers without one ID.
pub open spec fn without(ids: Seq<Seq<char>>, id: Seq<char>) -> Seq<Seq<char>> {
    ids.filter(|x: Seq<char>| x != id)
}

impl View for ChannelState {
    type V = ChannelModel;

    closed spec fn view(&self) -> ChannelModel {
        ChannelModel { subscribers: self.subscribers@.map_values(|s: String| s@), history: self.history@ }
    }
}

impl ChannelState {
    /// One subscription per ID and a bounded history.
    pub open spec fn wf(&self) -> bool {
        distinct(self@.subscribers) && self@.history.len() <= HISTORY_LIMIT
    }

    fn new() -> (r: Self)
        ensures
            r.wf(),
            r@.subscribers.len() == 0,
            r@.history.len() == 0,
    {
        let r = ChannelState { subscribers: Vec::new(), history: Vec::new() };
        assert(r@.subscribers =~= Seq::<Seq<char>>::empty());
        r
    }

    fn position(&self, id: &String) -> (r: Option<usize>)
        ensures
            match r {
                Some(i) => i < self@.subscribers.len() && self@.subscribers[i as int] == id@,
                None => !self@.subscribers.contains(id@),
            },
    {
        let n = self.subscribers.len();
        let mut i: usize = 0;
        while i < n
            invariant
                n == self.subscribers@.len(),
                i <= n,
                forall|j: int| 0 <= j < i ==> self@.subscribers[j] != id@,
            decreases n - i,
        {
            assert(self@.subscribers[i as int] == self.subscribers@[i as int]@);
            if self.subscribers[i] == *id {
                return Some(i);
            }
            i = i + 1;
        }
        None
    }

    fn subscribe(&mut self, id: String)
        requires
            old(self).wf(),
        ensures
            final(self).wf(),
            final(self)@.history == old(self)@.history,
            old(self)@.subscribers.contains(id@) ==> final(self)@.subscribers == old(self)@.subscribers,
            !old(self)@.subscribers.contains(id@) ==> final(self)@.subscribers == old(self)@.subscribers.push(id@),
    {
        if self.position(&id).is_some() {
            return;
        }
        let ghost before = self.subscribers@;
        self.subscribers.push(id);
        assert(self@.subscribers =~= before.map_values(|s: String| s@).push(id@));
    }

    fn unsubscribe(&mut self, id: &String)
        requires
            old(self).wf(),
        ensures
            final(self).wf(),
            final(self)@.history == old(self)@.history,
            final(self)@.subscribers == without(old(self)@.subscribers, id@),
    {
        let ghost ids = self@.subscribers;
        match self.position(id) {
            None => {
                proof {
                    lemma_without_absent(ids, id@);
                }
            },
            Some(i) => {
                let ghost before = self.subscribers@;
                self.subscribers.remove(i);
                assert(self@.subscribers =~= ids.remove(i as int));
                proof {
                    lemma_without_present(ids, id@, i as int);
                }
            },
        }
    }

    fn retain(&mut self, message: VsmMessage)
        requires
            old(self).wf(),
        ensures
            final(self).wf(),
            final(self)@.subscribers == old(self)@.subscribers,
            final(self)@.history == with_message(old(self)@.history, message),
    {
        let ghost h = self.history@;
        self.history.insert(0, message);
        assert(self.history@ =~= seq![message] + h);
        self.history.truncate(HISTORY_LIMIT);
        assert(self.history@ =~= with_message(h, message));
    }

    fn subscriber_list(&self) -> (r: Vec<String>)
        ensures
            r@.map_values(|s: String| s@) == self@.subscribers,
    {
        let r = self.subscribers.clone();
        assert(r@ =~= self.subscribers@);
        r
    }

}

/// Removing an ID that is absent changes nothing.
proof fn lemma_without_absent(ids: Seq<Seq<char>>, id: Seq<char>)
    requires
        !ids.contains(id),
    ensures
        without(ids, id) == ids,
    decreases ids.len(),
{
    reveal(Seq::filter);
    if ids.len() > 0 {
        lemma_without_absent(ids.drop_last(), id);
        assert(ids.drop_last().push(ids.last()) =~= ids);
    } else {
        assert(without(ids, id) =~= ids);
    }
}

/// Removing an ID held once, at position `i`, removes that position.
proof fn lemma_without_present(ids: Seq<Seq<char>>, id: Seq<char>, i: int)
    requires
        distinct(ids),
        0 <= i < ids.len(),
        ids[i] == id,
    ensures
        without(ids, id) == ids.remove(i),
        distinct(ids.remove(i)),
    decreases ids.len(),
{
    reveal(Seq::filter);
    if i == ids.len() - 1 {
        assert(!ids.drop_last().contains(id));
        lemma_without_absent(ids.drop_last(), id);
        assert(ids.remove(i) =~= ids.drop_last());
    } else {
        lemma_without_present(ids.drop_last(), id, i);
        assert(ids.remove(i) =~= ids.drop_last().remove(i).push(ids.last()));
    }
}

/// Subscribing a new ID and then unsubscribing it gives back the subscribers as they
/// were, and after an unsubscribe the ID is no longer subscribed.
pub proof fn lemma_subscribe_then_unsubscribe(ids: Seq<Seq<char>>, id: Seq<char>)
    requires
        !ids.contains(id),
    ensures
        without(ids.push(id), id) == ids,
        !without(ids.push(id), id).contains(id),
{
    reveal(Seq::filter);
    assert(ids.push(id).drop_last() =~= ids);
    lemma_without_absent(ids, id);
}

/// What the actor layer does with a published message.
pub enum Route {
    /// The message breaks the flow matrix and is dropped with this reason.
    Rejected(String),
    /// Send to one subscriber; when that fails, drop it and broadcast to the rest.
    Deliver { target: String },
    /// Send to every listed subscriber.
    Broadcast { targets: Vec<String> },
}

/// The subscriber a message is meant for: System 5 for an algedonic signal, the
/// destination's subscriber ID otherwise.
pub open spec fn route_target(message: VsmMessage) -> Seq<char> {
    if message.channel == ChannelKind::Algedonic {
        "system5"@
    } else {
        subscriber_text(message.to)
    }
}

/// Per-channel statistics.
pub struct ChannelStats {
    pub channel: ChannelKind,
    pub subscriber_count: usize,
    pub subscribers: Vec<String>,
    pub active: bool,
    pub retained_message_count: usize,
}

/// The broker's state: one channel state per channel kind.
pub struct ChannelBroker {
    command: ChannelState,
    coordination: ChannelState,
    audit: ChannelState,
    algedonic: ChannelState,
    resource_bargain: ChannelState,
    temporal_variety: ChannelState,
}

impl ChannelBroker {
    /// One channel, as plain values.
    pub closed spec fn channel(&self, c: ChannelKind) -> ChannelModel {
        match c {
            ChannelKind::Command => self.command@,
            ChannelKind::Coordination => self.coordination@,
            ChannelKind::Audit => self.audit@,
            ChannelKind::Algedonic => self.algedonic@,
            ChannelKind::ResourceBargain => self.resource_bargain@,
            ChannelKind::TemporalVariety => self.temporal_variety@,
        }
    }

    /// Every channel has distinct subscribers and a bounded history.
    pub open spec fn wf(&self) -> bool {
        forall|c: ChannelKind|
            distinct(#[trigger] self.channel(c).subscribers) && self.channel(c).history.len() <= HISTORY_LIMIT
    }

    /// Everything but one channel is unchanged.
    pub open spec fn others_unchanged(&self, other: &Self, c: ChannelKind) -> bool {
        forall|d: ChannelKind| d != c ==> #[trigger] self.channel(d) == other.channel(d)
    }

    /// A broker with every channel empty.
    pub fn new() -> (r: Self)
        ensures
            r.wf(),
            forall|c: ChannelKind| #[trigger] r.channel(c).subscribers.len() == 0 && r.channel(c).history.len() == 0,
    {
        ChannelBroker {
            command: ChannelState::new(),
            coordination: ChannelState::new(),
            audit: ChannelState::new(),
            algedonic: ChannelState::new(),
            resource_bargain: ChannelState::new(),
            temporal_variety: ChannelState::new(),
        }
    }

    fn state(&self, c: ChannelKind) -> (r: &ChannelState)
        ensures
            r@ == self.channel(c),
            self.wf() ==> r.wf(),
    {
        proof {
            if self.wf() {
                assert(distinct(self.channel(c).subscribers));
            }
        }
        match c {
            ChannelKind::Command => &self.command,
            ChannelKind::Coordination => &self.coordination,
            ChannelKind::Audit => &self.audit,
            ChannelKind::Algedonic => &self.algedonic,
            ChannelKind::ResourceBargain => &self.resource_bargain,
            ChannelKind::TemporalVariety => &self.temporal_variety,
        }
    }

    /// Subscribes an ID to a channel; subscribing again keeps the one subscription.
    pub fn subscribe(&mut self, channel: ChannelKind, subscriber_id: String)
        requires
            old(self).wf(),
        ensures
            final(self).wf(),
            final(self).others_unchanged(old(self), channel),
            final(self).channel(channel).history == old(self).channel(channel).history,
            old(self).channel(channel).subscribers.contains(subscriber_id@) ==> final(self).channel(channel).subscribers
                == old(self).channel(channel).subscribers,
            !old(self).channel(channel).subscribers.contains(subscriber_id@) ==> final(self).channel(
                channel,
            ).subscribers == old(self).channel(channel).subscribers.push(subscriber_id@),
    {
        proof {
            assert(distinct(self.channel(channel).subscribers));
        }
        match channel {
            ChannelKind::Command => self.command.subscribe(subscriber_id),
            ChannelKind::Coordination => self.coordination.subscribe(subscriber_id),
            ChannelKind::Audit => self.audit.subscribe(subscriber_id),
            ChannelKind::Algedonic => self.algedonic.subscribe(subscriber_id),
            ChannelKind::ResourceBargain => self.resource_bargain.subscribe(subscriber_id),
            ChannelKind::TemporalVariety => self.temporal_variety.subscribe(subscriber_id),
        }
        assert forall|c: ChannelKind|
            distinct(#[trigger] self.channel(c).subscribers) && self.channel(c).history.len() <= HISTORY_LIMIT by {
            if c != channel {
                assert(distinct(old(self).channel(c).subscribers));
            }
        }
    }

    /// Removes a subscriber from a channel.
    pub fn unsubscribe(&mut self, channel: ChannelKind, subscriber_id: &String)
        requires
            old(self).wf(),
        ensures
            final(self).wf(),
            final(self).others_unchanged(old(self), channel),
            final(self).channel(channel).history == old(self).channel(channel).history,
            final(self).channel(channel).subscribers == without(old(self).channel(channel).subscribers, subscriber_id@),
    {
        proof {
            assert(distinct(self.channel(channel).subscribers));
        }
        match channel {
            ChannelKind::Command => self.command.unsubscribe(subscriber_id),
            ChannelKind::Coordination => self.coordination.unsubscribe(subscriber_id),
            ChannelKind::Audit => self.audit.unsubscribe(subscriber_id),
            ChannelKind::Algedonic => self.algedonic.unsubscribe(subscriber_id),
            ChannelKind::ResourceBargain => self.resource_bargain.unsubscribe(subscriber_id),
            ChannelKind::TemporalVariety => self.temporal_variety.unsubscribe(subscriber_id),
        }
        assert forall|c: ChannelKind|
            distinct(#[trigger] self.channel(c).subscribers) && self.channel(c).history.len() <= HISTORY_LIMIT by {
            if c != channel {
                assert(distinct(old(self).channel(c).subscribers));
            }
        }
    }

    /// Retains a message in the history of its own channel.
    pub fn retain(&mut self, message: VsmMessage)
        requires
            old(self).wf(),
        ensures
            final(self).wf(),
            final(self).others_unchanged(old(self), message.channel),
            final(self).channel(message.channel).subscribers == old(self).channel(message.channel).subscribers,
            final(self).channel(message.channel).history == with_message(
                old(self).channel(message.channel).history,
                message,
            ),
    {
        let channel = message.channel;
        proof {
            assert(distinct(self.channel(channel).subscribers));
        }
        match channel {
            ChannelKind::Command => self.command.retain(message),
            ChannelKind::Coordination => self.coordination.retain(message),
            ChannelKind::Audit => self.audit.retain(message),
            ChannelKind::Algedonic => self.algedonic.retain(message),
            ChannelKind::ResourceBargain => self.resource_bargain.retain(message),
            ChannelKind::TemporalVariety => self.temporal_variety.retain(message),
        }
        assert forall|c: ChannelKind|
            distinct(#[trigger] self.channel(c).subscribers) && self.channel(c).history.len() <= HISTORY_LIMIT by {
            if c != channel {
                assert(distinct(old(self).channel(c).subscribers));
            }
        }
    }

    /// Decides where a published message goes: a message that breaks the flow matrix is
    /// rejected; any other goes to the subscriber it is meant for (System 5 for an
    /// algedonic signal, its destination otherwise), or to every subscriber of the
    /// channel when that subscriber is absent.
    pub fn route(&self, message: &VsmMessage) -> (r: Route)
        requires
            self.wf(),
        ensures
            !flow_allowed(message.from, message.to, message.channel) ==> (r matches Route::Rejected(e) && e@
                == flow_error(message.from, message.to, message.channel)),
            flow_allowed(message.from, message.to, message.channel) ==> (
            if self.channel(message.channel).subscribers.contains(route_target(*message)) {
                r matches Route::Deliver { target } && target@ == route_target(*message)
            } else {
                r matches Route::Broadcast { targets } && targets@.map_values(|s: String| s@) == self.channel(
                    message.channel,
                ).subscribers
            }),
    {
        match message.validate() {
            Err(e) => return Route::Rejected(e),
            Ok(()) => {},
        }
        let state = self.state(message.channel);
        let target = if message.channel == ChannelKind::Algedonic {
            "system5".to_owned()
        } else {
            message.to.subscriber_id().to_owned()
        };
        match state.position(&target) {
            Some(_) => Route::Deliver { target },
            None => Route::Broadcast { targets: state.subscriber_list() },
        }
    }

    /// The subscribers a broadcast on a channel goes to.
    pub fn broadcast_targets(&self, channel: ChannelKind) -> (r: Vec<String>)
        ensures
            r@.map_values(|s: String| s@) == self.channel(channel).subscribers,
    {
        self.state(channel).subscriber_list()
    }

    /// Statistics of one channel; every channel is active.
    pub fn stats(&self, channel: ChannelKind) -> (r: ChannelStats)
        ensures
            r.channel == channel,
            r.subscriber_count == self.channel(channel).subscribers.len(),
            r.subscribers@.map_values(|s: String| s@) == self.channel(channel).subscribers,
            r.active,
            r.retained_message_count == self.channel(channel).history.len(),
    {
        let state = self.state(channel);
        let subscribers = state.subscriber_list();
        let count = subscribers.len();
        ChannelStats {
            channel,
            subscriber_count: count,
            subscribers,
            active: true,
            retained_message_count: state.history.len(),
        }
    }

    /// The history of one channel, newest first.
    pub fn history(&self, channel: ChannelKind) -> (r: &Vec<VsmMessage>)
        ensures
            r@ == self.channel(channel).history,
    {
        &self.state(channel).history
    }
}

/// Whether a broadcast on a channel is delivered as an algedonic signal.
pub fn broadcast_is_algedonic(channel: ChannelKind) -> (b: bool)
    ensures
        b == (channel == ChannelKind::Algedonic),
{
    channel == ChannelKind::Algedonic
}

} // verus!
