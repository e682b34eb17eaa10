//! Service actors of the default runtime: their kinds, subscriptions and bounded
//! event history.

use vstd::prelude::*;

use crate::domain::{clone_json, ChannelKind};

verus! {

/// The long-running services of the default runtime.
#[derive(Debug, Clone, Copy, PartialEq, Eq, Hash, Structural)]
pub enum ServiceKind {
    Algedonic,
    TemporalVariety,
    System2Coordination,
    System3Control,
    System4Intelligence,
    System4Scanner,
    System4Analytics,
    System4Forecasting,
    System5Policy,
    System5Identity,
    System5Values,
    System5Decisions,
    TelemetryReporter,
}

/// The ID a service reports itself under.
pub open spec fn service_id_text(kind: ServiceKind) -> Seq<char> {
    match kind {
        ServiceKind::System2Coordination => "system2"@,
        ServiceKind::System3Control => "system3"@,
        ServiceKind::System4Intelligence | ServiceKind::System4Scanner | ServiceKind::System4Analytics
        | ServiceKind::System4Forecasting => "system4"@,
        ServiceKind::System5Policy | ServiceKind::System5Identity | ServiceKind::System5Values
        | ServiceKind::System5Decisions => "system5"@,
        ServiceKind::Algedonic => "algedonic"@,
        ServiceKind::TemporalVariety => "temporal_variety"@,
        ServiceKind::TelemetryReporter => "telemetry"@,
    }
}

/// Returns the ID a service reports itself under.
pub fn service_id(kind: ServiceKind) -> (r: &'static str)
    ensures
        r@ == service_id_text(kind),
{
    match kind {
        ServiceKind::System2Coordination => "system2",
        ServiceKind::System3Control => "system3",
        ServiceKind::System4Intelligence | ServiceKind::System4Scanner | ServiceKind::System4Analytics
        | ServiceKind::System4Forecasting => "system4",
        ServiceKind::System5Policy | ServiceKind::System5Identity | ServiceKind::System5Values
        | ServiceKind::System5Decisions => "system5",
        ServiceKind::Algedonic => "algedonic",
        ServiceKind::TemporalVariety => "temporal_variety",
        ServiceKind::TelemetryReporter => "telemetry",
    }
}

/// The channels a service subscribes to when it starts, with the subscriber ID it uses.
pub open spec fn subscriptions_of(kind: ServiceKind) -> Seq<(ChannelKind, Seq<char>)> {
    match kind {
        ServiceKind::System2Coordination => seq![(ChannelKind::Coordination, "system2"@)],
        ServiceKind::System3Control => seq![
            (ChannelKind::ResourceBargain, "system3"@),
            (ChannelKind::Command, "system3"@),
            (ChannelKind::Audit, "system3"@),
        ],
        ServiceKind::System4Intelligence => seq![(ChannelKind::Command, "system4"@)],
        ServiceKind::System5Policy => seq![(ChannelKind::Algedonic, "system5"@)],
        ServiceKind::Algedonic => seq![(ChannelKind::Algedonic, "algedonic"@)],
        ServiceKind::TemporalVariety => seq![(ChannelKind::TemporalVariety, "temporal_variety"@)],
        _ => Seq::empty(),
    }
}

/// Returns the subscriptions a service makes when it starts.
pub fn service_subscriptions(kind: ServiceKind) -> (r: Vec<(ChannelKind, &'static str)>)
    ensures
        r@.map_values(|p: (ChannelKind, &'static str)| (p.0, p.1@)) == subscriptions_of(kind),
{
    let r: Vec<(ChannelKind, &'static str)> = match kind {
        ServiceKind::System2Coordination => vec![(ChannelKind::Coordination, "system2")],
        ServiceKind::System3Control => vec![
            (ChannelKind::ResourceBargain, "system3"),
            (ChannelKind::Command, "system3"),
            (ChannelKind::Audit, "system3"),
        ],
        ServiceKind::System4Intelligence => vec![(ChannelKind::Command, "system4")],
        ServiceKind::System5Policy => vec![(ChannelKind::Algedonic, "system5")],
        ServiceKind::Algedonic => vec![(ChannelKind::Algedonic, "algedonic")],
        ServiceKind::TemporalVariety => vec![(ChannelKind::TemporalVariety, "temporal_variety")],
        _ => Vec::new(),
    };
    assert(r@.map_values(|p: (ChannelKind, &'static str)| (p.0, p.1@)) =~= subscriptions_of(kind));
    r
}

/// A service actor of a given kind.
#[derive(Clone)]
pub struct ServiceActor {
    pub kind: ServiceKind,
}

/// How many events a service keeps.
pub const SERVICE_HISTORY_LIMIT: usize = 1000;

/// A service's state: its data and its events, newest first.
pub struct ServiceState {
    pub kind: ServiceKind,
    pub data: serde_json::Value,
    pub history: Vec<serde_json::Value>,
}

/// The history after an event is recorded: newest first, at most the limit.
pub open spec fn with_event(history: Seq<serde_json::Value>, event: serde_json::Value) -> Seq<serde_json::Value> {
    let h = seq![event] + history;
    if h.len() > SERVICE_HISTORY_LIMIT { h.take(SERVICE_HISTORY_LIMIT as int) } else { h }
}

impl ServiceState {
    /// A service state with the given data and no events.
    pub fn with_data(kind: ServiceKind, data: serde_json::Value) -> (r: Self)
        ensures
            r.kind == kind,
            r.data == data,
            r.history@.len() == 0,
    {
        ServiceState { kind, data, history: Vec::new() }
    }

    /// Records an event as the newest, dropping the oldest beyond the limit.
    pub fn record(&mut self, event: serde_json::Value)
        ensures
            final(self).kind == old(self).kind,
            final(self).data == old(self).data,
            final(self).history@ == with_event(old(self).history@, event),
    {
        let ghost h = self.history@;
        self.history.insert(0, event);
        assert(self.history@ =~= seq![event] + h);
        self.history.truncate(SERVICE_HISTORY_LIMIT);
        assert(self.history@ =~= with_event(h, event));
    }

    /// Copies the newest events, up to `limit`.
    pub fn recent(&self, limit: usize) -> (r: Vec<serde_json::Value>)
        ensures
            r@ == self.history@.take(if limit < self.history@.len() { limit as int } else { self.history@.len() as int }),
    {
        let n = if limit < self.history.len() { limit } else { self.history.len() };
        let mut out: Vec<serde_json::Value> = Vec::new();
        let mut i: usize = 0;
        while i < n
            invariant
                n <= self.history@.len(),
                i <= n,
                out@ == self.history@.take(i as int),
            decreases n - i,
        {
            out.push(clone_json(&self.history[i]));
            assert(out@ =~= self.history@.take(i + 1));
            i = i + 1;
        }
        out
    }
}

} // verus!
