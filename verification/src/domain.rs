//! Core VSM message, channel and subsystem vocabulary.
//!
//! `VsmMessage` is the brokered inter-system envelope. Its flow check enforces the
//! internal flow matrix for command, coordination, audit, resource-bargain and
//! algedonic messages; external messages and broadcasts are more permissive.
//! Timestamps are epoch milliseconds; payloads are JSON values.

use vstd::prelude::*;

use crate::json::{copy_opt_json, opt_model, JsonValue};
use crate::support::{fresh_uuid, is_uuid_v4_text};
use crate::text::{concat2, concat3};

verus! {

/// A JSON value from `serde_json`, carried through without being inspected.
#[verifier::external_type_specification]
#[verifier::external_body]
pub struct ExJsonValue(serde_json::Value);

/// Calls `<serde_json::Value as Clone>::clone`.
///
/// The derived clone copies the value, so the copy equals the original.
#[verifier::external_body]
pub(crate) fn clone_json(v: &serde_json::Value) -> (r: serde_json::Value)
    ensures
        r == *v,
{
    v.clone()
}

/// Copies an optional JSON value.
pub fn clone_opt_json(v: &Option<serde_json::Value>) -> (r: Option<serde_json::Value>)
    ensures
        r == *v,
{
    match v {
        Some(x) => Some(clone_json(x)),
        None => None,
    }
}

/// Subsystems and endpoints that exchange brokered messages.
#[derive(Debug, Clone, Copy, PartialEq, Eq, Hash, Structural)]
pub enum SystemId {
    All,
    External,
    System1,
    System2,
    System3,
    System3Star,
    System4,
    System5,
    RateLimiter,
    Telemetry,
    TemporalVariety,
    Algedonic,
    Goldrush,
    StarterSystem,
    EcosystemTest,
}

/// The subscriber ID a system is reached under: its snake_case name.
pub open spec fn subscriber_text(s: SystemId) -> Seq<char> {
    match s {
        SystemId::All => "all"@,
        SystemId::External => "external"@,
        SystemId::System1 => "system1"@,
        SystemId::System2 => "system2"@,
        SystemId::System3 => "system3"@,
        SystemId::System3Star => "system3_star"@,
        SystemId::System4 => "system4"@,
        SystemId::System5 => "system5"@,
        SystemId::RateLimiter => "rate_limiter"@,
        SystemId::Telemetry => "telemetry"@,
        SystemId::TemporalVariety => "temporal_variety"@,
        SystemId::Algedonic => "algedonic"@,
        SystemId::Goldrush => "goldrush"@,
        SystemId::StarterSystem => "starter_system"@,
        SystemId::EcosystemTest => "ecosystem_test"@,
    }
}

/// The name `{:?}` prints for a system.
pub open spec fn system_debug(s: SystemId) -> Seq<char> {
    match s {
        SystemId::All => "All"@,
        SystemId::External => "External"@,
        SystemId::System1 => "System1"@,
        SystemId::System2 => "System2"@,
        SystemId::System3 => "System3"@,
        SystemId::System3Star => "System3Star"@,
        SystemId::System4 => "System4"@,
        SystemId::System5 => "System5"@,
        SystemId::RateLimiter => "RateLimiter"@,
        SystemId::Telemetry => "Telemetry"@,
        SystemId::TemporalVariety => "TemporalVariety"@,
        SystemId::Algedonic => "Algedonic"@,
        SystemId::Goldrush => "Goldrush"@,
        SystemId::StarterSystem => "StarterSystem"@,
        SystemId::EcosystemTest => "EcosystemTest"@,
    }
}

impl SystemId {
    /// Returns the subscriber ID the system is reached under.
    pub fn subscriber_id(self) -> (r: &'static str)
        ensures
            r@ == subscriber_text(self),
    {
        match self {
            SystemId::All => "all",
            SystemId::External => "external",
            SystemId::System1 => "system1",
            SystemId::System2 => "system2",
            SystemId::System3 => "system3",
            SystemId::System3Star => "system3_star",
            SystemId::System4 => "system4",
            SystemId::System5 => "system5",
            SystemId::RateLimiter => "rate_limiter",
            SystemId::Telemetry => "telemetry",
            SystemId::TemporalVariety => "temporal_variety",
            SystemId::Algedonic => "algedonic",
            SystemId::Goldrush => "goldrush",
            SystemId::StarterSystem => "starter_system",
            SystemId::EcosystemTest => "ecosystem_test",
        }
    }

    /// Returns the name `{:?}` prints for the system.
    pub fn debug_name(self) -> (r: &'static str)
        ensures
            r@ == system_debug(self),
    {
        match self {
            SystemId::All => "All",
            SystemId::External => "External",
            SystemId::System1 => "System1",
            SystemId::System2 => "System2",
            SystemId::System3 => "System3",
            SystemId::System3Star => "System3Star",
            SystemId::System4 => "System4",
            SystemId::System5 => "System5",
            SystemId::RateLimiter => "RateLimiter",
            SystemId::Telemetry => "Telemetry",
            SystemId::TemporalVariety => "TemporalVariety",
            SystemId::Algedonic => "Algedonic",
            SystemId::Goldrush => "Goldrush",
            SystemId::StarterSystem => "StarterSystem",
            SystemId::EcosystemTest => "EcosystemTest",
        }
    }
}

/// Brokered channel kinds.
#[derive(Debug, Clone, Copy, PartialEq, Eq, Hash, Structural)]
pub enum ChannelKind {
    Command,
    Coordination,
    Audit,
    Algedonic,
    ResourceBargain,
    TemporalVariety,
}

/// Every channel kind, in declaration order.
pub open spec fn all_channels() -> Seq<ChannelKind> {
    seq![
        ChannelKind::Command,
        ChannelKind::Coordination,
        ChannelKind::Audit,
        ChannelKind::Algedonic,
        ChannelKind::ResourceBargain,
        ChannelKind::TemporalVariety,
    ]
}

/// The name of a channel: `<kind>_channel` in snake_case.
pub open spec fn channel_text(c: ChannelKind) -> Seq<char> {
    match c {
        ChannelKind::Command => "command_channel"@,
        ChannelKind::Coordination => "coordination_channel"@,
        ChannelKind::Audit => "audit_channel"@,
        ChannelKind::Algedonic => "algedonic_channel"@,
        ChannelKind::ResourceBargain => "resource_bargain_channel"@,
        ChannelKind::TemporalVariety => "temporal_variety_channel"@,
    }
}

impl ChannelKind {
    /// Every channel kind, in declaration order.
    pub fn all() -> (r: Vec<ChannelKind>)
        ensures
            r@ == all_channels(),
    {
        let r = vec![
            ChannelKind::Command,
            ChannelKind::Coordination,
            ChannelKind::Audit,
            ChannelKind::Algedonic,
            ChannelKind::ResourceBargain,
            ChannelKind::TemporalVariety,
        ];
        assert(r@ =~= all_channels());
        r
    }

    /// Returns the channel's name.
    pub fn as_str(self) -> (r: &'static str)
        ensures
            r@ == channel_text(self),
    {
        match self {
            ChannelKind::Command => "command_channel",
            ChannelKind::Coordination => "coordination_channel",
            ChannelKind::Audit => "audit_channel",
            ChannelKind::Algedonic => "algedonic_channel",
            ChannelKind::ResourceBargain => "resource_bargain_channel",
            ChannelKind::TemporalVariety => "temporal_variety_channel",
        }
    }
}

/// Message kinds, serialized in snake_case.
#[derive(Debug, PartialEq, Eq)]
pub enum MessageKind {
    Execute,
    Coordinate,
    UnitRegistered,
    UnitRequest,
    AuditRequest,
    AuditResponse,
    IdentityUpdate,
    PolicyUpdate,
    ValuesUpdate,
    ResourceRequest,
    ResourceAllocation,
    EnvironmentalUpdate,
    IntelligenceRequest,
    ModelUpdate,
    Forecast,
    StrategicChange,
    DecisionRequest,
    DecisionResponse,
    Alert,
    Emergency,
    Critical,
    EmergencySignal,
    PainSignal,
    PleasureSignal,
    Other(String),
}

/// Alerts, emergencies, critical messages and pain signals are high priority.
pub open spec fn high_priority(k: MessageKind) -> bool {
    match k {
        MessageKind::Alert | MessageKind::Emergency | MessageKind::Critical | MessageKind::EmergencySignal
        | MessageKind::PainSignal => true,
        _ => false,
    }
}

impl MessageKind {
    /// Returns true for kinds that must be handled first.
    pub fn is_high_priority(&self) -> (b: bool)
        ensures
            b == high_priority(*self),
    {
        match self {
            MessageKind::Alert | MessageKind::Emergency | MessageKind::Critical | MessageKind::EmergencySignal
            | MessageKind::PainSignal => true,
            _ => false,
        }
    }

    /// Copies the kind.
    pub fn copy(&self) -> (r: Self)
        ensures
            r == *self,
    {
        match self {
            MessageKind::Execute => MessageKind::Execute,
            MessageKind::Coordinate => MessageKind::Coordinate,
            MessageKind::UnitRegistered => MessageKind::UnitRegistered,
            MessageKind::UnitRequest => MessageKind::UnitRequest,
            MessageKind::AuditRequest => MessageKind::AuditRequest,
            MessageKind::AuditResponse => MessageKind::AuditResponse,
            MessageKind::IdentityUpdate => MessageKind::IdentityUpdate,
            MessageKind::PolicyUpdate => MessageKind::PolicyUpdate,
            MessageKind::ValuesUpdate => MessageKind::ValuesUpdate,
            MessageKind::ResourceRequest => MessageKind::ResourceRequest,
            MessageKind::ResourceAllocation => MessageKind::ResourceAllocation,
            MessageKind::EnvironmentalUpdate => MessageKind::EnvironmentalUpdate,
            MessageKind::IntelligenceRequest => MessageKind::IntelligenceRequest,
            MessageKind::ModelUpdate => MessageKind::ModelUpdate,
            MessageKind::Forecast => MessageKind::Forecast,
            MessageKind::StrategicChange => MessageKind::StrategicChange,
            MessageKind::DecisionRequest => MessageKind::DecisionRequest,
            MessageKind::DecisionResponse => MessageKind::DecisionResponse,
            MessageKind::Alert => MessageKind::Alert,
            MessageKind::Emergency => MessageKind::Emergency,
            MessageKind::Critical => MessageKind::Critical,
            MessageKind::EmergencySignal => MessageKind::EmergencySignal,
            MessageKind::PainSignal => MessageKind::PainSignal,
            MessageKind::PleasureSignal => MessageKind::PleasureSignal,
            MessageKind::Other(s) => MessageKind::Other(s.clone()),
        }
    }
}

/// The brokered inter-system envelope.
pub struct VsmMessage {
    pub id: String,
    pub from: SystemId,
    pub to: SystemId,
    pub channel: ChannelKind,
    pub kind: MessageKind,
    pub payload: JsonValue,
    pub timestamp: i64,
    pub metadata: Option<JsonValue>,
    pub correlation_id: Option<String>,
    pub reply_to: Option<String>,
}

/// Two messages with the same fields and the same JSON content.
pub open spec fn same_message(a: VsmMessage, b: VsmMessage) -> bool {
    &&& a.id == b.id
    &&& a.from == b.from
    &&& a.to == b.to
    &&& a.channel == b.channel
    &&& a.kind == b.kind
    &&& a.payload@ == b.payload@
    &&& a.timestamp == b.timestamp
    &&& opt_model(a.metadata) == opt_model(b.metadata)
    &&& a.correlation_id == b.correlation_id
    &&& a.reply_to == b.reply_to
}

/// A fresh message ID: `msg_` and a random UUID.
pub open spec fn is_message_id(id: Seq<char>) -> bool {
    exists|u: Seq<char>| is_uuid_v4_text(u) && id == "msg_"@ + u
}

impl VsmMessage {
    /// Copies the message.
    pub fn copy(&self) -> (r: Self)
        ensures
            same_message(r, *self),
    {
        VsmMessage {
            id: self.id.clone(),
            from: self.from,
            to: self.to,
            channel: self.channel,
            kind: self.kind.copy(),
            payload: self.payload.copy(),
            timestamp: self.timestamp,
            metadata: copy_opt_json(&self.metadata),
            correlation_id: crate::protocol::system2::copy_opt(&self.correlation_id),
            reply_to: crate::protocol::system2::copy_opt(&self.reply_to),
        }
    }

    /// Creates a message with a fresh `msg_` ID, sent at `now`.
    pub fn new(
        from: SystemId,
        to: SystemId,
        channel: ChannelKind,
        kind: MessageKind,
        payload: JsonValue,
        now: i64,
    ) -> (r: Self)
        ensures
            is_message_id(r.id@),
            r.from == from,
            r.to == to,
            r.channel == channel,
            r.kind == kind,
            r.payload == payload,
            r.timestamp == now,
            r.metadata is None,
            r.correlation_id is None,
            r.reply_to is None,
    {
        let u = fresh_uuid();
        let id = concat2("msg_", u.as_str());
        assert(id@ == "msg_"@ + u@);
        VsmMessage {
            id,
            from,
            to,
            channel,
            kind,
            payload,
            timestamp: now,
            metadata: None,
            correlation_id: None,
            reply_to: None,
        }
    }

    /// A command-channel message.
    pub fn command(from: SystemId, to: SystemId, kind: MessageKind, payload: JsonValue, now: i64) -> (r: Self)
        ensures
            is_message_id(r.id@),
            r.from == from && r.to == to && r.channel == ChannelKind::Command && r.kind == kind,
            r.payload == payload && r.timestamp == now,
            r.metadata is None && r.correlation_id is None && r.reply_to is None,
    {
        VsmMessage::new(from, to, ChannelKind::Command, kind, payload, now)
    }

    /// A coordination-channel message.
    pub fn coordination(from: SystemId, to: SystemId, kind: MessageKind, payload: JsonValue, now: i64) -> (r:
        Self)
        ensures
            is_message_id(r.id@),
            r.from == from && r.to == to && r.channel == ChannelKind::Coordination && r.kind == kind,
            r.payload == payload && r.timestamp == now,
            r.metadata is None && r.correlation_id is None && r.reply_to is None,
    {
        VsmMessage::new(from, to, ChannelKind::Coordination, kind, payload, now)
    }

    /// An audit-channel message.
    pub fn audit(from: SystemId, to: SystemId, kind: MessageKind, payload: JsonValue, now: i64) -> (r: Self)
        ensures
            is_message_id(r.id@),
            r.from == from && r.to == to && r.channel == ChannelKind::Audit && r.kind == kind,
            r.payload == payload && r.timestamp == now,
            r.metadata is None && r.correlation_id is None && r.reply_to is None,
    {
        VsmMessage::new(from, to, ChannelKind::Audit, kind, payload, now)
    }

    /// A resource-bargain message.
    pub fn resource_bargain(from: SystemId, to: SystemId, kind: MessageKind, payload: JsonValue, now: i64) -> (r:
        Self)
        ensures
            is_message_id(r.id@),
            r.from == from && r.to == to && r.channel == ChannelKind::ResourceBargain && r.kind == kind,
            r.payload == payload && r.timestamp == now,
            r.metadata is None && r.correlation_id is None && r.reply_to is None,
    {
        VsmMessage::new(from, to, ChannelKind::ResourceBargain, kind, payload, now)
    }

    /// An emergency signal to System 5 on the algedonic channel.
    pub fn algedonic(from: SystemId, payload: JsonValue, now: i64) -> (r: Self)
        ensures
            is_message_id(r.id@),
            r.from == from && r.to == SystemId::System5 && r.channel == ChannelKind::Algedonic,
            r.kind == MessageKind::EmergencySignal,
            r.payload == payload && r.timestamp == now,
            r.metadata is None && r.correlation_id is None && r.reply_to is None,
    {
        VsmMessage::new(from, SystemId::System5, ChannelKind::Algedonic, MessageKind::EmergencySignal, payload, now)
    }

    /// A reply: sent back along the same channel, correlated with the original's
    /// correlation ID (or its ID when it has none) and answering the original.
    pub fn reply(&self, kind: MessageKind, payload: JsonValue, now: i64) -> (r: Self)
        ensures
            is_message_id(r.id@),
            r.from == self.to,
            r.to == self.from,
            r.channel == self.channel,
            r.kind == kind,
            r.payload == payload,
            r.timestamp == now,
            r.metadata is None,
            r.correlation_id == Some(
                match self.correlation_id {
                    Some(c) => c,
                    None => self.id,
                },
            ),
            r.reply_to == Some(self.id),
    {
        let mut reply = VsmMessage::new(self.to, self.from, self.channel, kind, payload, now);
        let correlation = match &self.correlation_id {
            Some(c) => c.clone(),
            None => self.id.clone(),
        };
        reply.correlation_id = Some(correlation);
        reply.reply_to = Some(self.id.clone());
        reply
    }

    /// Checks the message against the flow matrix.
    pub fn validate_basic_flow(&self) -> (r: Result<(), String>)
        ensures
            r is Ok <==> flow_allowed(self.from, self.to, self.channel),
            r matches Err(e) ==> e@ == flow_error(self.from, self.to, self.channel),
    {
        if self.from == SystemId::External || self.to == SystemId::External || self.to == SystemId::All {
            return Ok(());
        }
        let allowed = match self.channel {
            ChannelKind::Command => match (self.from, self.to) {
                (SystemId::System5, SystemId::System4) | (SystemId::System5, SystemId::System3) | (
                    SystemId::System4,
                    SystemId::System3,
                ) | (SystemId::System3, SystemId::System1) | (SystemId::System5, SystemId::System1) | (
                    SystemId::System4,
                    SystemId::System1,
                ) => true,
                _ => false,
            },
            ChannelKind::Coordination => match (self.from, self.to) {
                (SystemId::System1, SystemId::System2) | (SystemId::System2, SystemId::System1) => true,
                _ => false,
            },
            ChannelKind::Audit => match (self.from, self.to) {
                (SystemId::System3Star, SystemId::System1) | (SystemId::System1, SystemId::System3Star) | (
                    SystemId::System3,
                    SystemId::System1,
                ) | (SystemId::System1, SystemId::System3) => true,
                _ => false,
            },
            ChannelKind::Algedonic => self.to == SystemId::System5 || self.to == SystemId::Algedonic,
            ChannelKind::ResourceBargain => match (self.from, self.to) {
                (SystemId::System1, SystemId::System3) | (SystemId::System3, SystemId::System1) => true,
                _ => false,
            },
            ChannelKind::TemporalVariety => true,
        };
        if allowed {
            return Ok(());
        }
        let from = self.from.debug_name();
        let to = self.to.debug_name();
        let e = match self.channel {
            ChannelKind::Algedonic => concat2("invalid algedonic destination: ", to),
            _ => {
                let prefix = match self.channel {
                    ChannelKind::Command => "invalid command flow: ",
                    ChannelKind::Coordination => "invalid coordination flow: ",
                    ChannelKind::Audit => "invalid audit flow: ",
                    _ => "invalid resource bargain flow: ",
                };
                let mut t = concat3(prefix, from, " -> ");
                t.append(to);
                t
            },
        };
        Err(e)
    }

    /// Validates the message; the flow check is the whole validation.
    pub fn validate(&self) -> (r: Result<(), String>)
        ensures
            r is Ok <==> flow_allowed(self.from, self.to, self.channel),
            r matches Err(e) ==> e@ == flow_error(self.from, self.to, self.channel),
    {
        self.validate_basic_flow()
    }
}

/// The flow matrix: messages from or to the outside and broadcasts always pass;
/// otherwise each channel admits its own flows.
pub open spec fn flow_allowed(from: SystemId, to: SystemId, channel: ChannelKind) -> bool {
    if from == SystemId::External || to == SystemId::External || to == SystemId::All {
        true
    } else {
        match channel {
            ChannelKind::Command => (from == SystemId::System5 && to == SystemId::System4) || (from == SystemId::System5
                && to == SystemId::System3) || (from == SystemId::System4 && to == SystemId::System3) || (from
                == SystemId::System3 && to == SystemId::System1) || (from == SystemId::System5 && to
                == SystemId::System1) || (from == SystemId::System4 && to == SystemId::System1),
            ChannelKind::Coordination => (from == SystemId::System1 && to == SystemId::System2) || (from
                == SystemId::System2 && to == SystemId::System1),
            ChannelKind::Audit => (from == SystemId::System3Star && to == SystemId::System1) || (from
                == SystemId::System1 && to == SystemId::System3Star) || (from == SystemId::System3 && to
                == SystemId::System1) || (from == SystemId::System1 && to == SystemId::System3),
            ChannelKind::Algedonic => to == SystemId::System5 || to == SystemId::Algedonic,
            ChannelKind::ResourceBargain => (from == SystemId::System1 && to == SystemId::System3) || (from
                == SystemId::System3 && to == SystemId::System1),
            ChannelKind::TemporalVariety => true,
        }
    }
}

/// A system inside the runtime: neither the outside world nor the broadcast address.
pub open spec fn internal(from: SystemId, to: SystemId) -> bool {
    from != SystemId::External && to != SystemId::External && to != SystemId::All
}

/// The flow matrix, channel by channel. Anything from or to the outside, and anything
/// sent to all, passes. Between systems inside the runtime:
/// - commands go down the hierarchy: System 5 to Systems 4, 3 and 1, System 4 to
///   Systems 3 and 1, and System 3 to System 1;
/// - coordination runs both ways between Systems 1 and 2;
/// - audits run both ways between System 1 and Systems 3 and 3*;
/// - resource bargaining runs both ways between Systems 1 and 3;
/// - algedonic signals go to System 5 or the algedonic channel, from anywhere;
/// - temporal variety flows anywhere.
pub proof fn lemma_flow_matrix(from: SystemId, to: SystemId)
    ensures
        !internal(from, to) ==> flow_allowed(from, to, ChannelKind::Command) && flow_allowed(
            from,
            to,
            ChannelKind::Coordination,
        ) && flow_allowed(from, to, ChannelKind::Audit) && flow_allowed(from, to, ChannelKind::Algedonic)
            && flow_allowed(from, to, ChannelKind::ResourceBargain) && flow_allowed(
            from,
            to,
            ChannelKind::TemporalVariety,
        ),
        internal(from, to) ==> (flow_allowed(from, to, ChannelKind::Command) <==> ((from == SystemId::System5 && (to
            == SystemId::System4 || to == SystemId::System3 || to == SystemId::System1)) || (from == SystemId::System4
            && (to == SystemId::System3 || to == SystemId::System1)) || (from == SystemId::System3 && to
            == SystemId::System1))),
        internal(from, to) ==> (flow_allowed(from, to, ChannelKind::Coordination) <==> ((from == SystemId::System1
            && to == SystemId::System2) || (from == SystemId::System2 && to == SystemId::System1))),
        internal(from, to) ==> (flow_allowed(from, to, ChannelKind::Audit) <==> ((from == SystemId::System1 && (to
            == SystemId::System3 || to == SystemId::System3Star)) || (to == SystemId::System1 && (from
            == SystemId::System3 || from == SystemId::System3Star)))),
        internal(from, to) ==> (flow_allowed(from, to, ChannelKind::ResourceBargain) <==> ((from == SystemId::System1
            && to == SystemId::System3) || (from == SystemId::System3 && to == SystemId::System1))),
        internal(from, to) ==> (flow_allowed(from, to, ChannelKind::Algedonic) <==> (to == SystemId::System5 || to
            == SystemId::Algedonic)),
        flow_allowed(from, to, ChannelKind::TemporalVariety),
{
}

/// Coordination, audit and resource bargaining are conversations: a flow between two
/// systems inside the runtime passes exactly when the reply flow passes. Commands never
/// flow back up: when a command from one internal system to another passes, the reverse
/// command is refused.
pub proof fn lemma_peer_flows_are_symmetric(a: SystemId, b: SystemId)
    requires
        internal(a, b),
        internal(b, a),
    ensures
        flow_allowed(a, b, ChannelKind::Coordination) <==> flow_allowed(b, a, ChannelKind::Coordination),
        flow_allowed(a, b, ChannelKind::Audit) <==> flow_allowed(b, a, ChannelKind::Audit),
        flow_allowed(a, b, ChannelKind::ResourceBargain) <==> flow_allowed(b, a, ChannelKind::ResourceBargain),
        flow_allowed(a, b, ChannelKind::Command) ==> !flow_allowed(b, a, ChannelKind::Command),
{
}

/// The reason a refused flow gives.
pub open spec fn flow_error(from: SystemId, to: SystemId, channel: ChannelKind) -> Seq<char> {
    match channel {
        ChannelKind::Algedonic => "invalid algedonic destination: "@ + system_debug(to),
        ChannelKind::Command => "invalid command flow: "@ + system_debug(from) + " -> "@ + system_debug(to),
        ChannelKind::Coordination => "invalid coordination flow: "@ + system_debug(from) + " -> "@ + system_debug(to),
        ChannelKind::Audit => "invalid audit flow: "@ + system_debug(from) + " -> "@ + system_debug(to),
        _ => "invalid resource bargain flow: "@ + system_debug(from) + " -> "@ + system_debug(to),
    }
}

} // verus!
