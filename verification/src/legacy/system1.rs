//! JSON System 1 adapters: unit configuration and resource shortages.

use vstd::prelude::*;
use crate::protocol::envelope::{child_metadata, child_of, fresh_metadata, ProtocolMetadata};

use crate::domain::{ChannelKind, MessageKind, VsmMessage};
use crate::error::FrameworkError;
use crate::kernel::system1::ResourceShortageRequest;
use crate::protocol::system1::{CapabilityDescription, UnitDescriptor};
use crate::json::{field, get_field, string_items, string_items_of, JsonValue};
use crate::protocol::system2::opt_text;
use crate::text::{concat2, texts};

verus! {

/// Type family of the JSON-backed System 1 facade.
#[derive(Debug, Clone)]
pub struct LegacyJsonSystem;

/// Application error of the JSON facade.
#[derive(Debug, Clone, PartialEq, Eq)]
pub struct LegacyAppError {
    pub message: String,
}

impl LegacyAppError {
    /// Creates an error carrying a message.
    pub fn new(message: String) -> (r: Self)
        ensures
            r.message == message,
    {
        LegacyAppError { message }
    }
}

/// A unit's configuration in the JSON facade.
pub struct UnitConfig {
    pub id: String,
    pub capabilities: Vec<String>,
    pub auto_restart: bool,
    pub metadata: JsonValue,
}

/// Converts unit configuration into a unit descriptor: the same ID, one undescribed
/// capability per configured capability, no labels.
pub fn unit_config_to_descriptor(config: UnitConfig) -> (r: UnitDescriptor)
    ensures
        r.unit_id == config.id,
        r.advertised() == texts(config.capabilities@),
        forall|i: int| 0 <= i < r.capabilities@.len() ==> r.capabilities@[i].description is None,
        r.labels@ == Map::<String, String>::empty(),
{
    UnitDescriptor::new(config.id, config.capabilities)
}

/// Converts a unit descriptor into unit configuration: the same ID, the advertised
/// capabilities, restarted automatically, with null metadata.
pub fn descriptor_to_unit_config(descriptor: UnitDescriptor) -> (r: UnitConfig)
    ensures
        r.id == descriptor.unit_id,
        texts(r.capabilities@) == descriptor.advertised(),
        r.auto_restart,
        r.metadata == JsonValue::Null,
{
    let mut caps: Vec<String> = Vec::new();
    let n = descriptor.capabilities.len();
    let mut i: usize = 0;
    while i < n
        invariant
            n == descriptor.capabilities@.len(),
            i <= n,
            texts(caps@) == descriptor.advertised().take(i as int),
        decreases n - i,
    {
        let ghost before = caps@;
        let c = descriptor.capabilities[i].capability.clone();
        caps.push(c);
        assert(descriptor.advertised()[i as int] == descriptor.capabilities@[i as int].capability@);
        assert(texts(caps@) =~= texts(before).push(c@));
        assert(texts(caps@) =~= descriptor.advertised().take(i + 1));
        i = i + 1;
    }
    assert(descriptor.advertised().take(n as int) =~= descriptor.advertised());
    UnitConfig { id: descriptor.unit_id, capabilities: caps, auto_restart: true, metadata: JsonValue::Null }
}

/// The reason of a shortage: the transaction type it was for, if known.
pub open spec fn shortage_reason(work_label: Option<String>) -> Seq<char> {
    match work_label {
        Some(k) => "no suitable unit for transaction type "@ + k@,
        None => "no suitable unit"@,
    }
}

/// The refusal of a message that is not a unit request on the resource-bargain channel.
pub open spec fn not_a_shortage(e: FrameworkError) -> bool {
    e matches FrameworkError::InvalidProtocol { reason } && reason@ == "expected ResourceBargain/UnitRequest message"@
}

/// The capabilities a shortage payload asks for: the string items of its
/// `required_capabilities` array, in order; none when that field is not an array.
pub open spec fn payload_capabilities(payload: JsonValue) -> Seq<Seq<char>> {
    match field(payload, "required_capabilities"@) {
        Some(JsonValue::Array(items)) => string_items(items@),
        _ => Seq::empty(),
    }
}

/// The transaction type a shortage payload names: its `transaction_type` field when
/// that is a string.
pub open spec fn payload_work_label(payload: JsonValue) -> Option<Seq<char>> {
    match field(payload, "transaction_type"@) {
        Some(JsonValue::String(s)) => Some(s@),
        _ => None,
    }
}

/// Reads a System 1 resource shortage from a resource-bargain unit request: the string
/// entries of its `required_capabilities` array and its `transaction_type` text.
pub fn resource_shortage_from_message(message: &VsmMessage) -> (r: Result<ResourceShortageRequest, FrameworkError>)
    ensures
        message.channel == ChannelKind::ResourceBargain && message.kind == MessageKind::UnitRequest ==> (r matches Ok(s) && fresh_metadata(s.metadata@)),
        !(message.channel == ChannelKind::ResourceBargain && message.kind == MessageKind::UnitRequest) ==> (
        r matches Err(e) && not_a_shortage(e)),
        message.channel == ChannelKind::ResourceBargain && message.kind == MessageKind::UnitRequest ==> (
        r matches Ok(s) && texts(s.required_capabilities@) == payload_capabilities(message.payload)
            && opt_text(s.work_label) == payload_work_label(message.payload)
            && s.reason@ == shortage_reason(s.work_label)),
{
    let is_request = match message.kind {
        MessageKind::UnitRequest => true,
        _ => false,
    };
    if message.channel != ChannelKind::ResourceBargain || !is_request {
        return Err(FrameworkError::InvalidProtocol { reason: "expected ResourceBargain/UnitRequest message".to_owned() });
    }
    let required_capabilities: Vec<String> = match get_field(&message.payload, "required_capabilities") {
        Some(JsonValue::Array(items)) => string_items_of(items),
        _ => Vec::new(),
    };
    let work_label = match get_field(&message.payload, "transaction_type") {
        Some(JsonValue::String(s)) => Some(s.clone()),
        _ => None,
    };
    let reason = match &work_label {
        Some(kind) => concat2("no suitable unit for transaction type ", kind.as_str()),
        None => "no suitable unit".to_owned(),
    };
    proof {
        assert(texts(required_capabilities@) =~= required_capabilities@.map_values(|s: String| s@));
    }
    Ok(ResourceShortageRequest { metadata: ProtocolMetadata::new(), required_capabilities, work_label, reason })
}

} // verus!
