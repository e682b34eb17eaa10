//! Brokered channels for inter- and intra-subsystem communication.

pub mod broker;
pub mod algedonic;
pub mod temporal_variety;

use vstd::prelude::*;

use crate::domain::{is_message_id, ChannelKind, MessageKind, SystemId, VsmMessage};
use crate::json::JsonValue;

verus! {

/// A JSON message from the outside to the outside on a channel, of kind `Other("json")`.
pub fn json_message(channel: ChannelKind, payload: JsonValue, now: i64) -> (r: VsmMessage)
    ensures
        is_message_id(r.id@),
        r.from == SystemId::External && r.to == SystemId::External,
        r.channel == channel,
        r.kind matches MessageKind::Other(k) && k@ == "json"@,
        r.payload == payload && r.timestamp == now,
        r.metadata is None && r.correlation_id is None && r.reply_to is None,
{
    VsmMessage::new(SystemId::External, SystemId::External, channel, MessageKind::Other("json".to_owned()), payload, now)
}

} // verus!
