//! Stable global actor names for the default runtime.
//!
//! These names are part of the runtime's compatibility surface: actor lookup,
//! channel subscription targets and examples depend on them.

use vstd::prelude::*;

use crate::text::concat2;

verus! {

/// The registered name of the root supervisor actor.
pub const ROOT_SUPERVISOR: &'static str = "vsm.root_supervisor";
/// The registered name of the dynamic supervisor actor.
pub const DYNAMIC_SUPERVISOR: &'static str = "vsm.dynamic_supervisor";
/// The registered name of the telemetry reporter actor.
pub const TELEMETRY_REPORTER: &'static str = "vsm.telemetry_reporter";
/// The registered name of the channel broker actor.
pub const CHANNEL_BROKER: &'static str = "vsm.channels.broker";
/// The registered name of the channels supervisor actor.
pub const CHANNELS_SUPERVISOR: &'static str = "vsm.channels.supervisor";
/// The registered name of the algedonic actor.
pub const ALGEDONIC: &'static str = "vsm.channels.algedonic";
/// The registered name of the temporal variety actor.
pub const TEMPORAL_VARIETY: &'static str = "vsm.channels.temporal_variety";
/// The registered name of the System 1 supervisor actor.
pub const SYSTEM1_SUPERVISOR: &'static str = "vsm.system1.supervisor";
/// The registered name of the System 1 unit supervisor actor.
pub const SYSTEM1_UNIT_SUPERVISOR: &'static str = "vsm.system1.unit_supervisor";
/// The registered name of the System 1 operations actor.
pub const SYSTEM1_OPERATIONS: &'static str = "vsm.system1.operations";
/// The registered name of the System 1 metrics actor.
pub const SYSTEM1_METRICS: &'static str = "vsm.system1.metrics";
/// The registered name of the System 2 supervisor actor.
pub const SYSTEM2_SUPERVISOR: &'static str = "vsm.system2.supervisor";
/// The registered name of the System 2 coordination actor.
pub const SYSTEM2_COORDINATION: &'static str = "vsm.system2.coordination";
/// The registered name of the System 3 supervisor actor.
pub const SYSTEM3_SUPERVISOR: &'static str = "vsm.system3.supervisor";
/// The registered name of the System 3 control actor.
pub const SYSTEM3_CONTROL: &'static str = "vsm.system3.control";
/// The registered name of the System 4 supervisor actor.
pub const SYSTEM4_SUPERVISOR: &'static str = "vsm.system4.supervisor";
/// The registered name of the System 4 intelligence actor.
pub const SYSTEM4_INTELLIGENCE: &'static str = "vsm.system4.intelligence";
/// The registered name of the System 4 scanner actor.
pub const SYSTEM4_SCANNER: &'static str = "vsm.system4.scanner";
/// The registered name of the System 4 analytics actor.
pub const SYSTEM4_ANALYTICS: &'static str = "vsm.system4.analytics";
/// The registered name of the System 4 forecasting actor.
pub const SYSTEM4_FORECASTING: &'static str = "vsm.system4.forecasting";
/// The registered name of the System 5 supervisor actor.
pub const SYSTEM5_SUPERVISOR: &'static str = "vsm.system5.supervisor";
/// The registered name of the System 5 policy actor.
pub const SYSTEM5_POLICY: &'static str = "vsm.system5.policy";
/// The registered name of the System 5 identity actor.
pub const SYSTEM5_IDENTITY: &'static str = "vsm.system5.identity";
/// The registered name of the System 5 values actor.
pub const SYSTEM5_VALUES: &'static str = "vsm.system5.values";
/// The registered name of the System 5 decisions actor.
pub const SYSTEM5_DECISIONS: &'static str = "vsm.system5.decisions";

/// The name of a dynamic System 1 unit: `vsm.system1.unit.<id>`.
pub fn system1_unit(id: &str) -> (r: String)
    ensures
        r@ == "vsm.system1.unit."@ + id@,
{
    concat2("vsm.system1.unit.", id)
}

} // verus!
