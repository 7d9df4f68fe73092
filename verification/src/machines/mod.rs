//! Machines: configuration records, request/response shapes, and the
//! manager that sequences machine lifecycle operations.

pub mod api_manager;
pub mod checks;
pub mod endpoints;
pub mod machine;
pub mod networking;
pub mod process;
pub mod regions;
pub mod resources;
pub mod services;
pub mod system;

pub use api_manager::MachineManager;
pub use checks::{CheckKind, CheckType, Checks, Header, Protocol};
pub use endpoints::{EventResponse, MachineRequest, MachineResponse};
pub use machine::{MachineConfig, MachineState};
pub use networking::{DnsConfig, DnsForwardRule};
pub use process::{
    CommandResponse, EnvVarConfig, FieldRefEnum, ProcessConfig, ProcessResponse, SecretConfig,
};
pub use regions::MachineRegions;
pub use resources::{CpuKind, GpuKind, GuestConfig, RestartPolicy, RestartPolicyEnum};
pub use services::ServiceConfig;
pub use system::{FileConfig, InitConfig, MetricsConfig, MountConfig, StaticConfig, StopConfig};

use crate::json::{json_member, Json, JsonV};
use vstd::prelude::*;

verus! {

/// A duration in seconds, transmitted as a bare number.
#[derive(Clone, Copy, PartialEq, Eq, Structural, Debug)]
pub struct TimeoutConfig {
    pub duration: u64,
}

impl TimeoutConfig {
    pub fn new(duration: u64) -> (r: Self)
        ensures
            r.duration == duration,
    {
        Self { duration }
    }
}

impl DeepView for TimeoutConfig {
    type V = TimeoutConfig;

    open spec fn deep_view(&self) -> TimeoutConfig {
        *self
    }
}

pub open spec fn timeout_config_jv(t: TimeoutConfig) -> JsonV {
    JsonV::UInt(t.duration)
}

pub open spec fn timeout_config_of_jv(j: JsonV) -> Option<TimeoutConfig> {
    match j {
        JsonV::UInt(n) => Some(TimeoutConfig { duration: n }),
        _ => None,
    }
}

/// An optional member holding a duration.
pub open spec fn jv_opt_timeout(j: JsonV, key: Seq<char>) -> Option<Option<TimeoutConfig>> {
    match json_member(j, key) {
        None => Some(None),
        Some(JsonV::Null) => Some(None),
        Some(v) => match timeout_config_of_jv(v) {
            Some(t) => Some(Some(t)),
            None => None,
        },
    }
}

impl TimeoutConfig {
    pub fn to_json(&self) -> (j: Json)
        ensures
            j.deep_view() == timeout_config_jv(*self),
    {
        Json::UInt(self.duration)
    }

    pub fn from_json(j: &Json) -> (r: Option<Self>)
        ensures
            r == timeout_config_of_jv(j.deep_view()),
    {
        match j {
            Json::UInt(n) => Some(TimeoutConfig { duration: *n }),
            _ => None,
        }
    }
}

pub fn opt_timeout_field(j: &Json, key: &str) -> (r: Option<Option<TimeoutConfig>>)
    ensures
        r == jv_opt_timeout(j.deep_view(), key@),
{
    let k = key.to_owned();
    match j.get(&k) {
        None => Some(None),
        Some(Json::Null) => Some(None),
        Some(v) => match TimeoutConfig::from_json(v) {
            Some(t) => Some(Some(t)),
            None => None,
        },
    }
}

pub proof fn lemma_timeout_config_round_trip(t: TimeoutConfig)
    ensures
        timeout_config_of_jv(timeout_config_jv(t)) == Some(t),
{
}

} // verus!
