//! The machine configuration record, its lifecycle states, and the builder
//! that assembles a configuration.

use super::checks::{
    checks_jv, jv_opt_checks, lemma_checks_round_trip, opt_checks_field, Checks, ChecksV,
};
use super::networking::{
    dns_config_jv, dns_config_of_jv, lemma_dns_config_round_trip, DnsConfig, DnsConfigV,
};
use super::process::{
    lemma_process_config_round_trip, process_config_jv, process_config_of_jv, ProcessConfig,
    ProcessConfigV,
};
use super::resources::{
    guest_config_jv, guest_config_of_jv, lemma_guest_config_round_trip,
    lemma_restart_policy_round_trip, restart_policy_jv, restart_policy_of_jv, CpuKind, GpuKind,
    GuestConfig, GuestConfigV, RestartPolicy, RestartPolicyEnum,
};
use super::services::{
    jv_opt_service_config_arr, lemma_service_config_round_trip, opt_service_config_arr_field,
    service_config_arr_json, service_config_of_jv, service_config_seq_jv,
    service_config_seq_of, ServiceConfig, ServiceConfigV,
};
use super::system::{
    file_config_jv, file_config_of_jv, init_config_jv, init_config_of_jv,
    lemma_file_config_round_trip, lemma_init_config_round_trip,
    lemma_metrics_config_round_trip, lemma_mount_config_round_trip,
    lemma_static_config_round_trip, lemma_stop_config_round_trip, metrics_config_jv,
    metrics_config_of_jv, mount_config_jv, mount_config_of_jv, static_config_jv,
    static_config_of_jv, stop_config_jv, stop_config_of_jv, FileConfig, FileConfigV,
    InitConfig, InitConfigV, MetricsConfig, MetricsConfigV, MountConfig, MountConfigV,
    StaticConfig, StaticConfigV, StopConfig, StopConfigV,
};
use crate::json::{
    json_lookup, json_member, json_seq_view, jv_opt_bool, jv_opt_str, jv_opt_str_arr,
    jv_opt_str_map, jv_req_str, jv_str_pairs, jv_str_seq, opt_member, str_pairs_jv, str_seq_jv,
    Json, JsonV,
};
use vstd::prelude::*;

verus! {

broadcast use crate::json::lemma_lookup_push, crate::json::lemma_lookup_append, crate::json::lemma_pairs_view_append, vstd::string::group_string_axioms, vstd::seq::group_seq_axioms, vstd::std_specs::vec::group_vec_axioms;

/// Lifecycle states a machine can be observed in.
#[derive(Clone, Copy, PartialEq, Eq, Structural, Debug)]
pub enum MachineState {
    Started,
    Stopped,
    Suspended,
    Destroyed,
}

/// The wire name of a lifecycle state.
pub open spec fn machine_state_name(s: MachineState) -> Seq<char> {
    match s {
        MachineState::Started => "started"@,
        MachineState::Stopped => "stopped"@,
        MachineState::Suspended => "suspended"@,
        MachineState::Destroyed => "destroyed"@,
    }
}

impl MachineState {
    /// The wire name of this state.
    pub fn code(&self) -> (s: String)
        ensures
            s@ == machine_state_name(*self),
    {
        match self {
            MachineState::Started => "started".to_owned(),
            MachineState::Stopped => "stopped".to_owned(),
            MachineState::Suspended => "suspended".to_owned(),
            MachineState::Destroyed => "destroyed".to_owned(),
        }
    }
}


pub open spec fn jv_opt_guest_config(j: JsonV, key: Seq<char>) -> Option<Option<GuestConfigV>> {
    match json_member(j, key) {
        None => Some(None),
        Some(JsonV::Null) => Some(None),
        Some(v) => match guest_config_of_jv(v) {
            Some(x) => Some(Some(x)),
            None => None,
        },
    }
}

pub fn opt_guest_config_field(j: &Json, key: &str) -> (r: Option<Option<GuestConfig>>)
    ensures
        r.deep_view() == jv_opt_guest_config(j.deep_view(), key@),
{
    let k = key.to_owned();
    match j.get(&k) {
        None => Some(None),
        Some(Json::Null) => Some(None),
        Some(v) => match GuestConfig::from_json(v) {
            Some(x) => Some(Some(x)),
            None => None,
        },
    }
}

pub open spec fn jv_opt_init_config(j: JsonV, key: Seq<char>) -> Option<Option<InitConfigV>> {
    match json_member(j, key) {
        None => Some(None),
        Some(JsonV::Null) => Some(None),
        Some(v) => match init_config_of_jv(v) {
            Some(x) => Some(Some(x)),
            None => None,
        },
    }
}

pub fn opt_init_config_field(j: &Json, key: &str) -> (r: Option<Option<InitConfig>>)
    ensures
        r.deep_view() == jv_opt_init_config(j.deep_view(), key@),
{
    let k = key.to_owned();
    match j.get(&k) {
        None => Some(None),
        Some(Json::Null) => Some(None),
        Some(v) => match InitConfig::from_json(v) {
            Some(x) => Some(Some(x)),
            None => None,
        },
    }
}

pub open spec fn jv_opt_restart_policy(j: JsonV, key: Seq<char>) -> Option<Option<RestartPolicy>> {
    match json_member(j, key) {
        None => Some(None),
        Some(JsonV::Null) => Some(None),
        Some(v) => match restart_policy_of_jv(v) {
            Some(x) => Some(Some(x)),
            None => None,
        },
    }
}

pub fn opt_restart_policy_field(j: &Json, key: &str) -> (r: Option<Option<RestartPolicy>>)
    ensures
        r.deep_view() == jv_opt_restart_policy(j.deep_view(), key@),
{
    let k = key.to_owned();
    match j.get(&k) {
        None => Some(None),
        Some(Json::Null) => Some(None),
        Some(v) => match RestartPolicy::from_json(v) {
            Some(x) => Some(Some(x)),
            None => None,
        },
    }
}

pub open spec fn jv_opt_dns_config(j: JsonV, key: Seq<char>) -> Option<Option<DnsConfigV>> {
    match json_member(j, key) {
        None => Some(None),
        Some(JsonV::Null) => Some(None),
        Some(v) => match dns_config_of_jv(v) {
            Some(x) => Some(Some(x)),
            None => None,
        },
    }
}

pub fn opt_dns_config_field(j: &Json, key: &str) -> (r: Option<Option<DnsConfig>>)
    ensures
        r.deep_view() == jv_opt_dns_config(j.deep_view(), key@),
{
    let k = key.to_owned();
    match j.get(&k) {
        None => Some(None),
        Some(Json::Null) => Some(None),
        Some(v) => match DnsConfig::from_json(v) {
            Some(x) => Some(Some(x)),
            None => None,
        },
    }
}

pub open spec fn jv_opt_metrics_config(j: JsonV, key: Seq<char>) -> Option<Option<MetricsConfigV>> {
    match json_member(j, key) {
        None => Some(None),
        Some(JsonV::Null) => Some(None),
        Some(v) => match metrics_config_of_jv(v) {
            Some(x) => Some(Some(x)),
            None => None,
        },
    }
}

pub fn opt_metrics_config_field(j: &Json, key: &str) -> (r: Option<Option<MetricsConfig>>)
    ensures
        r.deep_view() == jv_opt_metrics_config(j.deep_view(), key@),
{
    let k = key.to_owned();
    match j.get(&k) {
        None => Some(None),
        Some(Json::Null) => Some(None),
        Some(v) => match MetricsConfig::from_json(v) {
            Some(x) => Some(Some(x)),
            None => None,
        },
    }
}

pub open spec fn jv_opt_stop_config(j: JsonV, key: Seq<char>) -> Option<Option<StopConfigV>> {
    match json_member(j, key) {
        None => Some(None),
        Some(JsonV::Null) => Some(None),
        Some(v) => match stop_config_of_jv(v) {
            Some(x) => Some(Some(x)),
            None => None,
        },
    }
}

pub fn opt_stop_config_field(j: &Json, key: &str) -> (r: Option<Option<StopConfig>>)
    ensures
        r.deep_view() == jv_opt_stop_config(j.deep_view(), key@),
{
    let k = key.to_owned();
    match j.get(&k) {
        None => Some(None),
        Some(Json::Null) => Some(None),
        Some(v) => match StopConfig::from_json(v) {
            Some(x) => Some(Some(x)),
            None => None,
        },
    }
}

pub open spec fn process_config_seq_jv(s: Seq<ProcessConfigV>) -> Seq<JsonV> {
    Seq::new(s.len(), |i: int| process_config_jv(s[i]))
}

pub open spec fn process_config_seq_of(items: Seq<JsonV>) -> Option<Seq<ProcessConfigV>> {
    if forall|k: int| 0 <= k < items.len() ==> process_config_of_jv(#[trigger] items[k]) is Some {
        Some(Seq::new(items.len(), |k: int| process_config_of_jv(items[k])->0))
    } else {
        None
    }
}

pub open spec fn jv_opt_process_config_arr(j: JsonV, key: Seq<char>) -> Option<
    Option<Seq<ProcessConfigV>>,
> {
    match json_member(j, key) {
        None => Some(None),
        Some(JsonV::Null) => Some(None),
        Some(JsonV::Arr(items)) => match process_config_seq_of(items) {
            None => None,
            Some(xs) => Some(Some(xs)),
        },
        Some(_) => None,
    }
}

/// Builds the array for a list of these records.
pub fn process_config_arr_json(list: &Vec<ProcessConfig>) -> (j: Json)
    ensures
        j.deep_view() == JsonV::Arr(process_config_seq_jv(list.deep_view())),
{
    let mut out: Vec<Json> = Vec::new();
    let n = list.len();
    for i in 0..n
        invariant
            n == list.len(),
            out@.len() == i,
            forall|p: int| 0 <= p < i
                ==> (#[trigger] out@[p]).deep_view() == process_config_jv(list@[p].deep_view()),
    {
        out.push(list[i].to_json());
    }
    let j = Json::Arr(out);
    proof {
        let ghost ov = out@;
        assert(json_seq_view(ov).len() == process_config_seq_jv(list.deep_view()).len());
        assert(json_seq_view(ov) =~= process_config_seq_jv(list.deep_view()));
    }
    j
}

/// Reads an optional member holding an array of these records.
pub fn opt_process_config_arr_field(j: &Json, key: &str) -> (r: Option<Option<Vec<ProcessConfig>>>)
    ensures
        r.deep_view() == jv_opt_process_config_arr(j.deep_view(), key@),
{
    let k = key.to_owned();
    match j.get(&k) {
        None => Some(None),
        Some(Json::Null) => Some(None),
        Some(v) => match v {
            Json::Arr(items) => {
                let ghost iv = json_seq_view(items@);
                let mut out: Vec<ProcessConfig> = Vec::new();
                let n = items.len();
                for i in 0..n
                    invariant
                        n == items.len(),
                        iv == json_seq_view(items@),
                        json_member(j.deep_view(), key@) == Some(JsonV::Arr(iv)),
                        iv.len() == n,
                        out@.len() == i,
                        forall|p: int| 0 <= p < i
                            ==> process_config_of_jv(#[trigger] iv[p]) is Some,
                        forall|p: int| 0 <= p < i
                            ==> (#[trigger] out@[p]).deep_view() == process_config_of_jv(iv[p])->0,
                {
                    match ProcessConfig::from_json(&items[i]) {
                        Some(x) => { out.push(x); },
                        None => {
                            proof {
                                assert(process_config_of_jv(iv[i as int]) is None);
                            }
                            return None;
                        },
                    }
                }
                proof {
                    assert(out.deep_view() =~= process_config_seq_of(iv)->0);
                }
                Some(Some(out))
            },
            _ => None,
        },
    }
}

pub open spec fn mount_config_seq_jv(s: Seq<MountConfigV>) -> Seq<JsonV> {
    Seq::new(s.len(), |i: int| mount_config_jv(s[i]))
}

pub open spec fn mount_config_seq_of(items: Seq<JsonV>) -> Option<Seq<MountConfigV>> {
    if forall|k: int| 0 <= k < items.len() ==> mount_config_of_jv(#[trigger] items[k]) is Some {
        Some(Seq::new(items.len(), |k: int| mount_config_of_jv(items[k])->0))
    } else {
        None
    }
}

pub open spec fn jv_opt_mount_config_arr(j: JsonV, key: Seq<char>) -> Option<
    Option<Seq<MountConfigV>>,
> {
    match json_member(j, key) {
        None => Some(None),
        Some(JsonV::Null) => Some(None),
        Some(JsonV::Arr(items)) => match mount_config_seq_of(items) {
            None => None,
            Some(xs) => Some(Some(xs)),
        },
        Some(_) => None,
    }
}

/// Builds the array for a list of these records.
pub fn mount_config_arr_json(list: &Vec<MountConfig>) -> (j: Json)
    ensures
        j.deep_view() == JsonV::Arr(mount_config_seq_jv(list.deep_view())),
{
    let mut out: Vec<Json> = Vec::new();
    let n = list.len();
    for i in 0..n
        invariant
            n == list.len(),
            out@.len() == i,
            forall|p: int| 0 <= p < i
                ==> (#[trigger] out@[p]).deep_view() == mount_config_jv(list@[p].deep_view()),
    {
        out.push(list[i].to_json());
    }
    let j = Json::Arr(out);
    proof {
        let ghost ov = out@;
        assert(json_seq_view(ov).len() == mount_config_seq_jv(list.deep_view()).len());
        assert(json_seq_view(ov) =~= mount_config_seq_jv(list.deep_view()));
    }
    j
}

/// Reads an optional member holding an array of these records.
pub fn opt_mount_config_arr_field(j: &Json, key: &str) -> (r: Option<Option<Vec<MountConfig>>>)
    ensures
        r.deep_view() == jv_opt_mount_config_arr(j.deep_view(), key@),
{
    let k = key.to_owned();
    match j.get(&k) {
        None => Some(None),
        Some(Json::Null) => Some(None),
        Some(v) => match v {
            Json::Arr(items) => {
                let ghost iv = json_seq_view(items@);
                let mut out: Vec<MountConfig> = Vec::new();
                let n = items.len();
                for i in 0..n
                    invariant
                        n == items.len(),
                        iv == json_seq_view(items@),
                        json_member(j.deep_view(), key@) == Some(JsonV::Arr(iv)),
                        iv.len() == n,
                        out@.len() == i,
                        forall|p: int| 0 <= p < i
                            ==> mount_config_of_jv(#[trigger] iv[p]) is Some,
                        forall|p: int| 0 <= p < i
                            ==> (#[trigger] out@[p]).deep_view() == mount_config_of_jv(iv[p])->0,
                {
                    match MountConfig::from_json(&items[i]) {
                        Some(x) => { out.push(x); },
                        None => {
                            proof {
                                assert(mount_config_of_jv(iv[i as int]) is None);
                            }
                            return None;
                        },
                    }
                }
                proof {
                    assert(out.deep_view() =~= mount_config_seq_of(iv)->0);
                }
                Some(Some(out))
            },
            _ => None,
        },
    }
}

pub open spec fn file_config_seq_jv(s: Seq<FileConfigV>) -> Seq<JsonV> {
    Seq::new(s.len(), |i: int| file_config_jv(s[i]))
}

pub open spec fn file_config_seq_of(items: Seq<JsonV>) -> Option<Seq<FileConfigV>> {
    if forall|k: int| 0 <= k < items.len() ==> file_config_of_jv(#[trigger] items[k]) is Some {
        Some(Seq::new(items.len(), |k: int| file_config_of_jv(items[k])->0))
    } else {
        None
    }
}

pub open spec fn jv_opt_file_config_arr(j: JsonV, key: Seq<char>) -> Option<
    Option<Seq<FileConfigV>>,
> {
    match json_member(j, key) {
        None => Some(None),
        Some(JsonV::Null) => Some(None),
        Some(JsonV::Arr(items)) => match file_config_seq_of(items) {
            None => None,
            Some(xs) => Some(Some(xs)),
        },
        Some(_) => None,
    }
}

/// Builds the array for a list of these records.
pub fn file_config_arr_json(list: &Vec<FileConfig>) -> (j: Json)
    ensures
        j.deep_view() == JsonV::Arr(file_config_seq_jv(list.deep_view())),
{
    let mut out: Vec<Json> = Vec::new();
    let n = list.len();
    for i in 0..n
        invariant
            n == list.len(),
            out@.len() == i,
            forall|p: int| 0 <= p < i
                ==> (#[trigger] out@[p]).deep_view() == file_config_jv(list@[p].deep_view()),
    {
        out.push(list[i].to_json());
    }
    let j = Json::Arr(out);
    proof {
        let ghost ov = out@;
        assert(json_seq_view(ov).len() == file_config_seq_jv(list.deep_view()).len());
        assert(json_seq_view(ov) =~= file_config_seq_jv(list.deep_view()));
    }
    j
}

/// Reads an optional member holding an array of these records.
pub fn opt_file_config_arr_field(j: &Json, key: &str) -> (r: Option<Option<Vec<FileConfig>>>)
    ensures
        r.deep_view() == jv_opt_file_config_arr(j.deep_view(), key@),
{
    let k = key.to_owned();
    match j.get(&k) {
        None => Some(None),
        Some(Json::Null) => Some(None),
        Some(v) => match v {
            Json::Arr(items) => {
                let ghost iv = json_seq_view(items@);
                let mut out: Vec<FileConfig> = Vec::new();
                let n = items.len();
                for i in 0..n
                    invariant
                        n == items.len(),
                        iv == json_seq_view(items@),
                        json_member(j.deep_view(), key@) == Some(JsonV::Arr(iv)),
                        iv.len() == n,
                        out@.len() == i,
                        forall|p: int| 0 <= p < i
                            ==> file_config_of_jv(#[trigger] iv[p]) is Some,
                        forall|p: int| 0 <= p < i
                            ==> (#[trigger] out@[p]).deep_view() == file_config_of_jv(iv[p])->0,
                {
                    match FileConfig::from_json(&items[i]) {
                        Some(x) => { out.push(x); },
                        None => {
                            proof {
                                assert(file_config_of_jv(iv[i as int]) is None);
                            }
                            return None;
                        },
                    }
                }
                proof {
                    assert(out.deep_view() =~= file_config_seq_of(iv)->0);
                }
                Some(Some(out))
            },
            _ => None,
        },
    }
}

pub open spec fn static_config_seq_jv(s: Seq<StaticConfigV>) -> Seq<JsonV> {
    Seq::new(s.len(), |i: int| static_config_jv(s[i]))
}

pub open spec fn static_config_seq_of(items: Seq<JsonV>) -> Option<Seq<StaticConfigV>> {
    if forall|k: int| 0 <= k < items.len() ==> static_config_of_jv(#[trigger] items[k]) is Some {
        Some(Seq::new(items.len(), |k: int| static_config_of_jv(items[k])->0))
    } else {
        None
    }
}

pub open spec fn jv_opt_static_config_arr(j: JsonV, key: Seq<char>) -> Option<
    Option<Seq<StaticConfigV>>,
> {
    match json_member(j, key) {
        None => Some(None),
        Some(JsonV::Null) => Some(None),
        Some(JsonV::Arr(items)) => match static_config_seq_of(items) {
            None => None,
            Some(xs) => Some(Some(xs)),
        },
        Some(_) => None,
    }
}

/// Builds the array for a list of these records.
pub fn static_config_arr_json(list: &Vec<StaticConfig>) -> (j: Json)
    ensures
        j.deep_view() == JsonV::Arr(static_config_seq_jv(list.deep_view())),
{
    let mut out: Vec<Json> = Vec::new();
    let n = list.len();
    for i in 0..n
        invariant
            n == list.len(),
            out@.len() == i,
            forall|p: int| 0 <= p < i
                ==> (#[trigger] out@[p]).deep_view() == static_config_jv(list@[p].deep_view()),
    {
        out.push(list[i].to_json());
    }
    let j = Json::Arr(out);
    proof {
        let ghost ov = out@;
        assert(json_seq_view(ov).len() == static_config_seq_jv(list.deep_view()).len());
        assert(json_seq_view(ov) =~= static_config_seq_jv(list.deep_view()));
    }
    j
}

/// Reads an optional member holding an array of these records.
pub fn opt_static_config_arr_field(j: &Json, key: &str) -> (r: Option<Option<Vec<StaticConfig>>>)
    ensures
        r.deep_view() == jv_opt_static_config_arr(j.deep_view(), key@),
{
    let k = key.to_owned();
    match j.get(&k) {
        None => Some(None),
        Some(Json::Null) => Some(None),
        Some(v) => match v {
            Json::Arr(items) => {
                let ghost iv = json_seq_view(items@);
                let mut out: Vec<StaticConfig> = Vec::new();
                let n = items.len();
                for i in 0..n
                    invariant
                        n == items.len(),
                        iv == json_seq_view(items@),
                        json_member(j.deep_view(), key@) == Some(JsonV::Arr(iv)),
                        iv.len() == n,
                        out@.len() == i,
                        forall|p: int| 0 <= p < i
                            ==> static_config_of_jv(#[trigger] iv[p]) is Some,
                        forall|p: int| 0 <= p < i
                            ==> (#[trigger] out@[p]).deep_view() == static_config_of_jv(iv[p])->0,
                {
                    match StaticConfig::from_json(&items[i]) {
                        Some(x) => { out.push(x); },
                        None => {
                            proof {
                                assert(static_config_of_jv(iv[i as int]) is None);
                            }
                            return None;
                        },
                    }
                }
                proof {
                    assert(out.deep_view() =~= static_config_seq_of(iv)->0);
                }
                Some(Some(out))
            },
            _ => None,
        },
    }
}

/// Everything that describes how a machine runs.
#[derive(Clone, Debug)]
pub struct MachineConfig {
    pub image: String,
    pub guest: Option<GuestConfig>,
    pub auto_destroy: Option<bool>,
    pub init: Option<InitConfig>,
    pub env: Option<Vec<(String, String)>>,
    pub processes: Option<Vec<ProcessConfig>>,
    pub mounts: Option<Vec<MountConfig>>,
    pub restart: Option<RestartPolicy>,
    pub checks: Option<Checks>,
    pub dns: Option<DnsConfig>,
    pub files: Option<Vec<FileConfig>>,
    pub metadata: Option<Vec<(String, String)>>,
    pub metrics: Option<MetricsConfig>,
    pub schedule: Option<String>,
    pub services: Option<Vec<ServiceConfig>>,
    pub standbys: Option<Vec<String>>,
    pub statics: Option<Vec<StaticConfig>>,
    pub stop_config: Option<StopConfig>,
}

#[verifier::ext_equal]
pub struct MachineConfigV {
    pub image: Seq<char>,
    pub guest: Option<GuestConfigV>,
    pub auto_destroy: Option<bool>,
    pub init: Option<InitConfigV>,
    pub env: Option<Seq<(Seq<char>, Seq<char>)>>,
    pub processes: Option<Seq<ProcessConfigV>>,
    pub mounts: Option<Seq<MountConfigV>>,
    pub restart: Option<RestartPolicy>,
    pub checks: Option<ChecksV>,
    pub dns: Option<DnsConfigV>,
    pub files: Option<Seq<FileConfigV>>,
    pub metadata: Option<Seq<(Seq<char>, Seq<char>)>>,
    pub metrics: Option<MetricsConfigV>,
    pub schedule: Option<Seq<char>>,
    pub services: Option<Seq<ServiceConfigV>>,
    pub standbys: Option<Seq<Seq<char>>>,
    pub statics: Option<Seq<StaticConfigV>>,
    pub stop_config: Option<StopConfigV>,
}

impl DeepView for MachineConfig {
    type V = MachineConfigV;

    open spec fn deep_view(&self) -> MachineConfigV {
        MachineConfigV {
            image: self.image@,
            guest: self.guest.deep_view(),
            auto_destroy: self.auto_destroy,
            init: self.init.deep_view(),
            env: self.env.deep_view(),
            processes: self.processes.deep_view(),
            mounts: self.mounts.deep_view(),
            restart: self.restart.deep_view(),
            checks: self.checks.deep_view(),
            dns: self.dns.deep_view(),
            files: self.files.deep_view(),
            metadata: self.metadata.deep_view(),
            metrics: self.metrics.deep_view(),
            schedule: self.schedule.deep_view(),
            services: self.services.deep_view(),
            standbys: self.standbys.deep_view(),
            statics: self.statics.deep_view(),
            stop_config: self.stop_config.deep_view(),
        }
    }
}

pub open spec fn machine_config_members_0(c: MachineConfigV) -> Seq<(Seq<char>, JsonV)> {
    let m = Seq::<(Seq<char>, JsonV)>::empty();
    let m = m.push(("image"@, JsonV::Str(c.image)));
    let m = opt_member(m, "guest"@, match c.guest {
        None => None,
        Some(x) => Some(guest_config_jv(x)),
    });
    let m = opt_member(m, "auto_destroy"@, match c.auto_destroy {
        None => None,
        Some(x) => Some(JsonV::Bool(x)),
    });
    let m = opt_member(m, "init"@, match c.init {
        None => None,
        Some(x) => Some(init_config_jv(x)),
    });
    let m = opt_member(m, "env"@, match c.env {
        None => None,
        Some(x) => Some(JsonV::Obj(str_pairs_jv(x))),
    });
    let m = opt_member(m, "processes"@, match c.processes {
        None => None,
        Some(x) => Some(JsonV::Arr(process_config_seq_jv(x))),
    });
    m
}

pub open spec fn machine_config_members_1(c: MachineConfigV) -> Seq<(Seq<char>, JsonV)> {
    let m = Seq::<(Seq<char>, JsonV)>::empty();
    let m = opt_member(m, "mounts"@, match c.mounts {
        None => None,
        Some(x) => Some(JsonV::Arr(mount_config_seq_jv(x))),
    });
    let m = opt_member(m, "restart"@, match c.restart {
        None => None,
        Some(x) => Some(restart_policy_jv(x)),
    });
    let m = opt_member(m, "checks"@, match c.checks {
        None => None,
        Some(x) => Some(checks_jv(x)),
    });
    let m = opt_member(m, "dns"@, match c.dns {
        None => None,
        Some(x) => Some(dns_config_jv(x)),
    });
    let m = opt_member(m, "files"@, match c.files {
        None => None,
        Some(x) => Some(JsonV::Arr(file_config_seq_jv(x))),
    });
    let m = opt_member(m, "metadata"@, match c.metadata {
        None => None,
        Some(x) => Some(JsonV::Obj(str_pairs_jv(x))),
    });
    m
}

pub open spec fn machine_config_members_2(c: MachineConfigV) -> Seq<(Seq<char>, JsonV)> {
    let m = Seq::<(Seq<char>, JsonV)>::empty();
    let m = opt_member(m, "metrics"@, match c.metrics {
        None => None,
        Some(x) => Some(metrics_config_jv(x)),
    });
    let m = opt_member(m, "schedule"@, match c.schedule {
        None => None,
        Some(x) => Some(JsonV::Str(x)),
    });
    let m = opt_member(m, "services"@, match c.services {
        None => None,
        Some(x) => Some(JsonV::Arr(service_config_seq_jv(x))),
    });
    let m = opt_member(m, "standbys"@, match c.standbys {
        None => None,
        Some(x) => Some(JsonV::Arr(str_seq_jv(x))),
    });
    let m = opt_member(m, "statics"@, match c.statics {
        None => None,
        Some(x) => Some(JsonV::Arr(static_config_seq_jv(x))),
    });
    let m = opt_member(m, "stop_config"@, match c.stop_config {
        None => None,
        Some(x) => Some(stop_config_jv(x)),
    });
    m
}

pub open spec fn machine_config_jv(c: MachineConfigV) -> JsonV {
    JsonV::Obj(machine_config_members_0(c) + machine_config_members_1(c) + machine_config_members_2(c))
}

pub open spec fn machine_config_of_jv(j: JsonV) -> Option<MachineConfigV> {
    if !(j is Obj) {
        None
    } else if jv_req_str(j, "image"@) is None || jv_opt_guest_config(j, "guest"@) is None || jv_opt_bool(j, "auto_destroy"@) is None || jv_opt_init_config(j, "init"@) is None || jv_opt_str_map(j, "env"@) is None || jv_opt_process_config_arr(j, "processes"@) is None || jv_opt_mount_config_arr(j, "mounts"@) is None || jv_opt_restart_policy(j, "restart"@) is None || jv_opt_checks(j, "checks"@) is None || jv_opt_dns_config(j, "dns"@) is None || jv_opt_file_config_arr(j, "files"@) is None || jv_opt_str_map(j, "metadata"@) is None || jv_opt_metrics_config(j, "metrics"@) is None || jv_opt_str(j, "schedule"@) is None || jv_opt_service_config_arr(j, "services"@) is None || jv_opt_str_arr(j, "standbys"@) is None || jv_opt_static_config_arr(j, "statics"@) is None || jv_opt_stop_config(j, "stop_config"@) is None {
        None
    } else {
        Some(MachineConfigV {
            image: jv_req_str(j, "image"@)->0,
            guest: jv_opt_guest_config(j, "guest"@)->0,
            auto_destroy: jv_opt_bool(j, "auto_destroy"@)->0,
            init: jv_opt_init_config(j, "init"@)->0,
            env: jv_opt_str_map(j, "env"@)->0,
            processes: jv_opt_process_config_arr(j, "processes"@)->0,
            mounts: jv_opt_mount_config_arr(j, "mounts"@)->0,
            restart: jv_opt_restart_policy(j, "restart"@)->0,
            checks: jv_opt_checks(j, "checks"@)->0,
            dns: jv_opt_dns_config(j, "dns"@)->0,
            files: jv_opt_file_config_arr(j, "files"@)->0,
            metadata: jv_opt_str_map(j, "metadata"@)->0,
            metrics: jv_opt_metrics_config(j, "metrics"@)->0,
            schedule: jv_opt_str(j, "schedule"@)->0,
            services: jv_opt_service_config_arr(j, "services"@)->0,
            standbys: jv_opt_str_arr(j, "standbys"@)->0,
            statics: jv_opt_static_config_arr(j, "statics"@)->0,
            stop_config: jv_opt_stop_config(j, "stop_config"@)->0,
        })
    }
}

impl MachineConfig {
    fn to_json_members_0(&self) -> (m: Vec<(String, Json)>)
        ensures
            crate::json::json_pairs_view(m@) == machine_config_members_0(self.deep_view()),
    {
        let mut m: Vec<(String, Json)> = Vec::new();
        m.push(("image".to_owned(), Json::Str(self.image.clone())));
        if let Some(x) = &self.guest {
            m.push(("guest".to_owned(), x.to_json()));
        }
        if let Some(x) = &self.auto_destroy {
            m.push(("auto_destroy".to_owned(), Json::Bool(*x)));
        }
        if let Some(x) = &self.init {
            m.push(("init".to_owned(), x.to_json()));
        }
        if let Some(x) = &self.env {
            m.push(("env".to_owned(), Json::from_string_pairs(x)));
        }
        if let Some(x) = &self.processes {
            m.push(("processes".to_owned(), process_config_arr_json(x)));
        }
        proof {
            assert(crate::json::json_pairs_view(m@) =~= machine_config_members_0(self.deep_view()));
        }
        m
    }

    fn to_json_members_1(&self) -> (m: Vec<(String, Json)>)
        ensures
            crate::json::json_pairs_view(m@) == machine_config_members_1(self.deep_view()),
    {
        let mut m: Vec<(String, Json)> = Vec::new();
        if let Some(x) = &self.mounts {
            m.push(("mounts".to_owned(), mount_config_arr_json(x)));
        }
        if let Some(x) = &self.restart {
            m.push(("restart".to_owned(), x.to_json()));
        }
        if let Some(x) = &self.checks {
            m.push(("checks".to_owned(), x.to_json()));
        }
        if let Some(x) = &self.dns {
            m.push(("dns".to_owned(), x.to_json()));
        }
        if let Some(x) = &self.files {
            m.push(("files".to_owned(), file_config_arr_json(x)));
        }
        if let Some(x) = &self.metadata {
            m.push(("metadata".to_owned(), Json::from_string_pairs(x)));
        }
        proof {
            assert(crate::json::json_pairs_view(m@) =~= machine_config_members_1(self.deep_view()));
        }
        m
    }

    fn to_json_members_2(&self) -> (m: Vec<(String, Json)>)
        ensures
            crate::json::json_pairs_view(m@) == machine_config_members_2(self.deep_view()),
    {
        let mut m: Vec<(String, Json)> = Vec::new();
        if let Some(x) = &self.metrics {
            m.push(("metrics".to_owned(), x.to_json()));
        }
        if let Some(x) = &self.schedule {
            m.push(("schedule".to_owned(), Json::Str(x.clone())));
        }
        if let Some(x) = &self.services {
            m.push(("services".to_owned(), service_config_arr_json(x)));
        }
        if let Some(x) = &self.standbys {
            m.push(("standbys".to_owned(), Json::from_strings(x)));
        }
        if let Some(x) = &self.statics {
            m.push(("statics".to_owned(), static_config_arr_json(x)));
        }
        if let Some(x) = &self.stop_config {
            m.push(("stop_config".to_owned(), x.to_json()));
        }
        proof {
            assert(crate::json::json_pairs_view(m@) =~= machine_config_members_2(self.deep_view()));
        }
        m
    }

    pub fn to_json(&self) -> (j: Json)
        ensures
            j.deep_view() == machine_config_jv(self.deep_view()),
    {
        let mut m = self.to_json_members_0();
        let mut m1 = self.to_json_members_1();
        m.append(&mut m1);
        let mut m2 = self.to_json_members_2();
        m.append(&mut m2);
        let j = Json::Obj(m);
        proof {
            let ghost sv = machine_config_jv(self.deep_view())->Obj_0;
            assert(crate::json::json_pairs_view(m@) =~= sv);
        }
        j
    }

    pub fn from_json(j: &Json) -> (r: Option<Self>)
        ensures
            r.deep_view() == machine_config_of_jv(j.deep_view()),
    {
        match j {
            Json::Obj(_) => {},
            _ => { return None; },
        }
        let image = match j.req_str("image") {
            Some(v) => v,
            None => { return None; },
        };
        let guest = match opt_guest_config_field(j, "guest") {
            Some(v) => v,
            None => { return None; },
        };
        let auto_destroy = match j.opt_bool("auto_destroy") {
            Some(v) => v,
            None => { return None; },
        };
        let init = match opt_init_config_field(j, "init") {
            Some(v) => v,
            None => { return None; },
        };
        let env = match j.opt_str_map("env") {
            Some(v) => v,
            None => { return None; },
        };
        let processes = match opt_process_config_arr_field(j, "processes") {
            Some(v) => v,
            None => { return None; },
        };
        let mounts = match opt_mount_config_arr_field(j, "mounts") {
            Some(v) => v,
            None => { return None; },
        };
        let restart = match opt_restart_policy_field(j, "restart") {
            Some(v) => v,
            None => { return None; },
        };
        let checks = match opt_checks_field(j, "checks") {
            Some(v) => v,
            None => { return None; },
        };
        let dns = match opt_dns_config_field(j, "dns") {
            Some(v) => v,
            None => { return None; },
        };
        let files = match opt_file_config_arr_field(j, "files") {
            Some(v) => v,
            None => { return None; },
        };
        let metadata = match j.opt_str_map("metadata") {
            Some(v) => v,
            None => { return None; },
        };
        let metrics = match opt_metrics_config_field(j, "metrics") {
            Some(v) => v,
            None => { return None; },
        };
        let schedule = match j.opt_str("schedule") {
            Some(v) => v,
            None => { return None; },
        };
        let services = match opt_service_config_arr_field(j, "services") {
            Some(v) => v,
            None => { return None; },
        };
        let standbys = match j.opt_str_arr("standbys") {
            Some(v) => v,
            None => { return None; },
        };
        let statics = match opt_static_config_arr_field(j, "statics") {
            Some(v) => v,
            None => { return None; },
        };
        let stop_config = match opt_stop_config_field(j, "stop_config") {
            Some(v) => v,
            None => { return None; },
        };
        Some(MachineConfig { image, guest, auto_destroy, init, env, processes, mounts, restart, checks, dns, files, metadata, metrics, schedule, services, standbys, statics, stop_config })
    }
}

#[verifier::rlimit(100)]
proof fn lemma_machine_config_chunk_0(c: MachineConfigV)
    ensures
        json_lookup(machine_config_members_0(c), "image"@) == Some(JsonV::Str(c.image)),
        json_lookup(machine_config_members_0(c), "guest"@) == (match c.guest { None => None, Some(x) => Some(guest_config_jv(x)) }),
        json_lookup(machine_config_members_0(c), "auto_destroy"@) == (match c.auto_destroy { None => None, Some(x) => Some(JsonV::Bool(x)) }),
        json_lookup(machine_config_members_0(c), "init"@) == (match c.init { None => None, Some(x) => Some(init_config_jv(x)) }),
        json_lookup(machine_config_members_0(c), "env"@) == (match c.env { None => None, Some(x) => Some(JsonV::Obj(str_pairs_jv(x))) }),
        json_lookup(machine_config_members_0(c), "processes"@) == (match c.processes { None => None, Some(x) => Some(JsonV::Arr(process_config_seq_jv(x))) }),
        json_lookup(machine_config_members_0(c), "mounts"@) is None,
        json_lookup(machine_config_members_0(c), "restart"@) is None,
        json_lookup(machine_config_members_0(c), "checks"@) is None,
        json_lookup(machine_config_members_0(c), "dns"@) is None,
        json_lookup(machine_config_members_0(c), "files"@) is None,
        json_lookup(machine_config_members_0(c), "metadata"@) is None,
        json_lookup(machine_config_members_0(c), "metrics"@) is None,
        json_lookup(machine_config_members_0(c), "schedule"@) is None,
        json_lookup(machine_config_members_0(c), "services"@) is None,
        json_lookup(machine_config_members_0(c), "standbys"@) is None,
        json_lookup(machine_config_members_0(c), "statics"@) is None,
        json_lookup(machine_config_members_0(c), "stop_config"@) is None,
{
    reveal_strlit("image");
    reveal_strlit("guest");
    reveal_strlit("auto_destroy");
    reveal_strlit("init");
    reveal_strlit("env");
    reveal_strlit("processes");
    reveal_strlit("mounts");
    reveal_strlit("restart");
    reveal_strlit("checks");
    reveal_strlit("dns");
    reveal_strlit("files");
    reveal_strlit("metadata");
    reveal_strlit("metrics");
    reveal_strlit("schedule");
    reveal_strlit("services");
    reveal_strlit("standbys");
    reveal_strlit("statics");
    reveal_strlit("stop_config");
    assert("image"@.len() == 5);
    assert("guest"@.len() == 5);
    assert("auto_destroy"@.len() == 12);
    assert("init"@.len() == 4);
    assert("env"@.len() == 3);
    assert("processes"@.len() == 9);
    assert("mounts"@.len() == 6);
    assert("restart"@.len() == 7);
    assert("checks"@.len() == 6);
    assert("dns"@.len() == 3);
    assert("files"@.len() == 5);
    assert("metadata"@.len() == 8);
    assert("metrics"@.len() == 7);
    assert("schedule"@.len() == 8);
    assert("services"@.len() == 8);
    assert("standbys"@.len() == 8);
    assert("statics"@.len() == 7);
    assert("stop_config"@.len() == 11);
    assert("image"@[0] == 'i');
    assert("guest"@[0] == 'g');
    assert("files"@[0] == 'f');
    assert("env"@[0] == 'e');
    assert("dns"@[0] == 'd');
    assert("mounts"@[0] == 'm');
    assert("checks"@[0] == 'c');
    assert("restart"@[0] == 'r');
    assert("metrics"@[0] == 'm');
    assert("statics"@[0] == 's');
    assert("metadata"@[0] == 'm');
    assert("schedule"@[0] == 's');
    assert("services"@[0] == 's');
    assert("standbys"@[0] == 's');
    assert("schedule"@[1] == 'c');
    assert("services"@[1] == 'e');
    assert("standbys"@[1] == 't');
}

#[verifier::rlimit(100)]
proof fn lemma_machine_config_chunk_1(c: MachineConfigV)
    ensures
        json_lookup(machine_config_members_1(c), "mounts"@) == (match c.mounts { None => None, Some(x) => Some(JsonV::Arr(mount_config_seq_jv(x))) }),
        json_lookup(machine_config_members_1(c), "restart"@) == (match c.restart { None => None, Some(x) => Some(restart_policy_jv(x)) }),
        json_lookup(machine_config_members_1(c), "checks"@) == (match c.checks { None => None, Some(x) => Some(checks_jv(x)) }),
        json_lookup(machine_config_members_1(c), "dns"@) == (match c.dns { None => None, Some(x) => Some(dns_config_jv(x)) }),
        json_lookup(machine_config_members_1(c), "files"@) == (match c.files { None => None, Some(x) => Some(JsonV::Arr(file_config_seq_jv(x))) }),
        json_lookup(machine_config_members_1(c), "metadata"@) == (match c.metadata { None => None, Some(x) => Some(JsonV::Obj(str_pairs_jv(x))) }),
        json_lookup(machine_config_members_1(c), "image"@) is None,
        json_lookup(machine_config_members_1(c), "guest"@) is None,
        json_lookup(machine_config_members_1(c), "auto_destroy"@) is None,
        json_lookup(machine_config_members_1(c), "init"@) is None,
        json_lookup(machine_config_members_1(c), "env"@) is None,
        json_lookup(machine_config_members_1(c), "processes"@) is None,
        json_lookup(machine_config_members_1(c), "metrics"@) is None,
        json_lookup(machine_config_members_1(c), "schedule"@) is None,
        json_lookup(machine_config_members_1(c), "services"@) is None,
        json_lookup(machine_config_members_1(c), "standbys"@) is None,
        json_lookup(machine_config_members_1(c), "statics"@) is None,
        json_lookup(machine_config_members_1(c), "stop_config"@) is None,
{
    reveal_strlit("image");
    reveal_strlit("guest");
    reveal_strlit("auto_destroy");
    reveal_strlit("init");
    reveal_strlit("env");
    reveal_strlit("processes");
    reveal_strlit("mounts");
    reveal_strlit("restart");
    reveal_strlit("checks");
    reveal_strlit("dns");
    reveal_strlit("files");
    reveal_strlit("metadata");
    reveal_strlit("metrics");
    reveal_strlit("schedule");
    reveal_strlit("services");
    reveal_strlit("standbys");
    reveal_strlit("statics");
    reveal_strlit("stop_config");
    assert("image"@.len() == 5);
    assert("guest"@.len() == 5);
    assert("auto_destroy"@.len() == 12);
    assert("init"@.len() == 4);
    assert("env"@.len() == 3);
    assert("processes"@.len() == 9);
    assert("mounts"@.len() == 6);
    assert("restart"@.len() == 7);
    assert("checks"@.len() == 6);
    assert("dns"@.len() == 3);
    assert("files"@.len() == 5);
    assert("metadata"@.len() == 8);
    assert("metrics"@.len() == 7);
    assert("schedule"@.len() == 8);
    assert("services"@.len() == 8);
    assert("standbys"@.len() == 8);
    assert("statics"@.len() == 7);
    assert("stop_config"@.len() == 11);
    assert("image"@[0] == 'i');
    assert("guest"@[0] == 'g');
    assert("files"@[0] == 'f');
    assert("env"@[0] == 'e');
    assert("dns"@[0] == 'd');
    assert("mounts"@[0] == 'm');
    assert("checks"@[0] == 'c');
    assert("restart"@[0] == 'r');
    assert("metrics"@[0] == 'm');
    assert("statics"@[0] == 's');
    assert("metadata"@[0] == 'm');
    assert("schedule"@[0] == 's');
    assert("services"@[0] == 's');
    assert("standbys"@[0] == 's');
    assert("schedule"@[1] == 'c');
    assert("services"@[1] == 'e');
    assert("standbys"@[1] == 't');
}

#[verifier::rlimit(100)]
proof fn lemma_machine_config_chunk_2(c: MachineConfigV)
    ensures
        json_lookup(machine_config_members_2(c), "metrics"@) == (match c.metrics { None => None, Some(x) => Some(metrics_config_jv(x)) }),
        json_lookup(machine_config_members_2(c), "schedule"@) == (match c.schedule { None => None, Some(x) => Some(JsonV::Str(x)) }),
        json_lookup(machine_config_members_2(c), "services"@) == (match c.services { None => None, Some(x) => Some(JsonV::Arr(service_config_seq_jv(x))) }),
        json_lookup(machine_config_members_2(c), "standbys"@) == (match c.standbys { None => None, Some(x) => Some(JsonV::Arr(str_seq_jv(x))) }),
        json_lookup(machine_config_members_2(c), "statics"@) == (match c.statics { None => None, Some(x) => Some(JsonV::Arr(static_config_seq_jv(x))) }),
        json_lookup(machine_config_members_2(c), "stop_config"@) == (match c.stop_config { None => None, Some(x) => Some(stop_config_jv(x)) }),
        json_lookup(machine_config_members_2(c), "image"@) is None,
        json_lookup(machine_config_members_2(c), "guest"@) is None,
        json_lookup(machine_config_members_2(c), "auto_destroy"@) is None,
        json_lookup(machine_config_members_2(c), "init"@) is None,
        json_lookup(machine_config_members_2(c), "env"@) is None,
        json_lookup(machine_config_members_2(c), "processes"@) is None,
        json_lookup(machine_config_members_2(c), "mounts"@) is None,
        json_lookup(machine_config_members_2(c), "restart"@) is None,
        json_lookup(machine_config_members_2(c), "checks"@) is None,
        json_lookup(machine_config_members_2(c), "dns"@) is None,
        json_lookup(machine_config_members_2(c), "files"@) is None,
        json_lookup(machine_config_members_2(c), "metadata"@) is None,
{
    reveal_strlit("image");
    reveal_strlit("guest");
    reveal_strlit("auto_destroy");
    reveal_strlit("init");
    reveal_strlit("env");
    reveal_strlit("processes");
    reveal_strlit("mounts");
    reveal_strlit("restart");
    reveal_strlit("checks");
    reveal_strlit("dns");
    reveal_strlit("files");
    reveal_strlit("metadata");
    reveal_strlit("metrics");
    reveal_strlit("schedule");
    reveal_strlit("services");
    reveal_strlit("standbys");
    reveal_strlit("statics");
    reveal_strlit("stop_config");
    assert("image"@.len() == 5);
    assert("guest"@.len() == 5);
    assert("auto_destroy"@.len() == 12);
    assert("init"@.len() == 4);
    assert("env"@.len() == 3);
    assert("processes"@.len() == 9);
    assert("mounts"@.len() == 6);
    assert("restart"@.len() == 7);
    assert("checks"@.len() == 6);
    assert("dns"@.len() == 3);
    assert("files"@.len() == 5);
    assert("metadata"@.len() == 8);
    assert("metrics"@.len() == 7);
    assert("schedule"@.len() == 8);
    assert("services"@.len() == 8);
    assert("standbys"@.len() == 8);
    assert("statics"@.len() == 7);
    assert("stop_config"@.len() == 11);
    assert("image"@[0] == 'i');
    assert("guest"@[0] == 'g');
    assert("files"@[0] == 'f');
    assert("env"@[0] == 'e');
    assert("dns"@[0] == 'd');
    assert("mounts"@[0] == 'm');
    assert("checks"@[0] == 'c');
    assert("restart"@[0] == 'r');
    assert("metrics"@[0] == 'm');
    assert("statics"@[0] == 's');
    assert("metadata"@[0] == 'm');
    assert("schedule"@[0] == 's');
    assert("services"@[0] == 's');
    assert("standbys"@[0] == 's');
    assert("schedule"@[1] == 'c');
    assert("services"@[1] == 'e');
    assert("standbys"@[1] == 't');
}

proof fn lemma_machine_config_field_image(c: MachineConfigV)
    ensures
        jv_req_str(machine_config_jv(c), "image"@) == Some(c.image),
{
    lemma_machine_config_chunk_0(c);
    lemma_machine_config_chunk_1(c);
    lemma_machine_config_chunk_2(c);
    let e = machine_config_jv(c);
    assert(json_member(e, "image"@) == Some(JsonV::Str(c.image)));
    assert(jv_req_str(e, "image"@) == Some(c.image));
}

proof fn lemma_machine_config_field_guest(c: MachineConfigV)
    ensures
        jv_opt_guest_config(machine_config_jv(c), "guest"@) == Some(c.guest),
{
    lemma_machine_config_chunk_0(c);
    lemma_machine_config_chunk_1(c);
    lemma_machine_config_chunk_2(c);
    let e = machine_config_jv(c);
    assert(json_member(e, "guest"@) == (match c.guest { None => None, Some(x) => Some(guest_config_jv(x)) }));
    assert(jv_opt_guest_config(e, "guest"@) == Some(c.guest)) by {
        if c.guest is Some {
            lemma_guest_config_round_trip(c.guest->0);
        }
    }
}

proof fn lemma_machine_config_field_auto_destroy(c: MachineConfigV)
    ensures
        jv_opt_bool(machine_config_jv(c), "auto_destroy"@) == Some(c.auto_destroy),
{
    lemma_machine_config_chunk_0(c);
    lemma_machine_config_chunk_1(c);
    lemma_machine_config_chunk_2(c);
    let e = machine_config_jv(c);
    assert(json_member(e, "auto_destroy"@) == (match c.auto_destroy { None => None, Some(x) => Some(JsonV::Bool(x)) }));
    assert(jv_opt_bool(e, "auto_destroy"@) == Some(c.auto_destroy));
}

proof fn lemma_machine_config_field_init(c: MachineConfigV)
    ensures
        jv_opt_init_config(machine_config_jv(c), "init"@) == Some(c.init),
{
    lemma_machine_config_chunk_0(c);
    lemma_machine_config_chunk_1(c);
    lemma_machine_config_chunk_2(c);
    let e = machine_config_jv(c);
    assert(json_member(e, "init"@) == (match c.init { None => None, Some(x) => Some(init_config_jv(x)) }));
    assert(jv_opt_init_config(e, "init"@) == Some(c.init)) by {
        if c.init is Some {
            lemma_init_config_round_trip(c.init->0);
        }
    }
}

proof fn lemma_machine_config_field_env(c: MachineConfigV)
    ensures
        jv_opt_str_map(machine_config_jv(c), "env"@) == Some(c.env),
{
    lemma_machine_config_chunk_0(c);
    lemma_machine_config_chunk_1(c);
    lemma_machine_config_chunk_2(c);
    let e = machine_config_jv(c);
    assert(json_member(e, "env"@) == (match c.env { None => None, Some(x) => Some(JsonV::Obj(str_pairs_jv(x))) }));
    assert(jv_opt_str_map(e, "env"@) == Some(c.env)) by {
        if c.env is Some {
            assert(jv_str_pairs(str_pairs_jv(c.env->0))->0 =~= c.env->0);
        }
    }
}

proof fn lemma_machine_config_field_processes(c: MachineConfigV)
    ensures
        jv_opt_process_config_arr(machine_config_jv(c), "processes"@) == Some(c.processes),
{
    lemma_machine_config_chunk_0(c);
    lemma_machine_config_chunk_1(c);
    lemma_machine_config_chunk_2(c);
    let e = machine_config_jv(c);
    assert(json_member(e, "processes"@) == (match c.processes { None => None, Some(x) => Some(JsonV::Arr(process_config_seq_jv(x))) }));
    assert(jv_opt_process_config_arr(e, "processes"@) == Some(c.processes)) by {
        if c.processes is Some {
            let xs = c.processes->0;
            assert forall|k: int| 0 <= k < xs.len() implies process_config_of_jv(
                #[trigger] process_config_seq_jv(xs)[k],
            ) is Some by {
                lemma_process_config_round_trip(xs[k]);
            }
            assert(process_config_seq_of(process_config_seq_jv(xs)) is Some);
            assert forall|k: int| 0 <= k < xs.len() implies process_config_seq_of(
                process_config_seq_jv(xs),
            )->0[k] == xs[k] by {
                lemma_process_config_round_trip(xs[k]);
            }
            assert(process_config_seq_of(process_config_seq_jv(xs))->0 =~= xs);
        }
    }
}

proof fn lemma_machine_config_field_mounts(c: MachineConfigV)
    ensures
        jv_opt_mount_config_arr(machine_config_jv(c), "mounts"@) == Some(c.mounts),
{
    lemma_machine_config_chunk_0(c);
    lemma_machine_config_chunk_1(c);
    lemma_machine_config_chunk_2(c);
    let e = machine_config_jv(c);
    assert(json_member(e, "mounts"@) == (match c.mounts { None => None, Some(x) => Some(JsonV::Arr(mount_config_seq_jv(x))) }));
    assert(jv_opt_mount_config_arr(e, "mounts"@) == Some(c.mounts)) by {
        if c.mounts is Some {
            let xs = c.mounts->0;
            assert forall|k: int| 0 <= k < xs.len() implies mount_config_of_jv(
                #[trigger] mount_config_seq_jv(xs)[k],
            ) is Some by {
                lemma_mount_config_round_trip(xs[k]);
            }
            assert(mount_config_seq_of(mount_config_seq_jv(xs)) is Some);
            assert forall|k: int| 0 <= k < xs.len() implies mount_config_seq_of(
                mount_config_seq_jv(xs),
            )->0[k] == xs[k] by {
                lemma_mount_config_round_trip(xs[k]);
            }
            assert(mount_config_seq_of(mount_config_seq_jv(xs))->0 =~= xs);
        }
    }
}

proof fn lemma_machine_config_field_restart(c: MachineConfigV)
    ensures
        jv_opt_restart_policy(machine_config_jv(c), "restart"@) == Some(c.restart),
{
    lemma_machine_config_chunk_0(c);
    lemma_machine_config_chunk_1(c);
    lemma_machine_config_chunk_2(c);
    let e = machine_config_jv(c);
    assert(json_member(e, "restart"@) == (match c.restart { None => None, Some(x) => Some(restart_policy_jv(x)) }));
    assert(jv_opt_restart_policy(e, "restart"@) == Some(c.restart)) by {
        if c.restart is Some {
            lemma_restart_policy_round_trip(c.restart->0);
        }
    }
}

proof fn lemma_machine_config_field_checks(c: MachineConfigV)
    ensures
        jv_opt_checks(machine_config_jv(c), "checks"@) == Some(c.checks),
{
    lemma_machine_config_chunk_0(c);
    lemma_machine_config_chunk_1(c);
    lemma_machine_config_chunk_2(c);
    let e = machine_config_jv(c);
    assert(json_member(e, "checks"@) == (match c.checks { None => None, Some(x) => Some(checks_jv(x)) }));
    assert(jv_opt_checks(e, "checks"@) == Some(c.checks)) by {
        if c.checks is Some {
            lemma_checks_round_trip(c.checks->0);
        }
    }
}

proof fn lemma_machine_config_field_dns(c: MachineConfigV)
    ensures
        jv_opt_dns_config(machine_config_jv(c), "dns"@) == Some(c.dns),
{
    lemma_machine_config_chunk_0(c);
    lemma_machine_config_chunk_1(c);
    lemma_machine_config_chunk_2(c);
    let e = machine_config_jv(c);
    assert(json_member(e, "dns"@) == (match c.dns { None => None, Some(x) => Some(dns_config_jv(x)) }));
    assert(jv_opt_dns_config(e, "dns"@) == Some(c.dns)) by {
        if c.dns is Some {
            lemma_dns_config_round_trip(c.dns->0);
        }
    }
}

proof fn lemma_machine_config_field_files(c: MachineConfigV)
    ensures
        jv_opt_file_config_arr(machine_config_jv(c), "files"@) == Some(c.files),
{
    lemma_machine_config_chunk_0(c);
    lemma_machine_config_chunk_1(c);
    lemma_machine_config_chunk_2(c);
    let e = machine_config_jv(c);
    assert(json_member(e, "files"@) == (match c.files { None => None, Some(x) => Some(JsonV::Arr(file_config_seq_jv(x))) }));
    assert(jv_opt_file_config_arr(e, "files"@) == Some(c.files)) by {
        if c.files is Some {
            let xs = c.files->0;
            assert forall|k: int| 0 <= k < xs.len() implies file_config_of_jv(
                #[trigger] file_config_seq_jv(xs)[k],
            ) is Some by {
                lemma_file_config_round_trip(xs[k]);
            }
            assert(file_config_seq_of(file_config_seq_jv(xs)) is Some);
            assert forall|k: int| 0 <= k < xs.len() implies file_config_seq_of(
                file_config_seq_jv(xs),
            )->0[k] == xs[k] by {
                lemma_file_config_round_trip(xs[k]);
            }
            assert(file_config_seq_of(file_config_seq_jv(xs))->0 =~= xs);
        }
    }
}

proof fn lemma_machine_config_field_metadata(c: MachineConfigV)
    ensures
        jv_opt_str_map(machine_config_jv(c), "metadata"@) == Some(c.metadata),
{
    lemma_machine_config_chunk_0(c);
    lemma_machine_config_chunk_1(c);
    lemma_machine_config_chunk_2(c);
    let e = machine_config_jv(c);
    assert(json_member(e, "metadata"@) == (match c.metadata { None => None, Some(x) => Some(JsonV::Obj(str_pairs_jv(x))) }));
    assert(jv_opt_str_map(e, "metadata"@) == Some(c.metadata)) by {
        if c.metadata is Some {
            assert(jv_str_pairs(str_pairs_jv(c.metadata->0))->0 =~= c.metadata->0);
        }
    }
}

proof fn lemma_machine_config_field_metrics(c: MachineConfigV)
    ensures
        jv_opt_metrics_config(machine_config_jv(c), "metrics"@) == Some(c.metrics),
{
    lemma_machine_config_chunk_0(c);
    lemma_machine_config_chunk_1(c);
    lemma_machine_config_chunk_2(c);
    let e = machine_config_jv(c);
    assert(json_member(e, "metrics"@) == (match c.metrics { None => None, Some(x) => Some(metrics_config_jv(x)) }));
    assert(jv_opt_metrics_config(e, "metrics"@) == Some(c.metrics)) by {
        if c.metrics is Some {
            lemma_metrics_config_round_trip(c.metrics->0);
        }
    }
}

proof fn lemma_machine_config_field_schedule(c: MachineConfigV)
    ensures
        jv_opt_str(machine_config_jv(c), "schedule"@) == Some(c.schedule),
{
    lemma_machine_config_chunk_0(c);
    lemma_machine_config_chunk_1(c);
    lemma_machine_config_chunk_2(c);
    let e = machine_config_jv(c);
    assert(json_member(e, "schedule"@) == (match c.schedule { None => None, Some(x) => Some(JsonV::Str(x)) }));
    assert(jv_opt_str(e, "schedule"@) == Some(c.schedule));
}

proof fn lemma_machine_config_field_services(c: MachineConfigV)
    ensures
        jv_opt_service_config_arr(machine_config_jv(c), "services"@) == Some(c.services),
{
    lemma_machine_config_chunk_0(c);
    lemma_machine_config_chunk_1(c);
    lemma_machine_config_chunk_2(c);
    let e = machine_config_jv(c);
    assert(json_member(e, "services"@) == (match c.services { None => None, Some(x) => Some(JsonV::Arr(service_config_seq_jv(x))) }));
    assert(jv_opt_service_config_arr(e, "services"@) == Some(c.services)) by {
        if c.services is Some {
            let xs = c.services->0;
            assert forall|k: int| 0 <= k < xs.len() implies service_config_of_jv(
                #[trigger] service_config_seq_jv(xs)[k],
            ) is Some by {
                lemma_service_config_round_trip(xs[k]);
            }
            assert(service_config_seq_of(service_config_seq_jv(xs)) is Some);
            assert forall|k: int| 0 <= k < xs.len() implies service_config_seq_of(
                service_config_seq_jv(xs),
            )->0[k] == xs[k] by {
                lemma_service_config_round_trip(xs[k]);
            }
            assert(service_config_seq_of(service_config_seq_jv(xs))->0 =~= xs);
        }
    }
}

proof fn lemma_machine_config_field_standbys(c: MachineConfigV)
    ensures
        jv_opt_str_arr(machine_config_jv(c), "standbys"@) == Some(c.standbys),
{
    lemma_machine_config_chunk_0(c);
    lemma_machine_config_chunk_1(c);
    lemma_machine_config_chunk_2(c);
    let e = machine_config_jv(c);
    assert(json_member(e, "standbys"@) == (match c.standbys { None => None, Some(x) => Some(JsonV::Arr(str_seq_jv(x))) }));
    assert(jv_opt_str_arr(e, "standbys"@) == Some(c.standbys)) by {
        if c.standbys is Some {
            assert(jv_str_seq(str_seq_jv(c.standbys->0))->0 =~= c.standbys->0);
        }
    }
}

proof fn lemma_machine_config_field_statics(c: MachineConfigV)
    ensures
        jv_opt_static_config_arr(machine_config_jv(c), "statics"@) == Some(c.statics),
{
    lemma_machine_config_chunk_0(c);
    lemma_machine_config_chunk_1(c);
    lemma_machine_config_chunk_2(c);
    let e = machine_config_jv(c);
    assert(json_member(e, "statics"@) == (match c.statics { None => None, Some(x) => Some(JsonV::Arr(static_config_seq_jv(x))) }));
    assert(jv_opt_static_config_arr(e, "statics"@) == Some(c.statics)) by {
        if c.statics is Some {
            let xs = c.statics->0;
            assert forall|k: int| 0 <= k < xs.len() implies static_config_of_jv(
                #[trigger] static_config_seq_jv(xs)[k],
            ) is Some by {
                lemma_static_config_round_trip(xs[k]);
            }
            assert(static_config_seq_of(static_config_seq_jv(xs)) is Some);
            assert forall|k: int| 0 <= k < xs.len() implies static_config_seq_of(
                static_config_seq_jv(xs),
            )->0[k] == xs[k] by {
                lemma_static_config_round_trip(xs[k]);
            }
            assert(static_config_seq_of(static_config_seq_jv(xs))->0 =~= xs);
        }
    }
}

proof fn lemma_machine_config_field_stop_config(c: MachineConfigV)
    ensures
        jv_opt_stop_config(machine_config_jv(c), "stop_config"@) == Some(c.stop_config),
{
    lemma_machine_config_chunk_0(c);
    lemma_machine_config_chunk_1(c);
    lemma_machine_config_chunk_2(c);
    let e = machine_config_jv(c);
    assert(json_member(e, "stop_config"@) == (match c.stop_config { None => None, Some(x) => Some(stop_config_jv(x)) }));
    assert(jv_opt_stop_config(e, "stop_config"@) == Some(c.stop_config)) by {
        if c.stop_config is Some {
            lemma_stop_config_round_trip(c.stop_config->0);
        }
    }
}

/// Each unset optional field of a machine configuration is absent from the
/// encoding: its member does not exist at all, rather than holding null.
/// A set field's member holds exactly that field's encoding.
pub proof fn lemma_machine_config_members(c: MachineConfigV)
    ensures
        json_member(machine_config_jv(c), "image"@) == Some(JsonV::Str(c.image)),
        json_member(machine_config_jv(c), "guest"@) == (match c.guest {
            None => None,
            Some(x) => Some(guest_config_jv(x)),
        }),
        json_member(machine_config_jv(c), "auto_destroy"@) == (match c.auto_destroy {
            None => None,
            Some(x) => Some(JsonV::Bool(x)),
        }),
        json_member(machine_config_jv(c), "init"@) == (match c.init {
            None => None,
            Some(x) => Some(init_config_jv(x)),
        }),
        json_member(machine_config_jv(c), "env"@) == (match c.env {
            None => None,
            Some(x) => Some(JsonV::Obj(str_pairs_jv(x))),
        }),
        json_member(machine_config_jv(c), "processes"@) == (match c.processes {
            None => None,
            Some(x) => Some(JsonV::Arr(process_config_seq_jv(x))),
        }),
        json_member(machine_config_jv(c), "mounts"@) == (match c.mounts {
            None => None,
            Some(x) => Some(JsonV::Arr(mount_config_seq_jv(x))),
        }),
        json_member(machine_config_jv(c), "restart"@) == (match c.restart {
            None => None,
            Some(x) => Some(restart_policy_jv(x)),
        }),
        json_member(machine_config_jv(c), "checks"@) == (match c.checks {
            None => None,
            Some(x) => Some(checks_jv(x)),
        }),
        json_member(machine_config_jv(c), "dns"@) == (match c.dns {
            None => None,
            Some(x) => Some(dns_config_jv(x)),
        }),
        json_member(machine_config_jv(c), "files"@) == (match c.files {
            None => None,
            Some(x) => Some(JsonV::Arr(file_config_seq_jv(x))),
        }),
        json_member(machine_config_jv(c), "metadata"@) == (match c.metadata {
            None => None,
            Some(x) => Some(JsonV::Obj(str_pairs_jv(x))),
        }),
        json_member(machine_config_jv(c), "metrics"@) == (match c.metrics {
            None => None,
            Some(x) => Some(metrics_config_jv(x)),
        }),
        json_member(machine_config_jv(c), "schedule"@) == (match c.schedule {
            None => None,
            Some(x) => Some(JsonV::Str(x)),
        }),
        json_member(machine_config_jv(c), "services"@) == (match c.services {
            None => None,
            Some(x) => Some(JsonV::Arr(service_config_seq_jv(x))),
        }),
        json_member(machine_config_jv(c), "standbys"@) == (match c.standbys {
            None => None,
            Some(x) => Some(JsonV::Arr(str_seq_jv(x))),
        }),
        json_member(machine_config_jv(c), "statics"@) == (match c.statics {
            None => None,
            Some(x) => Some(JsonV::Arr(static_config_seq_jv(x))),
        }),
        json_member(machine_config_jv(c), "stop_config"@) == (match c.stop_config {
            None => None,
            Some(x) => Some(stop_config_jv(x)),
        }),
{
    lemma_machine_config_chunk_0(c);
    lemma_machine_config_chunk_1(c);
    lemma_machine_config_chunk_2(c);
}

/// Encoding this record and decoding it yields the original value.
pub proof fn lemma_machine_config_round_trip(c: MachineConfigV)
    ensures
        machine_config_of_jv(machine_config_jv(c)) == Some(c),
{
    lemma_machine_config_field_image(c);
    lemma_machine_config_field_guest(c);
    lemma_machine_config_field_auto_destroy(c);
    lemma_machine_config_field_init(c);
    lemma_machine_config_field_env(c);
    lemma_machine_config_field_processes(c);
    lemma_machine_config_field_mounts(c);
    lemma_machine_config_field_restart(c);
    lemma_machine_config_field_checks(c);
    lemma_machine_config_field_dns(c);
    lemma_machine_config_field_files(c);
    lemma_machine_config_field_metadata(c);
    lemma_machine_config_field_metrics(c);
    lemma_machine_config_field_schedule(c);
    lemma_machine_config_field_services(c);
    lemma_machine_config_field_standbys(c);
    lemma_machine_config_field_statics(c);
    lemma_machine_config_field_stop_config(c);
    let e = machine_config_jv(c);
    assert(machine_config_of_jv(e)->0 =~= c);
    assert(machine_config_of_jv(e) == Some(c));
}

/// Replaces or appends the binding of a key in an association list.
pub open spec fn assoc_update(
    s: Seq<(Seq<char>, Seq<char>)>,
    k: Seq<char>,
    v: Seq<char>,
) -> Seq<(Seq<char>, Seq<char>)>
    decreases s.len(),
{
    if s.len() == 0 {
        seq![(k, v)]
    } else if s[0].0 == k {
        seq![(k, v)] + s.drop_first()
    } else {
        seq![s[0]] + assoc_update(s.drop_first(), k, v)
    }
}

proof fn lemma_assoc_update_found(
    s: Seq<(Seq<char>, Seq<char>)>,
    k: Seq<char>,
    v: Seq<char>,
    i: int,
)
    requires
        0 <= i < s.len(),
        s[i].0 == k,
        forall|p: int| 0 <= p < i ==> (#[trigger] s[p]).0 != k,
    ensures
        assoc_update(s, k, v) == s.update(i, (k, v)),
    decreases i,
{
    if i == 0 {
        assert(assoc_update(s, k, v) =~= s.update(0, (k, v)));
    } else {
        lemma_assoc_update_found(s.drop_first(), k, v, i - 1);
        assert(assoc_update(s, k, v) =~= s.update(i, (k, v)));
    }
}

proof fn lemma_assoc_update_missing(s: Seq<(Seq<char>, Seq<char>)>, k: Seq<char>, v: Seq<char>)
    requires
        forall|p: int| 0 <= p < s.len() ==> (#[trigger] s[p]).0 != k,
    ensures
        assoc_update(s, k, v) == s.push((k, v)),
    decreases s.len(),
{
    if s.len() == 0 {
        assert(assoc_update(s, k, v) =~= s.push((k, v)));
    } else {
        lemma_assoc_update_missing(s.drop_first(), k, v);
        assert(assoc_update(s, k, v) =~= s.push((k, v)));
    }
}

impl MachineConfig {
    /// Starts a builder preloaded with the stock defaults.
    pub fn builder() -> (r: MachineConfigBuilder)
        ensures
            r.config.image@ == "ubuntu:22.04"@,
            r.config.auto_destroy == Some(false),
            r.config.restart matches Some(p) && p.max_retries is None
                && p.policy == RestartPolicyEnum::No,
            r.config.guest matches Some(g) && g.cpu_kind == Some(CpuKind::Shared)
                && g.cpus == Some(1u64) && g.memory_mb == Some(256u64) && g.gpu_kind is None
                && g.gpus is None && g.kernel_args is None,
            r.config.init is None,
            r.config.env is None,
            r.config.processes is None,
            r.config.mounts is None,
            r.config.checks is None,
            r.config.dns is None,
            r.config.files is None,
            r.config.metadata is None,
            r.config.metrics is None,
            r.config.schedule is None,
            r.config.services is None,
            r.config.standbys is None,
            r.config.statics is None,
            r.config.stop_config is None,
    {
        MachineConfigBuilder::new()
    }

    /// A configuration assembled from explicit parts; no metadata is attached.
    pub fn new(
        image: String,
        auto_destroy: Option<bool>,
        guest: Option<GuestConfig>,
        restart: Option<RestartPolicy>,
        env: Option<Vec<(String, String)>>,
        processes: Option<Vec<ProcessConfig>>,
        mounts: Option<Vec<MountConfig>>,
        checks: Option<Checks>,
        dns: Option<DnsConfig>,
        files: Option<Vec<FileConfig>>,
        init: Option<InitConfig>,
        metrics: Option<MetricsConfig>,
        schedule: Option<String>,
        services: Option<Vec<ServiceConfig>>,
        standbys: Option<Vec<String>>,
        statics: Option<Vec<StaticConfig>>,
        stop_config: Option<StopConfig>,
    ) -> (r: Self)
        ensures
            r.image == image,
            r.auto_destroy == auto_destroy,
            r.guest == guest,
            r.restart == restart,
            r.env == env,
            r.processes == processes,
            r.mounts == mounts,
            r.checks == checks,
            r.dns == dns,
            r.files == files,
            r.init == init,
            r.metadata is None,
            r.metrics == metrics,
            r.schedule == schedule,
            r.services == services,
            r.standbys == standbys,
            r.statics == statics,
            r.stop_config == stop_config,
    {
        Self {
            image,
            auto_destroy,
            guest,
            restart,
            env,
            processes,
            mounts,
            checks,
            dns,
            files,
            init,
            metadata: None,
            metrics,
            schedule,
            services,
            standbys,
            statics,
            stop_config,
        }
    }
}

impl Default for MachineConfig {
    /// A bare configuration running a stock image.
    fn default() -> (r: Self)
        ensures
            r.image@ == "ubuntu:20.04"@,
            r.auto_destroy == Some(false),
            r.guest is None,
            r.init is None,
            r.env is None,
            r.processes is None,
            r.mounts is None,
            r.restart is None,
            r.checks is None,
            r.dns is None,
            r.files is None,
            r.metadata is None,
            r.metrics is None,
            r.schedule is None,
            r.services is None,
            r.standbys is None,
            r.statics is None,
            r.stop_config is None,
    {
        Self {
            image: "ubuntu:20.04".to_owned(),
            auto_destroy: Some(false),
            guest: None,
            init: None,
            env: None,
            processes: None,
            mounts: None,
            restart: None,
            checks: None,
            dns: None,
            files: None,
            metadata: None,
            metrics: None,
            schedule: None,
            services: None,
            standbys: None,
            statics: None,
            stop_config: None,
        }
    }
}

/// Assembles a machine configuration one field at a time.
pub struct MachineConfigBuilder {
    pub config: MachineConfig,
}

impl MachineConfigBuilder {
    /// Starts from the stock defaults: a shared CPU, no restarts.
    pub fn new() -> (r: Self)
        ensures
            r.config.image@ == "ubuntu:22.04"@,
            r.config.auto_destroy == Some(false),
            r.config.restart matches Some(p) && p.max_retries is None
                && p.policy == RestartPolicyEnum::No,
            r.config.guest matches Some(g) && g.cpu_kind == Some(CpuKind::Shared)
                && g.cpus == Some(1u64) && g.memory_mb == Some(256u64) && g.gpu_kind is None
                && g.gpus is None && g.kernel_args is None,
            r.config.init is None,
            r.config.env is None,
            r.config.processes is None,
            r.config.mounts is None,
            r.config.checks is None,
            r.config.dns is None,
            r.config.files is None,
            r.config.metadata is None,
            r.config.metrics is None,
            r.config.schedule is None,
            r.config.services is None,
            r.config.standbys is None,
            r.config.statics is None,
            r.config.stop_config is None,
    {
        let mut config = MachineConfig::default();
        config.image = "ubuntu:22.04".to_owned();
        config.restart = Some(RestartPolicy::default());
        config.guest = Some(GuestConfig::default());
        MachineConfigBuilder { config }
    }

    /// The container image the machine runs.
    pub fn image(self, image: &str) -> (r: Self)
        ensures
            r.config.image@ == image@,
            r.config.guest == self.config.guest,
            r.config.auto_destroy == self.config.auto_destroy,
            r.config.init == self.config.init,
            r.config.env == self.config.env,
            r.config.processes == self.config.processes,
            r.config.mounts == self.config.mounts,
            r.config.restart == self.config.restart,
            r.config.checks == self.config.checks,
            r.config.dns == self.config.dns,
            r.config.files == self.config.files,
            r.config.metadata == self.config.metadata,
            r.config.metrics == self.config.metrics,
            r.config.schedule == self.config.schedule,
            r.config.services == self.config.services,
            r.config.standbys == self.config.standbys,
            r.config.statics == self.config.statics,
            r.config.stop_config == self.config.stop_config,
    {
        let mut config = self.config;
        config.image = image.to_owned();
        MachineConfigBuilder { config }
    }

    /// Whether the machine is destroyed once it exits.
    pub fn auto_destroy(self, auto_destroy: bool) -> (r: Self)
        ensures
            r.config.auto_destroy == Some(auto_destroy),
            r.config.image == self.config.image,
            r.config.guest == self.config.guest,
            r.config.init == self.config.init,
            r.config.env == self.config.env,
            r.config.processes == self.config.processes,
            r.config.mounts == self.config.mounts,
            r.config.restart == self.config.restart,
            r.config.checks == self.config.checks,
            r.config.dns == self.config.dns,
            r.config.files == self.config.files,
            r.config.metadata == self.config.metadata,
            r.config.metrics == self.config.metrics,
            r.config.schedule == self.config.schedule,
            r.config.services == self.config.services,
            r.config.standbys == self.config.standbys,
            r.config.statics == self.config.statics,
            r.config.stop_config == self.config.stop_config,
    {
        let mut config = self.config;
        config.auto_destroy = Some(auto_destroy);
        MachineConfigBuilder { config }
    }

    /// The restart behaviour of the machine.
    pub fn restart_policy(self, policy: RestartPolicyEnum, max_retries: Option<u32>) -> (r: Self)
        ensures
            r.config.restart == Some((RestartPolicy { max_retries, policy })),
            r.config.image == self.config.image,
            r.config.guest == self.config.guest,
            r.config.auto_destroy == self.config.auto_destroy,
            r.config.init == self.config.init,
            r.config.env == self.config.env,
            r.config.processes == self.config.processes,
            r.config.mounts == self.config.mounts,
            r.config.checks == self.config.checks,
            r.config.dns == self.config.dns,
            r.config.files == self.config.files,
            r.config.metadata == self.config.metadata,
            r.config.metrics == self.config.metrics,
            r.config.schedule == self.config.schedule,
            r.config.services == self.config.services,
            r.config.standbys == self.config.standbys,
            r.config.statics == self.config.statics,
            r.config.stop_config == self.config.stop_config,
    {
        let mut config = self.config;
        config.restart = Some(RestartPolicy { max_retries, policy });
        MachineConfigBuilder { config }
    }

    /// How many CPUs the guest gets, where a guest is configured.
    pub fn cpus(self, cpus: u64) -> (r: Self)
        ensures
            match self.config.guest {
                None => r.config.guest is None,
                Some(g) => r.config.guest matches Some(g2)
                    && g2.cpus == Some(cpus)
                    && g2.cpu_kind == g.cpu_kind
                    && g2.gpu_kind == g.gpu_kind
                    && g2.gpus == g.gpus
                    && g2.memory_mb == g.memory_mb
                    && g2.kernel_args == g.kernel_args,
            },
            r.config.image == self.config.image,
            r.config.auto_destroy == self.config.auto_destroy,
            r.config.init == self.config.init,
            r.config.env == self.config.env,
            r.config.processes == self.config.processes,
            r.config.mounts == self.config.mounts,
            r.config.restart == self.config.restart,
            r.config.checks == self.config.checks,
            r.config.dns == self.config.dns,
            r.config.files == self.config.files,
            r.config.metadata == self.config.metadata,
            r.config.metrics == self.config.metrics,
            r.config.schedule == self.config.schedule,
            r.config.services == self.config.services,
            r.config.standbys == self.config.standbys,
            r.config.statics == self.config.statics,
            r.config.stop_config == self.config.stop_config,
    {
        let mut config = self.config;
        config.guest = match config.guest {
            Some(mut g) => {
                g.cpus = Some(cpus);
                Some(g)
            },
            None => None,
        };
        MachineConfigBuilder { config }
    }

    /// How much memory the guest gets, where a guest is configured.
    pub fn memory(self, memory_mb: u64) -> (r: Self)
        ensures
            match self.config.guest {
                None => r.config.guest is None,
                Some(g) => r.config.guest matches Some(g2)
                    && g2.memory_mb == Some(memory_mb)
                    && g2.cpu_kind == g.cpu_kind
                    && g2.cpus == g.cpus
                    && g2.gpu_kind == g.gpu_kind
                    && g2.gpus == g.gpus
                    && g2.kernel_args == g.kernel_args,
            },
            r.config.image == self.config.image,
            r.config.auto_destroy == self.config.auto_destroy,
            r.config.init == self.config.init,
            r.config.env == self.config.env,
            r.config.processes == self.config.processes,
            r.config.mounts == self.config.mounts,
            r.config.restart == self.config.restart,
            r.config.checks == self.config.checks,
            r.config.dns == self.config.dns,
            r.config.files == self.config.files,
            r.config.metadata == self.config.metadata,
            r.config.metrics == self.config.metrics,
            r.config.schedule == self.config.schedule,
            r.config.services == self.config.services,
            r.config.standbys == self.config.standbys,
            r.config.statics == self.config.statics,
            r.config.stop_config == self.config.stop_config,
    {
        let mut config = self.config;
        config.guest = match config.guest {
            Some(mut g) => {
                g.memory_mb = Some(memory_mb);
                Some(g)
            },
            None => None,
        };
        MachineConfigBuilder { config }
    }

    /// The kind of CPU, where a guest is configured.
    pub fn cpu_kind(self, cpu_kind: CpuKind) -> (r: Self)
        ensures
            match self.config.guest {
                None => r.config.guest is None,
                Some(g) => r.config.guest matches Some(g2)
                    && g2.cpu_kind == Some(cpu_kind)
                    && g2.cpus == g.cpus
                    && g2.gpu_kind == g.gpu_kind
                    && g2.gpus == g.gpus
                    && g2.memory_mb == g.memory_mb
                    && g2.kernel_args == g.kernel_args,
            },
            r.config.image == self.config.image,
            r.config.auto_destroy == self.config.auto_destroy,
            r.config.init == self.config.init,
            r.config.env == self.config.env,
            r.config.processes == self.config.processes,
            r.config.mounts == self.config.mounts,
            r.config.restart == self.config.restart,
            r.config.checks == self.config.checks,
            r.config.dns == self.config.dns,
            r.config.files == self.config.files,
            r.config.metadata == self.config.metadata,
            r.config.metrics == self.config.metrics,
            r.config.schedule == self.config.schedule,
            r.config.services == self.config.services,
            r.config.standbys == self.config.standbys,
            r.config.statics == self.config.statics,
            r.config.stop_config == self.config.stop_config,
    {
        let mut config = self.config;
        config.guest = match config.guest {
            Some(mut g) => {
                g.cpu_kind = Some(cpu_kind);
                Some(g)
            },
            None => None,
        };
        MachineConfigBuilder { config }
    }

    /// How many GPUs the guest gets, where a guest is configured.
    pub fn gpus(self, gpus: u64) -> (r: Self)
        ensures
            match self.config.guest {
                None => r.config.guest is None,
                Some(g) => r.config.guest matches Some(g2)
                    && g2.gpus == Some(gpus)
                    && g2.cpu_kind == g.cpu_kind
                    && g2.cpus == g.cpus
                    && g2.gpu_kind == g.gpu_kind
                    && g2.memory_mb == g.memory_mb
                    && g2.kernel_args == g.kernel_args,
            },
            r.config.image == self.config.image,
            r.config.auto_destroy == self.config.auto_destroy,
            r.config.init == self.config.init,
            r.config.env == self.config.env,
            r.config.processes == self.config.processes,
            r.config.mounts == self.config.mounts,
            r.config.restart == self.config.restart,
            r.config.checks == self.config.checks,
            r.config.dns == self.config.dns,
            r.config.files == self.config.files,
            r.config.metadata == self.config.metadata,
            r.config.metrics == self.config.metrics,
            r.config.schedule == self.config.schedule,
            r.config.services == self.config.services,
            r.config.standbys == self.config.standbys,
            r.config.statics == self.config.statics,
            r.config.stop_config == self.config.stop_config,
    {
        let mut config = self.config;
        config.guest = match config.guest {
            Some(mut g) => {
                g.gpus = Some(gpus);
                Some(g)
            },
            None => None,
        };
        MachineConfigBuilder { config }
    }

    /// The kind of GPU, where a guest is configured.
    pub fn gpu_kind(self, gpu_kind: GpuKind) -> (r: Self)
        ensures
            match self.config.guest {
                None => r.config.guest is None,
                Some(g) => r.config.guest matches Some(g2)
                    && g2.gpu_kind == Some(gpu_kind)
                    && g2.cpu_kind == g.cpu_kind
                    && g2.cpus == g.cpus
                    && g2.gpus == g.gpus
                    && g2.memory_mb == g.memory_mb
                    && g2.kernel_args == g.kernel_args,
            },
            r.config.image == self.config.image,
            r.config.auto_destroy == self.config.auto_destroy,
            r.config.init == self.config.init,
            r.config.env == self.config.env,
            r.config.processes == self.config.processes,
            r.config.mounts == self.config.mounts,
            r.config.restart == self.config.restart,
            r.config.checks == self.config.checks,
            r.config.dns == self.config.dns,
            r.config.files == self.config.files,
            r.config.metadata == self.config.metadata,
            r.config.metrics == self.config.metrics,
            r.config.schedule == self.config.schedule,
            r.config.services == self.config.services,
            r.config.standbys == self.config.standbys,
            r.config.statics == self.config.statics,
            r.config.stop_config == self.config.stop_config,
    {
        let mut config = self.config;
        config.guest = match config.guest {
            Some(mut g) => {
                g.gpu_kind = Some(gpu_kind);
                Some(g)
            },
            None => None,
        };
        MachineConfigBuilder { config }
    }

    /// The health check of the machine.
    pub fn checks(self, config_checks: Checks) -> (r: Self)
        ensures
            r.config.checks == Some(config_checks),
            r.config.image == self.config.image,
            r.config.guest == self.config.guest,
            r.config.auto_destroy == self.config.auto_destroy,
            r.config.init == self.config.init,
            r.config.env == self.config.env,
            r.config.processes == self.config.processes,
            r.config.mounts == self.config.mounts,
            r.config.restart == self.config.restart,
            r.config.dns == self.config.dns,
            r.config.files == self.config.files,
            r.config.metadata == self.config.metadata,
            r.config.metrics == self.config.metrics,
            r.config.schedule == self.config.schedule,
            r.config.services == self.config.services,
            r.config.standbys == self.config.standbys,
            r.config.statics == self.config.statics,
            r.config.stop_config == self.config.stop_config,
    {
        let mut config = self.config;
        config.checks = Some(config_checks);
        MachineConfigBuilder { config }
    }

    /// The DNS behaviour of the machine.
    pub fn dns(self, dns_config: DnsConfig) -> (r: Self)
        ensures
            r.config.dns == Some(dns_config),
            r.config.image == self.config.image,
            r.config.guest == self.config.guest,
            r.config.auto_destroy == self.config.auto_destroy,
            r.config.init == self.config.init,
            r.config.env == self.config.env,
            r.config.processes == self.config.processes,
            r.config.mounts == self.config.mounts,
            r.config.restart == self.config.restart,
            r.config.checks == self.config.checks,
            r.config.files == self.config.files,
            r.config.metadata == self.config.metadata,
            r.config.metrics == self.config.metrics,
            r.config.schedule == self.config.schedule,
            r.config.services == self.config.services,
            r.config.standbys == self.config.standbys,
            r.config.statics == self.config.statics,
            r.config.stop_config == self.config.stop_config,
    {
        let mut config = self.config;
        config.dns = Some(dns_config);
        MachineConfigBuilder { config }
    }

    /// The init process configuration.
    pub fn init(self, init_config: InitConfig) -> (r: Self)
        ensures
            r.config.init == Some(init_config),
            r.config.image == self.config.image,
            r.config.guest == self.config.guest,
            r.config.auto_destroy == self.config.auto_destroy,
            r.config.env == self.config.env,
            r.config.processes == self.config.processes,
            r.config.mounts == self.config.mounts,
            r.config.restart == self.config.restart,
            r.config.checks == self.config.checks,
            r.config.dns == self.config.dns,
            r.config.files == self.config.files,
            r.config.metadata == self.config.metadata,
            r.config.metrics == self.config.metrics,
            r.config.schedule == self.config.schedule,
            r.config.services == self.config.services,
            r.config.standbys == self.config.standbys,
            r.config.statics == self.config.statics,
            r.config.stop_config == self.config.stop_config,
    {
        let mut config = self.config;
        config.init = Some(init_config);
        MachineConfigBuilder { config }
    }

    /// Where metrics are scraped from.
    pub fn metrics(self, metrics_config: MetricsConfig) -> (r: Self)
        ensures
            r.config.metrics == Some(metrics_config),
            r.config.image == self.config.image,
            r.config.guest == self.config.guest,
            r.config.auto_destroy == self.config.auto_destroy,
            r.config.init == self.config.init,
            r.config.env == self.config.env,
            r.config.processes == self.config.processes,
            r.config.mounts == self.config.mounts,
            r.config.restart == self.config.restart,
            r.config.checks == self.config.checks,
            r.config.dns == self.config.dns,
            r.config.files == self.config.files,
            r.config.metadata == self.config.metadata,
            r.config.schedule == self.config.schedule,
            r.config.services == self.config.services,
            r.config.standbys == self.config.standbys,
            r.config.statics == self.config.statics,
            r.config.stop_config == self.config.stop_config,
    {
        let mut config = self.config;
        config.metrics = Some(metrics_config);
        MachineConfigBuilder { config }
    }

    /// How the machine is asked to stop.
    pub fn stop_config(self, stop: StopConfig) -> (r: Self)
        ensures
            r.config.stop_config == Some(stop),
            r.config.image == self.config.image,
            r.config.guest == self.config.guest,
            r.config.auto_destroy == self.config.auto_destroy,
            r.config.init == self.config.init,
            r.config.env == self.config.env,
            r.config.processes == self.config.processes,
            r.config.mounts == self.config.mounts,
            r.config.restart == self.config.restart,
            r.config.checks == self.config.checks,
            r.config.dns == self.config.dns,
            r.config.files == self.config.files,
            r.config.metadata == self.config.metadata,
            r.config.metrics == self.config.metrics,
            r.config.schedule == self.config.schedule,
            r.config.services == self.config.services,
            r.config.standbys == self.config.standbys,
            r.config.statics == self.config.statics,
    {
        let mut config = self.config;
        config.stop_config = Some(stop);
        MachineConfigBuilder { config }
    }

    /// The schedule the machine runs on.
    pub fn schedule(self, schedule: &str) -> (r: Self)
        ensures
            r.config.schedule matches Some(s) && s@ == schedule@,
            r.config.image == self.config.image,
            r.config.guest == self.config.guest,
            r.config.auto_destroy == self.config.auto_destroy,
            r.config.init == self.config.init,
            r.config.env == self.config.env,
            r.config.processes == self.config.processes,
            r.config.mounts == self.config.mounts,
            r.config.restart == self.config.restart,
            r.config.checks == self.config.checks,
            r.config.dns == self.config.dns,
            r.config.files == self.config.files,
            r.config.metadata == self.config.metadata,
            r.config.metrics == self.config.metrics,
            r.config.services == self.config.services,
            r.config.standbys == self.config.standbys,
            r.config.statics == self.config.statics,
            r.config.stop_config == self.config.stop_config,
    {
        let mut config = self.config;
        config.schedule = Some(schedule.to_owned());
        MachineConfigBuilder { config }
    }

    /// Appends a file placed into the machine.
    pub fn add_file(self, file_config: FileConfig) -> (r: Self)
        ensures
            r.config.files matches Some(xs) && xs.deep_view() == (match self.config.files {
                None => Seq::<FileConfigV>::empty(),
                Some(old_xs) => old_xs.deep_view(),
            }).push(file_config.deep_view()),
            r.config.image == self.config.image,
            r.config.guest == self.config.guest,
            r.config.auto_destroy == self.config.auto_destroy,
            r.config.init == self.config.init,
            r.config.env == self.config.env,
            r.config.processes == self.config.processes,
            r.config.mounts == self.config.mounts,
            r.config.restart == self.config.restart,
            r.config.checks == self.config.checks,
            r.config.dns == self.config.dns,
            r.config.metadata == self.config.metadata,
            r.config.metrics == self.config.metrics,
            r.config.schedule == self.config.schedule,
            r.config.services == self.config.services,
            r.config.standbys == self.config.standbys,
            r.config.statics == self.config.statics,
            r.config.stop_config == self.config.stop_config,
    {
        let mut config = self.config;
        let mut xs = match config.files {
            Some(v) => v,
            None => Vec::new(),
        };
        xs.push(file_config);
        proof {
            assert(xs.deep_view() =~= (match self.config.files {
                None => Seq::<FileConfigV>::empty(),
                Some(old_xs) => old_xs.deep_view(),
            }).push(file_config.deep_view()));
        }
        config.files = Some(xs);
        MachineConfigBuilder { config }
    }

    /// Appends a mounted volume.
    pub fn add_mount(self, mount_config: MountConfig) -> (r: Self)
        ensures
            r.config.mounts matches Some(xs) && xs.deep_view() == (match self.config.mounts {
                None => Seq::<MountConfigV>::empty(),
                Some(old_xs) => old_xs.deep_view(),
            }).push(mount_config.deep_view()),
            r.config.image == self.config.image,
            r.config.guest == self.config.guest,
            r.config.auto_destroy == self.config.auto_destroy,
            r.config.init == self.config.init,
            r.config.env == self.config.env,
            r.config.processes == self.config.processes,
            r.config.restart == self.config.restart,
            r.config.checks == self.config.checks,
            r.config.dns == self.config.dns,
            r.config.files == self.config.files,
            r.config.metadata == self.config.metadata,
            r.config.metrics == self.config.metrics,
            r.config.schedule == self.config.schedule,
            r.config.services == self.config.services,
            r.config.standbys == self.config.standbys,
            r.config.statics == self.config.statics,
            r.config.stop_config == self.config.stop_config,
    {
        let mut config = self.config;
        let mut xs = match config.mounts {
            Some(v) => v,
            None => Vec::new(),
        };
        xs.push(mount_config);
        proof {
            assert(xs.deep_view() =~= (match self.config.mounts {
                None => Seq::<MountConfigV>::empty(),
                Some(old_xs) => old_xs.deep_view(),
            }).push(mount_config.deep_view()));
        }
        config.mounts = Some(xs);
        MachineConfigBuilder { config }
    }

    /// Appends a process run inside the machine.
    pub fn add_process(self, process_config: ProcessConfig) -> (r: Self)
        ensures
            r.config.processes matches Some(xs) && xs.deep_view() == (match self.config.processes {
                None => Seq::<ProcessConfigV>::empty(),
                Some(old_xs) => old_xs.deep_view(),
            }).push(process_config.deep_view()),
            r.config.image == self.config.image,
            r.config.guest == self.config.guest,
            r.config.auto_destroy == self.config.auto_destroy,
            r.config.init == self.config.init,
            r.config.env == self.config.env,
            r.config.mounts == self.config.mounts,
            r.config.restart == self.config.restart,
            r.config.checks == self.config.checks,
            r.config.dns == self.config.dns,
            r.config.files == self.config.files,
            r.config.metadata == self.config.metadata,
            r.config.metrics == self.config.metrics,
            r.config.schedule == self.config.schedule,
            r.config.services == self.config.services,
            r.config.standbys == self.config.standbys,
            r.config.statics == self.config.statics,
            r.config.stop_config == self.config.stop_config,
    {
        let mut config = self.config;
        let mut xs = match config.processes {
            Some(v) => v,
            None => Vec::new(),
        };
        xs.push(process_config);
        proof {
            assert(xs.deep_view() =~= (match self.config.processes {
                None => Seq::<ProcessConfigV>::empty(),
                Some(old_xs) => old_xs.deep_view(),
            }).push(process_config.deep_view()));
        }
        config.processes = Some(xs);
        MachineConfigBuilder { config }
    }

    /// Appends an exposed network service.
    pub fn add_service(self, service_config: ServiceConfig) -> (r: Self)
        ensures
            r.config.services matches Some(xs) && xs.deep_view() == (match self.config.services {
                None => Seq::<ServiceConfigV>::empty(),
                Some(old_xs) => old_xs.deep_view(),
            }).push(service_config.deep_view()),
            r.config.image == self.config.image,
            r.config.guest == self.config.guest,
            r.config.auto_destroy == self.config.auto_destroy,
            r.config.init == self.config.init,
            r.config.env == self.config.env,
            r.config.processes == self.config.processes,
            r.config.mounts == self.config.mounts,
            r.config.restart == self.config.restart,
            r.config.checks == self.config.checks,
            r.config.dns == self.config.dns,
            r.config.files == self.config.files,
            r.config.metadata == self.config.metadata,
            r.config.metrics == self.config.metrics,
            r.config.schedule == self.config.schedule,
            r.config.standbys == self.config.standbys,
            r.config.statics == self.config.statics,
            r.config.stop_config == self.config.stop_config,
    {
        let mut config = self.config;
        let mut xs = match config.services {
            Some(v) => v,
            None => Vec::new(),
        };
        xs.push(service_config);
        proof {
            assert(xs.deep_view() =~= (match self.config.services {
                None => Seq::<ServiceConfigV>::empty(),
                Some(old_xs) => old_xs.deep_view(),
            }).push(service_config.deep_view()));
        }
        config.services = Some(xs);
        MachineConfigBuilder { config }
    }

    /// Appends a static asset mapping.
    pub fn add_static(self, static_config: StaticConfig) -> (r: Self)
        ensures
            r.config.statics matches Some(xs) && xs.deep_view() == (match self.config.statics {
                None => Seq::<StaticConfigV>::empty(),
                Some(old_xs) => old_xs.deep_view(),
            }).push(static_config.deep_view()),
            r.config.image == self.config.image,
            r.config.guest == self.config.guest,
            r.config.auto_destroy == self.config.auto_destroy,
            r.config.init == self.config.init,
            r.config.env == self.config.env,
            r.config.processes == self.config.processes,
            r.config.mounts == self.config.mounts,
            r.config.restart == self.config.restart,
            r.config.checks == self.config.checks,
            r.config.dns == self.config.dns,
            r.config.files == self.config.files,
            r.config.metadata == self.config.metadata,
            r.config.metrics == self.config.metrics,
            r.config.schedule == self.config.schedule,
            r.config.services == self.config.services,
            r.config.standbys == self.config.standbys,
            r.config.stop_config == self.config.stop_config,
    {
        let mut config = self.config;
        let mut xs = match config.statics {
            Some(v) => v,
            None => Vec::new(),
        };
        xs.push(static_config);
        proof {
            assert(xs.deep_view() =~= (match self.config.statics {
                None => Seq::<StaticConfigV>::empty(),
                Some(old_xs) => old_xs.deep_view(),
            }).push(static_config.deep_view()));
        }
        config.statics = Some(xs);
        MachineConfigBuilder { config }
    }

    /// Appends the name of a machine this one stands by for.
    pub fn add_standby(self, standby: &str) -> (r: Self)
        ensures
            r.config.standbys matches Some(xs) && xs.deep_view() == (match self.config.standbys {
                None => Seq::<Seq<char>>::empty(),
                Some(old_xs) => old_xs.deep_view(),
            }).push(standby@),
            r.config.image == self.config.image,
            r.config.guest == self.config.guest,
            r.config.auto_destroy == self.config.auto_destroy,
            r.config.init == self.config.init,
            r.config.env == self.config.env,
            r.config.processes == self.config.processes,
            r.config.mounts == self.config.mounts,
            r.config.restart == self.config.restart,
            r.config.checks == self.config.checks,
            r.config.dns == self.config.dns,
            r.config.files == self.config.files,
            r.config.metadata == self.config.metadata,
            r.config.metrics == self.config.metrics,
            r.config.schedule == self.config.schedule,
            r.config.services == self.config.services,
            r.config.statics == self.config.statics,
            r.config.stop_config == self.config.stop_config,
    {
        let mut config = self.config;
        let mut xs = match config.standbys {
            Some(v) => v,
            None => Vec::new(),
        };
        xs.push(standby.to_owned());
        proof {
            assert(xs.deep_view() =~= (match self.config.standbys {
                None => Seq::<Seq<char>>::empty(),
                Some(old_xs) => old_xs.deep_view(),
            }).push(standby@));
        }
        config.standbys = Some(xs);
        MachineConfigBuilder { config }
    }

    /// Sets an environment variable, replacing an earlier binding of the key.
    pub fn add_env(self, key: &str, value: &str) -> (r: Self)
        ensures
            r.config.env matches Some(e2) && e2.deep_view() == assoc_update(
                match self.config.env {
                    None => Seq::<(Seq<char>, Seq<char>)>::empty(),
                    Some(e) => e.deep_view(),
                },
                key@,
                value@,
            ),
            r.config.image == self.config.image,
            r.config.guest == self.config.guest,
            r.config.auto_destroy == self.config.auto_destroy,
            r.config.init == self.config.init,
            r.config.processes == self.config.processes,
            r.config.mounts == self.config.mounts,
            r.config.restart == self.config.restart,
            r.config.checks == self.config.checks,
            r.config.dns == self.config.dns,
            r.config.files == self.config.files,
            r.config.metadata == self.config.metadata,
            r.config.metrics == self.config.metrics,
            r.config.schedule == self.config.schedule,
            r.config.services == self.config.services,
            r.config.standbys == self.config.standbys,
            r.config.statics == self.config.statics,
            r.config.stop_config == self.config.stop_config,
    {
        let k = key.to_owned();
        let v = value.to_owned();
        let mut config = self.config;
        let mut env = match config.env {
            Some(e) => e,
            None => Vec::new(),
        };
        let ghost orig = env.deep_view();
        let n = env.len();
        let mut idx: usize = n;
        for i in 0..n
            invariant
                n == env.len(),
                orig.len() == n,
                env.deep_view() == orig,
                k@ == key@,
                idx == n || idx < i,
                idx == n ==> forall|p: int| 0 <= p < i ==> (#[trigger] orig[p]).0 != key@,
                idx < n ==> orig[idx as int].0 == key@ && (forall|p: int|
                    0 <= p < idx ==> (#[trigger] orig[p]).0 != key@),
        {
            if idx == n && env[i].0 == k {
                idx = i;
            }
        }
        if idx < n {
            env[idx] = (k, v);
            proof {
                lemma_assoc_update_found(orig, key@, value@, idx as int);
                assert(env.deep_view() =~= orig.update(idx as int, (key@, value@)));
            }
        } else {
            env.push((k, v));
            proof {
                lemma_assoc_update_missing(orig, key@, value@);
                assert(env.deep_view() =~= orig.push((key@, value@)));
            }
        }
        config.env = Some(env);
        MachineConfigBuilder { config }
    }

    /// The assembled configuration.
    pub fn build(self) -> (r: MachineConfig)
        ensures
            r.image == self.config.image,
            r.guest == self.config.guest,
            r.auto_destroy == self.config.auto_destroy,
            r.init == self.config.init,
            r.env == self.config.env,
            r.processes == self.config.processes,
            r.mounts == self.config.mounts,
            r.restart == self.config.restart,
            r.checks == self.config.checks,
            r.dns == self.config.dns,
            r.files == self.config.files,
            r.metadata == self.config.metadata,
            r.metrics == self.config.metrics,
            r.schedule == self.config.schedule,
            r.services == self.config.services,
            r.standbys == self.config.standbys,
            r.statics == self.config.statics,
            r.stop_config == self.config.stop_config,
    {
        self.config
    }
}

} // verus!
