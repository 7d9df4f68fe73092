//! Request and response shapes of the machine endpoints.

use super::machine::{machine_config_jv, machine_config_of_jv, MachineConfig, MachineConfigV};
use super::regions::{region_jv, MachineRegions};
use crate::json::{
    json_member, json_seq_view, jv_opt_json, jv_opt_str, jv_opt_uint, opt_member, Json, JsonV,
};
use vstd::prelude::*;

verus! {

broadcast use crate::json::lemma_lookup_push, crate::json::lemma_lookup_append, crate::json::lemma_pairs_view_append, vstd::string::group_string_axioms, vstd::seq::group_seq_axioms, vstd::std_specs::vec::group_vec_axioms;


/// Reachability of the host a machine runs on.
#[derive(Clone, Copy, PartialEq, Eq, Structural, Debug)]
pub enum HostStatusEnum {
    Okay,
    Unknown,
    Unreachable,
}

impl DeepView for HostStatusEnum {
    type V = HostStatusEnum;

    open spec fn deep_view(&self) -> HostStatusEnum {
        *self
    }
}

pub open spec fn host_status_name(k: HostStatusEnum) -> Seq<char> {
    match k {
        HostStatusEnum::Okay => "ok"@,
        HostStatusEnum::Unknown => "unknown"@,
        HostStatusEnum::Unreachable => "unreachable"@,
    }
}

pub open spec fn host_status_jv(k: HostStatusEnum) -> JsonV {
    JsonV::Str(host_status_name(k))
}

pub open spec fn host_status_of_jv(j: JsonV) -> Option<HostStatusEnum> {
    match j {
        JsonV::Str(s) => if s == "ok"@ {
            Some(HostStatusEnum::Okay)
        } else if s == "unknown"@ {
            Some(HostStatusEnum::Unknown)
        } else if s == "unreachable"@ {
            Some(HostStatusEnum::Unreachable)
        } else {
            None
        },
        _ => None,
    }
}

impl HostStatusEnum {
    /// The wire name of this value.
    pub fn code(&self) -> (s: String)
        ensures
            s@ == host_status_name(*self),
    {
        match self {
            HostStatusEnum::Okay => "ok".to_owned(),
            HostStatusEnum::Unknown => "unknown".to_owned(),
            HostStatusEnum::Unreachable => "unreachable".to_owned(),
        }
    }

    pub fn to_json(&self) -> (j: Json)
        ensures
            j.deep_view() == host_status_jv(*self),
    {
        Json::Str(self.code())
    }

    pub fn from_json(j: &Json) -> (r: Option<Self>)
        ensures
            r == host_status_of_jv(j.deep_view()),
    {
        match j {
            Json::Str(s) => {
                if *s == "ok".to_owned() {
                    Some(HostStatusEnum::Okay)
                } else if *s == "unknown".to_owned() {
                    Some(HostStatusEnum::Unknown)
                } else if *s == "unreachable".to_owned() {
                    Some(HostStatusEnum::Unreachable)
                } else {
                    None
                }
            },
            _ => None,
        }
    }
}

pub open spec fn jv_opt_host_status(j: JsonV, key: Seq<char>) -> Option<Option<HostStatusEnum>> {
    match json_member(j, key) {
        None => Some(None),
        Some(JsonV::Null) => Some(None),
        Some(v) => match host_status_of_jv(v) {
            Some(k) => Some(Some(k)),
            None => None,
        },
    }
}

pub fn opt_host_status_field(j: &Json, key: &str) -> (r: Option<Option<HostStatusEnum>>)
    ensures
        r == jv_opt_host_status(j.deep_view(), key@),
{
    let k = key.to_owned();
    match j.get(&k) {
        None => Some(None),
        Some(Json::Null) => Some(None),
        Some(v) => match HostStatusEnum::from_json(v) {
            Some(x) => Some(Some(x)),
            None => None,
        },
    }
}

pub proof fn lemma_host_status_round_trip(k: HostStatusEnum)
    ensures
        host_status_of_jv(host_status_jv(k)) == Some(k),
{
    reveal_strlit("ok");
    reveal_strlit("unknown");
    reveal_strlit("unreachable");
    assert("ok"@.len() == 2);
    assert("unknown"@.len() == 7);
    assert("unreachable"@.len() == 11);
}

/// The reported outcome of one health check.
#[derive(Clone, Debug)]
pub struct CheckResponse {
    pub name: Option<String>,
    pub output: Option<String>,
    pub status: Option<String>,
    pub updated_at: Option<String>,
}

#[verifier::ext_equal]
pub struct CheckResponseV {
    pub name: Option<Seq<char>>,
    pub output: Option<Seq<char>>,
    pub status: Option<Seq<char>>,
    pub updated_at: Option<Seq<char>>,
}

impl DeepView for CheckResponse {
    type V = CheckResponseV;

    open spec fn deep_view(&self) -> CheckResponseV {
        CheckResponseV {
            name: self.name.deep_view(),
            output: self.output.deep_view(),
            status: self.status.deep_view(),
            updated_at: self.updated_at.deep_view(),
        }
    }
}

pub open spec fn check_response_of_jv(j: JsonV) -> Option<CheckResponseV> {
    if !(j is Obj) {
        None
    } else if jv_opt_str(j, "name"@) is None || jv_opt_str(j, "output"@) is None || jv_opt_str(j, "status"@) is None || jv_opt_str(j, "updated_at"@) is None {
        None
    } else {
        Some(CheckResponseV {
            name: jv_opt_str(j, "name"@)->0,
            output: jv_opt_str(j, "output"@)->0,
            status: jv_opt_str(j, "status"@)->0,
            updated_at: jv_opt_str(j, "updated_at"@)->0,
        })
    }
}

impl CheckResponse {
    pub fn from_json(j: &Json) -> (r: Option<Self>)
        ensures
            r.deep_view() == check_response_of_jv(j.deep_view()),
    {
        match j {
            Json::Obj(_) => {},
            _ => { return None; },
        }
        let name = match j.opt_str("name") {
            Some(v) => v,
            None => { return None; },
        };
        let output = match j.opt_str("output") {
            Some(v) => v,
            None => { return None; },
        };
        let status = match j.opt_str("status") {
            Some(v) => v,
            None => { return None; },
        };
        let updated_at = match j.opt_str("updated_at") {
            Some(v) => v,
            None => { return None; },
        };
        Some(CheckResponse { name, output, status, updated_at })
    }
}

pub open spec fn check_response_seq_of(items: Seq<JsonV>) -> Option<Seq<CheckResponseV>> {
    if forall|k: int| 0 <= k < items.len() ==> check_response_of_jv(#[trigger] items[k]) is Some {
        Some(Seq::new(items.len(), |k: int| check_response_of_jv(items[k])->0))
    } else {
        None
    }
}

pub open spec fn jv_opt_check_response_arr(j: JsonV, key: Seq<char>) -> Option<
    Option<Seq<CheckResponseV>>,
> {
    match json_member(j, key) {
        None => Some(None),
        Some(JsonV::Null) => Some(None),
        Some(JsonV::Arr(items)) => match check_response_seq_of(items) {
            None => None,
            Some(xs) => Some(Some(xs)),
        },
        Some(_) => None,
    }
}

/// Reads an optional member holding an array of these records.
pub fn opt_check_response_arr_field(j: &Json, key: &str) -> (r: Option<Option<Vec<CheckResponse>>>)
    ensures
        r.deep_view() == jv_opt_check_response_arr(j.deep_view(), key@),
{
    let k = key.to_owned();
    match j.get(&k) {
        None => Some(None),
        Some(Json::Null) => Some(None),
        Some(v) => match v {
            Json::Arr(items) => {
                let ghost iv = json_seq_view(items@);
                let mut out: Vec<CheckResponse> = Vec::new();
                let n = items.len();
                for i in 0..n
                    invariant
                        n == items.len(),
                        iv == json_seq_view(items@),
                        json_member(j.deep_view(), key@) == Some(JsonV::Arr(iv)),
                        iv.len() == n,
                        out@.len() == i,
                        forall|p: int| 0 <= p < i
                            ==> check_response_of_jv(#[trigger] iv[p]) is Some,
                        forall|p: int| 0 <= p < i
                            ==> (#[trigger] out@[p]).deep_view() == check_response_of_jv(iv[p])->0,
                {
                    match CheckResponse::from_json(&items[i]) {
                        Some(x) => { out.push(x); },
                        None => {
                            proof {
                                assert(check_response_of_jv(iv[i as int]) is None);
                            }
                            return None;
                        },
                    }
                }
                proof {
                    assert(out.deep_view() =~= check_response_seq_of(iv)->0);
                }
                Some(Some(out))
            },
            _ => None,
        },
    }
}

/// The image a machine was created from.
#[derive(Clone, Debug)]
pub struct ImageRef {
    pub digest: Option<String>,
    pub labels: Option<Json>,
    pub registry: Option<String>,
    pub repository: Option<String>,
    pub tag: Option<String>,
}

#[verifier::ext_equal]
pub struct ImageRefV {
    pub digest: Option<Seq<char>>,
    pub labels: Option<JsonV>,
    pub registry: Option<Seq<char>>,
    pub repository: Option<Seq<char>>,
    pub tag: Option<Seq<char>>,
}

impl DeepView for ImageRef {
    type V = ImageRefV;

    open spec fn deep_view(&self) -> ImageRefV {
        ImageRefV {
            digest: self.digest.deep_view(),
            labels: self.labels.deep_view(),
            registry: self.registry.deep_view(),
            repository: self.repository.deep_view(),
            tag: self.tag.deep_view(),
        }
    }
}

pub open spec fn image_ref_of_jv(j: JsonV) -> Option<ImageRefV> {
    if !(j is Obj) {
        None
    } else if jv_opt_str(j, "digest"@) is None || jv_opt_json(j, "labels"@) is None || jv_opt_str(j, "registry"@) is None || jv_opt_str(j, "repository"@) is None || jv_opt_str(j, "tag"@) is None {
        None
    } else {
        Some(ImageRefV {
            digest: jv_opt_str(j, "digest"@)->0,
            labels: jv_opt_json(j, "labels"@)->0,
            registry: jv_opt_str(j, "registry"@)->0,
            repository: jv_opt_str(j, "repository"@)->0,
            tag: jv_opt_str(j, "tag"@)->0,
        })
    }
}

impl ImageRef {
    pub fn from_json(j: &Json) -> (r: Option<Self>)
        ensures
            r.deep_view() == image_ref_of_jv(j.deep_view()),
    {
        match j {
            Json::Obj(_) => {},
            _ => { return None; },
        }
        let digest = match j.opt_str("digest") {
            Some(v) => v,
            None => { return None; },
        };
        let labels = match j.opt_json("labels") {
            Some(v) => v,
            None => { return None; },
        };
        let registry = match j.opt_str("registry") {
            Some(v) => v,
            None => { return None; },
        };
        let repository = match j.opt_str("repository") {
            Some(v) => v,
            None => { return None; },
        };
        let tag = match j.opt_str("tag") {
            Some(v) => v,
            None => { return None; },
        };
        Some(ImageRef { digest, labels, registry, repository, tag })
    }
}

pub open spec fn jv_opt_image_ref(j: JsonV, key: Seq<char>) -> Option<Option<ImageRefV>> {
    match json_member(j, key) {
        None => Some(None),
        Some(JsonV::Null) => Some(None),
        Some(v) => match image_ref_of_jv(v) {
            Some(x) => Some(Some(x)),
            None => None,
        },
    }
}

pub fn opt_image_ref_field(j: &Json, key: &str) -> (r: Option<Option<ImageRef>>)
    ensures
        r.deep_view() == jv_opt_image_ref(j.deep_view(), key@),
{
    let k = key.to_owned();
    match j.get(&k) {
        None => Some(None),
        Some(Json::Null) => Some(None),
        Some(v) => match ImageRef::from_json(v) {
            Some(x) => Some(Some(x)),
            None => None,
        },
    }
}

/// One entry of a machine's event history.
#[derive(Clone, Debug)]
pub struct EventResponse {
    pub id: Option<String>,
    pub request: Option<Json>,
    pub source: Option<String>,
    pub status: Option<String>,
    pub timestamp: Option<u64>,
    pub event_type: Option<String>,
}

#[verifier::ext_equal]
pub struct EventResponseV {
    pub id: Option<Seq<char>>,
    pub request: Option<JsonV>,
    pub source: Option<Seq<char>>,
    pub status: Option<Seq<char>>,
    pub timestamp: Option<u64>,
    pub event_type: Option<Seq<char>>,
}

impl DeepView for EventResponse {
    type V = EventResponseV;

    open spec fn deep_view(&self) -> EventResponseV {
        EventResponseV {
            id: self.id.deep_view(),
            request: self.request.deep_view(),
            source: self.source.deep_view(),
            status: self.status.deep_view(),
            timestamp: self.timestamp,
            event_type: self.event_type.deep_view(),
        }
    }
}

pub open spec fn event_response_of_jv(j: JsonV) -> Option<EventResponseV> {
    if !(j is Obj) {
        None
    } else if jv_opt_str(j, "id"@) is None || jv_opt_json(j, "request"@) is None || jv_opt_str(j, "source"@) is None || jv_opt_str(j, "status"@) is None || jv_opt_uint(j, "timestamp"@) is None || jv_opt_str(j, "event_type"@) is None {
        None
    } else {
        Some(EventResponseV {
            id: jv_opt_str(j, "id"@)->0,
            request: jv_opt_json(j, "request"@)->0,
            source: jv_opt_str(j, "source"@)->0,
            status: jv_opt_str(j, "status"@)->0,
            timestamp: jv_opt_uint(j, "timestamp"@)->0,
            event_type: jv_opt_str(j, "event_type"@)->0,
        })
    }
}

impl EventResponse {
    pub fn from_json(j: &Json) -> (r: Option<Self>)
        ensures
            r.deep_view() == event_response_of_jv(j.deep_view()),
    {
        match j {
            Json::Obj(_) => {},
            _ => { return None; },
        }
        let id = match j.opt_str("id") {
            Some(v) => v,
            None => { return None; },
        };
        let request = match j.opt_json("request") {
            Some(v) => v,
            None => { return None; },
        };
        let source = match j.opt_str("source") {
            Some(v) => v,
            None => { return None; },
        };
        let status = match j.opt_str("status") {
            Some(v) => v,
            None => { return None; },
        };
        let timestamp = match j.opt_uint("timestamp") {
            Some(v) => v,
            None => { return None; },
        };
        let event_type = match j.opt_str("event_type") {
            Some(v) => v,
            None => { return None; },
        };
        Some(EventResponse { id, request, source, status, timestamp, event_type })
    }
}

pub open spec fn event_response_seq_of(items: Seq<JsonV>) -> Option<Seq<EventResponseV>> {
    if forall|k: int| 0 <= k < items.len() ==> event_response_of_jv(#[trigger] items[k]) is Some {
        Some(Seq::new(items.len(), |k: int| event_response_of_jv(items[k])->0))
    } else {
        None
    }
}

pub open spec fn jv_opt_event_response_arr(j: JsonV, key: Seq<char>) -> Option<
    Option<Seq<EventResponseV>>,
> {
    match json_member(j, key) {
        None => Some(None),
        Some(JsonV::Null) => Some(None),
        Some(JsonV::Arr(items)) => match event_response_seq_of(items) {
            None => None,
            Some(xs) => Some(Some(xs)),
        },
        Some(_) => None,
    }
}

/// Reads an optional member holding an array of these records.
pub fn opt_event_response_arr_field(j: &Json, key: &str) -> (r: Option<Option<Vec<EventResponse>>>)
    ensures
        r.deep_view() == jv_opt_event_response_arr(j.deep_view(), key@),
{
    let k = key.to_owned();
    match j.get(&k) {
        None => Some(None),
        Some(Json::Null) => Some(None),
        Some(v) => match v {
            Json::Arr(items) => {
                let ghost iv = json_seq_view(items@);
                let mut out: Vec<EventResponse> = Vec::new();
                let n = items.len();
                for i in 0..n
                    invariant
                        n == items.len(),
                        iv == json_seq_view(items@),
                        json_member(j.deep_view(), key@) == Some(JsonV::Arr(iv)),
                        iv.len() == n,
                        out@.len() == i,
                        forall|p: int| 0 <= p < i
                            ==> event_response_of_jv(#[trigger] iv[p]) is Some,
                        forall|p: int| 0 <= p < i
                            ==> (#[trigger] out@[p]).deep_view() == event_response_of_jv(iv[p])->0,
                {
                    match EventResponse::from_json(&items[i]) {
                        Some(x) => { out.push(x); },
                        None => {
                            proof {
                                assert(event_response_of_jv(iv[i as int]) is None);
                            }
                            return None;
                        },
                    }
                }
                proof {
                    assert(out.deep_view() =~= event_response_seq_of(iv)->0);
                }
                Some(Some(out))
            },
            _ => None,
        },
    }
}

pub open spec fn jv_opt_machine_config(j: JsonV, key: Seq<char>) -> Option<Option<MachineConfigV>> {
    match json_member(j, key) {
        None => Some(None),
        Some(JsonV::Null) => Some(None),
        Some(v) => match machine_config_of_jv(v) {
            Some(x) => Some(Some(x)),
            None => None,
        },
    }
}

pub fn opt_machine_config_field(j: &Json, key: &str) -> (r: Option<Option<MachineConfig>>)
    ensures
        r.deep_view() == jv_opt_machine_config(j.deep_view(), key@),
{
    let k = key.to_owned();
    match j.get(&k) {
        None => Some(None),
        Some(Json::Null) => Some(None),
        Some(v) => match MachineConfig::from_json(v) {
            Some(x) => Some(Some(x)),
            None => None,
        },
    }
}
/// The remote system's description of a machine.
#[derive(Clone, Debug)]
pub struct MachineResponse {
    pub id: Option<String>,
    pub checks: Option<Vec<CheckResponse>>,
    pub config: Option<MachineConfig>,
    pub created_at: Option<String>,
    pub events: Option<Vec<EventResponse>>,
    pub host_status: Option<HostStatusEnum>,
    pub image_ref: Option<ImageRef>,
    pub incomplete_config: Option<Json>,
    pub instance_id: Option<String>,
    pub name: Option<String>,
    pub nonce: Option<String>,
    pub private_ip: Option<String>,
    pub region: Option<String>,
    pub state: Option<String>,
    pub updated_at: Option<String>,
}

#[verifier::ext_equal]
pub struct MachineResponseV {
    pub id: Option<Seq<char>>,
    pub checks: Option<Seq<CheckResponseV>>,
    pub config: Option<MachineConfigV>,
    pub created_at: Option<Seq<char>>,
    pub events: Option<Seq<EventResponseV>>,
    pub host_status: Option<HostStatusEnum>,
    pub image_ref: Option<ImageRefV>,
    pub incomplete_config: Option<JsonV>,
    pub instance_id: Option<Seq<char>>,
    pub name: Option<Seq<char>>,
    pub nonce: Option<Seq<char>>,
    pub private_ip: Option<Seq<char>>,
    pub region: Option<Seq<char>>,
    pub state: Option<Seq<char>>,
    pub updated_at: Option<Seq<char>>,
}

impl DeepView for MachineResponse {
    type V = MachineResponseV;

    open spec fn deep_view(&self) -> MachineResponseV {
        MachineResponseV {
            id: self.id.deep_view(),
            checks: self.checks.deep_view(),
            config: self.config.deep_view(),
            created_at: self.created_at.deep_view(),
            events: self.events.deep_view(),
            host_status: self.host_status,
            image_ref: self.image_ref.deep_view(),
            incomplete_config: self.incomplete_config.deep_view(),
            instance_id: self.instance_id.deep_view(),
            name: self.name.deep_view(),
            nonce: self.nonce.deep_view(),
            private_ip: self.private_ip.deep_view(),
            region: self.region.deep_view(),
            state: self.state.deep_view(),
            updated_at: self.updated_at.deep_view(),
        }
    }
}

pub open spec fn machine_response_of_jv(j: JsonV) -> Option<MachineResponseV> {
    if !(j is Obj) {
        None
    } else if jv_opt_str(j, "id"@) is None || jv_opt_check_response_arr(j, "checks"@) is None || jv_opt_machine_config(j, "config"@) is None || jv_opt_str(j, "created_at"@) is None || jv_opt_event_response_arr(j, "events"@) is None || jv_opt_host_status(j, "host_status"@) is None || jv_opt_image_ref(j, "image_ref"@) is None || jv_opt_json(j, "incomplete_config"@) is None || jv_opt_str(j, "instance_id"@) is None || jv_opt_str(j, "name"@) is None || jv_opt_str(j, "nonce"@) is None || jv_opt_str(j, "private_ip"@) is None || jv_opt_str(j, "region"@) is None || jv_opt_str(j, "state"@) is None || jv_opt_str(j, "updated_at"@) is None {
        None
    } else {
        Some(MachineResponseV {
            id: jv_opt_str(j, "id"@)->0,
            checks: jv_opt_check_response_arr(j, "checks"@)->0,
            config: jv_opt_machine_config(j, "config"@)->0,
            created_at: jv_opt_str(j, "created_at"@)->0,
            events: jv_opt_event_response_arr(j, "events"@)->0,
            host_status: jv_opt_host_status(j, "host_status"@)->0,
            image_ref: jv_opt_image_ref(j, "image_ref"@)->0,
            incomplete_config: jv_opt_json(j, "incomplete_config"@)->0,
            instance_id: jv_opt_str(j, "instance_id"@)->0,
            name: jv_opt_str(j, "name"@)->0,
            nonce: jv_opt_str(j, "nonce"@)->0,
            private_ip: jv_opt_str(j, "private_ip"@)->0,
            region: jv_opt_str(j, "region"@)->0,
            state: jv_opt_str(j, "state"@)->0,
            updated_at: jv_opt_str(j, "updated_at"@)->0,
        })
    }
}

impl MachineResponse {
    #[verifier::rlimit(100)]
    pub fn from_json(j: &Json) -> (r: Option<Self>)
        ensures
            r.deep_view() == machine_response_of_jv(j.deep_view()),
    {
        match j {
            Json::Obj(_) => {},
            _ => { return None; },
        }
        let id = match j.opt_str("id") {
            Some(v) => v,
            None => { return None; },
        };
        let checks = match opt_check_response_arr_field(j, "checks") {
            Some(v) => v,
            None => { return None; },
        };
        let config = match opt_machine_config_field(j, "config") {
            Some(v) => v,
            None => { return None; },
        };
        let created_at = match j.opt_str("created_at") {
            Some(v) => v,
            None => { return None; },
        };
        let events = match opt_event_response_arr_field(j, "events") {
            Some(v) => v,
            None => { return None; },
        };
        let host_status = match opt_host_status_field(j, "host_status") {
            Some(v) => v,
            None => { return None; },
        };
        let image_ref = match opt_image_ref_field(j, "image_ref") {
            Some(v) => v,
            None => { return None; },
        };
        let incomplete_config = match j.opt_json("incomplete_config") {
            Some(v) => v,
            None => { return None; },
        };
        let instance_id = match j.opt_str("instance_id") {
            Some(v) => v,
            None => { return None; },
        };
        let name = match j.opt_str("name") {
            Some(v) => v,
            None => { return None; },
        };
        let nonce = match j.opt_str("nonce") {
            Some(v) => v,
            None => { return None; },
        };
        let private_ip = match j.opt_str("private_ip") {
            Some(v) => v,
            None => { return None; },
        };
        let region = match j.opt_str("region") {
            Some(v) => v,
            None => { return None; },
        };
        let state = match j.opt_str("state") {
            Some(v) => v,
            None => { return None; },
        };
        let updated_at = match j.opt_str("updated_at") {
            Some(v) => v,
            None => { return None; },
        };
        Some(MachineResponse { id, checks, config, created_at, events, host_status, image_ref, incomplete_config, instance_id, name, nonce, private_ip, region, state, updated_at })
    }
}

/// What is sent to create or update a machine.
#[derive(Clone, Debug)]
pub struct MachineRequest {
    pub name: Option<String>,
    pub config: MachineConfig,
    pub region: Option<MachineRegions>,
    pub lease_ttl: Option<u64>,
    pub lsvd: Option<bool>,
    pub skip_launch: Option<bool>,
    pub skip_service_registration: Option<bool>,
}

#[verifier::ext_equal]
pub struct MachineRequestV {
    pub name: Option<Seq<char>>,
    pub config: MachineConfigV,
    pub region: Option<MachineRegions>,
    pub lease_ttl: Option<u64>,
    pub lsvd: Option<bool>,
    pub skip_launch: Option<bool>,
    pub skip_service_registration: Option<bool>,
}

impl DeepView for MachineRequest {
    type V = MachineRequestV;

    open spec fn deep_view(&self) -> MachineRequestV {
        MachineRequestV {
            name: self.name.deep_view(),
            config: self.config.deep_view(),
            region: self.region,
            lease_ttl: self.lease_ttl,
            lsvd: self.lsvd,
            skip_launch: self.skip_launch,
            skip_service_registration: self.skip_service_registration,
        }
    }
}

pub open spec fn machine_request_jv(c: MachineRequestV) -> JsonV {
    let m = Seq::<(Seq<char>, JsonV)>::empty();
    let m = opt_member(m, "name"@, match c.name {
        None => None,
        Some(x) => Some(JsonV::Str(x)),
    });
    let m = m.push(("config"@, machine_config_jv(c.config)));
    let m = opt_member(m, "region"@, match c.region {
        None => None,
        Some(x) => Some(region_jv(x)),
    });
    let m = opt_member(m, "lease_ttl"@, match c.lease_ttl {
        None => None,
        Some(x) => Some(JsonV::UInt(x)),
    });
    let m = opt_member(m, "lsvd"@, match c.lsvd {
        None => None,
        Some(x) => Some(JsonV::Bool(x)),
    });
    let m = opt_member(m, "skip_launch"@, match c.skip_launch {
        None => None,
        Some(x) => Some(JsonV::Bool(x)),
    });
    let m = opt_member(m, "skip_service_registration"@, match c.skip_service_registration {
        None => None,
        Some(x) => Some(JsonV::Bool(x)),
    });
    JsonV::Obj(m)
}

impl MachineRequest {
    #[verifier::rlimit(50)]
    pub fn to_json(&self) -> (j: Json)
        ensures
            j.deep_view() == machine_request_jv(self.deep_view()),
    {
        let mut m: Vec<(String, Json)> = Vec::new();
        if let Some(x) = &self.name {
            m.push(("name".to_owned(), Json::Str(x.clone())));
        }
        m.push(("config".to_owned(), self.config.to_json()));
        if let Some(x) = &self.region {
            m.push(("region".to_owned(), x.to_json()));
        }
        if let Some(x) = &self.lease_ttl {
            m.push(("lease_ttl".to_owned(), Json::UInt(*x)));
        }
        if let Some(x) = &self.lsvd {
            m.push(("lsvd".to_owned(), Json::Bool(*x)));
        }
        if let Some(x) = &self.skip_launch {
            m.push(("skip_launch".to_owned(), Json::Bool(*x)));
        }
        if let Some(x) = &self.skip_service_registration {
            m.push(("skip_service_registration".to_owned(), Json::Bool(*x)));
        }
        let j = Json::Obj(m);
        proof {
            let ghost mv = m@;
            let ghost sv = machine_request_jv(self.deep_view())->Obj_0;
            assert(crate::json::json_pairs_view(mv).len() == sv.len());
            assert(crate::json::json_pairs_view(mv) =~= sv);
        }
        j
    }

}


/// Decodes an array of events.
pub fn event_responses_from_json(j: &Json) -> (r: Option<Vec<EventResponse>>)
    ensures
        r.deep_view() == (match j.deep_view() {
            JsonV::Arr(items) => event_response_seq_of(items),
            _ => None,
        }),
{
    match j {
        Json::Arr(items) => {
            let ghost iv = json_seq_view(items@);
            let mut out: Vec<EventResponse> = Vec::new();
            let n = items.len();
            for i in 0..n
                invariant
                    n == items.len(),
                    iv == json_seq_view(items@),
                    j.deep_view() == JsonV::Arr(iv),
                    iv.len() == n,
                    out@.len() == i,
                    forall|p: int| 0 <= p < i ==> event_response_of_jv(#[trigger] iv[p]) is Some,
                    forall|p: int| 0 <= p < i ==> (#[trigger] out@[p]).deep_view()
                        == event_response_of_jv(iv[p])->0,
            {
                match EventResponse::from_json(&items[i]) {
                    Some(x) => { out.push(x); },
                    None => {
                        proof {
                            assert(event_response_of_jv(iv[i as int]) is None);
                        }
                        return None;
                    },
                }
            }
            proof {
                assert(out.deep_view() =~= event_response_seq_of(iv)->0);
            }
            Some(out)
        },
        _ => None,
    }
}


impl MachineRequest {
    /// A request carrying a configuration, an optional name and an optional
    /// region, with no lease or launch flags set.
    pub fn new(config: MachineConfig, name: Option<String>, region: Option<MachineRegions>) -> (r:
        Self)
        ensures
            r.name == name,
            r.config == config,
            r.region == region,
            r.lease_ttl is None,
            r.lsvd is None,
            r.skip_launch is None,
            r.skip_service_registration is None,
    {
        Self {
            name,
            config,
            region,
            lease_ttl: None,
            lsvd: None,
            skip_launch: None,
            skip_service_registration: None,
        }
    }

    /// The lease, in seconds, held on the created machine.
    pub fn with_lease_ttl(self, lease_ttl: u64) -> (r: Self)
        ensures
            r.lease_ttl == Some(lease_ttl),
            r.name == self.name,
            r.config == self.config,
            r.region == self.region,
            r.lsvd == self.lsvd,
            r.skip_launch == self.skip_launch,
            r.skip_service_registration == self.skip_service_registration,
    {
        Self { lease_ttl: Some(lease_ttl), ..self }
    }

    /// Whether log-structured virtual disks are used.
    pub fn with_lsvd(self, lsvd: bool) -> (r: Self)
        ensures
            r.lsvd == Some(lsvd),
            r.name == self.name,
            r.config == self.config,
            r.region == self.region,
            r.lease_ttl == self.lease_ttl,
            r.skip_launch == self.skip_launch,
            r.skip_service_registration == self.skip_service_registration,
    {
        Self { lsvd: Some(lsvd), ..self }
    }

    /// Whether the machine is created without being launched.
    pub fn with_skip_launch(self, skip_launch: bool) -> (r: Self)
        ensures
            r.skip_launch == Some(skip_launch),
            r.name == self.name,
            r.config == self.config,
            r.region == self.region,
            r.lease_ttl == self.lease_ttl,
            r.lsvd == self.lsvd,
            r.skip_service_registration == self.skip_service_registration,
    {
        Self { skip_launch: Some(skip_launch), ..self }
    }

    /// Whether service registration is skipped.
    pub fn with_skip_service_registration(self, skip_service_registration: bool) -> (r: Self)
        ensures
            r.skip_service_registration == Some(skip_service_registration),
            r.name == self.name,
            r.config == self.config,
            r.region == self.region,
            r.lease_ttl == self.lease_ttl,
            r.lsvd == self.lsvd,
            r.skip_launch == self.skip_launch,
    {
        Self { skip_service_registration: Some(skip_service_registration), ..self }
    }
}

} // verus!
