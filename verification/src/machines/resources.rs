//! Guest resource configuration: CPU, GPU, memory, and the restart policy.

use crate::json::{
    json_member, jv_opt_str_arr, jv_opt_uint, jv_str_seq, opt_member, str_seq_jv, Json, JsonV,
};
use vstd::prelude::*;

verus! {

broadcast use crate::json::lemma_lookup_push, vstd::string::group_string_axioms, vstd::seq::group_seq_axioms, vstd::std_specs::vec::group_vec_axioms;

/// Kinds of CPU a machine can run on.
#[derive(Clone, Copy, PartialEq, Eq, Structural, Debug)]
pub enum CpuKind {
    Shared,
    Performance,
}

impl DeepView for CpuKind {
    type V = CpuKind;

    open spec fn deep_view(&self) -> CpuKind {
        *self
    }
}

pub open spec fn cpu_kind_name(k: CpuKind) -> Seq<char> {
    match k {
        CpuKind::Shared => "shared"@,
        CpuKind::Performance => "performance"@,
    }
}

pub open spec fn cpu_kind_jv(k: CpuKind) -> JsonV {
    JsonV::Str(cpu_kind_name(k))
}

pub open spec fn cpu_kind_of_jv(j: JsonV) -> Option<CpuKind> {
    match j {
        JsonV::Str(s) => if s == "shared"@ {
            Some(CpuKind::Shared)
        } else if s == "performance"@ {
            Some(CpuKind::Performance)
        } else {
            None
        },
        _ => None,
    }
}

impl CpuKind {
    /// The wire name of this kind.
    pub fn code(&self) -> (s: String)
        ensures
            s@ == cpu_kind_name(*self),
    {
        match self {
            CpuKind::Shared => "shared".to_owned(),
            CpuKind::Performance => "performance".to_owned(),
        }
    }

    pub fn to_json(&self) -> (j: Json)
        ensures
            j.deep_view() == cpu_kind_jv(*self),
    {
        Json::Str(self.code())
    }

    pub fn from_json(j: &Json) -> (r: Option<Self>)
        ensures
            r == cpu_kind_of_jv(j.deep_view()),
    {
        match j {
            Json::Str(s) => {
                if *s == "shared".to_owned() {
                    Some(CpuKind::Shared)
                } else if *s == "performance".to_owned() {
                    Some(CpuKind::Performance)
                } else {
                    None
                }
            },
            _ => None,
        }
    }
}

pub open spec fn jv_opt_cpu_kind(j: JsonV, key: Seq<char>) -> Option<Option<CpuKind>> {
    match json_member(j, key) {
        None => Some(None),
        Some(JsonV::Null) => Some(None),
        Some(v) => match cpu_kind_of_jv(v) {
            Some(k) => Some(Some(k)),
            None => None,
        },
    }
}

pub fn opt_cpu_kind_field(j: &Json, key: &str) -> (r: Option<Option<CpuKind>>)
    ensures
        r == jv_opt_cpu_kind(j.deep_view(), key@),
{
    let k = key.to_owned();
    match j.get(&k) {
        None => Some(None),
        Some(Json::Null) => Some(None),
        Some(v) => match CpuKind::from_json(v) {
            Some(x) => Some(Some(x)),
            None => None,
        },
    }
}

pub proof fn lemma_cpu_kind_round_trip(k: CpuKind)
    ensures
        cpu_kind_of_jv(cpu_kind_jv(k)) == Some(k),
{
    reveal_strlit("shared");
    reveal_strlit("performance");
    assert("shared"@.len() == 6);
    assert("performance"@.len() == 11);
}

/// Kinds of GPU that can be attached to a machine.
#[derive(Clone, Copy, PartialEq, Eq, Structural, Debug)]
pub enum GpuKind {
    A10,
    L40S,
    /// A100 40G PCIe
    A10040GPCIe,
    /// A100 80G SXM
    A10080GSXM,
}

impl DeepView for GpuKind {
    type V = GpuKind;

    open spec fn deep_view(&self) -> GpuKind {
        *self
    }
}

pub open spec fn gpu_kind_name(k: GpuKind) -> Seq<char> {
    match k {
        GpuKind::A10 => "a10"@,
        GpuKind::L40S => "l40s"@,
        GpuKind::A10040GPCIe => "a10040gpcie"@,
        GpuKind::A10080GSXM => "a10080gsxm"@,
    }
}

pub open spec fn gpu_kind_jv(k: GpuKind) -> JsonV {
    JsonV::Str(gpu_kind_name(k))
}

pub open spec fn gpu_kind_of_jv(j: JsonV) -> Option<GpuKind> {
    match j {
        JsonV::Str(s) => if s == "a10"@ {
            Some(GpuKind::A10)
        } else if s == "l40s"@ {
            Some(GpuKind::L40S)
        } else if s == "a10040gpcie"@ {
            Some(GpuKind::A10040GPCIe)
        } else if s == "a10080gsxm"@ {
            Some(GpuKind::A10080GSXM)
        } else {
            None
        },
        _ => None,
    }
}

impl GpuKind {
    /// The wire name of this kind.
    pub fn code(&self) -> (s: String)
        ensures
            s@ == gpu_kind_name(*self),
    {
        match self {
            GpuKind::A10 => "a10".to_owned(),
            GpuKind::L40S => "l40s".to_owned(),
            GpuKind::A10040GPCIe => "a10040gpcie".to_owned(),
            GpuKind::A10080GSXM => "a10080gsxm".to_owned(),
        }
    }

    pub fn to_json(&self) -> (j: Json)
        ensures
            j.deep_view() == gpu_kind_jv(*self),
    {
        Json::Str(self.code())
    }

    pub fn from_json(j: &Json) -> (r: Option<Self>)
        ensures
            r == gpu_kind_of_jv(j.deep_view()),
    {
        match j {
            Json::Str(s) => {
                if *s == "a10".to_owned() {
                    Some(GpuKind::A10)
                } else if *s == "l40s".to_owned() {
                    Some(GpuKind::L40S)
                } else if *s == "a10040gpcie".to_owned() {
                    Some(GpuKind::A10040GPCIe)
                } else if *s == "a10080gsxm".to_owned() {
                    Some(GpuKind::A10080GSXM)
                } else {
                    None
                }
            },
            _ => None,
        }
    }
}

pub open spec fn jv_opt_gpu_kind(j: JsonV, key: Seq<char>) -> Option<Option<GpuKind>> {
    match json_member(j, key) {
        None => Some(None),
        Some(JsonV::Null) => Some(None),
        Some(v) => match gpu_kind_of_jv(v) {
            Some(k) => Some(Some(k)),
            None => None,
        },
    }
}

pub fn opt_gpu_kind_field(j: &Json, key: &str) -> (r: Option<Option<GpuKind>>)
    ensures
        r == jv_opt_gpu_kind(j.deep_view(), key@),
{
    let k = key.to_owned();
    match j.get(&k) {
        None => Some(None),
        Some(Json::Null) => Some(None),
        Some(v) => match GpuKind::from_json(v) {
            Some(x) => Some(Some(x)),
            None => None,
        },
    }
}

pub proof fn lemma_gpu_kind_round_trip(k: GpuKind)
    ensures
        gpu_kind_of_jv(gpu_kind_jv(k)) == Some(k),
{
    reveal_strlit("a10");
    reveal_strlit("l40s");
    reveal_strlit("a10040gpcie");
    reveal_strlit("a10080gsxm");
    assert("a10"@.len() == 3);
    assert("l40s"@.len() == 4);
    assert("a10040gpcie"@.len() == 11);
    assert("a10080gsxm"@.len() == 10);
}

/// Guest resources of a machine.
#[derive(Clone, Debug)]
pub struct GuestConfig {
    pub cpu_kind: Option<CpuKind>,
    pub cpus: Option<u64>,
    pub gpu_kind: Option<GpuKind>,
    pub gpus: Option<u64>,
    pub memory_mb: Option<u64>,
    pub kernel_args: Option<Vec<String>>,
}

#[verifier::ext_equal]
pub struct GuestConfigV {
    pub cpu_kind: Option<CpuKind>,
    pub cpus: Option<u64>,
    pub gpu_kind: Option<GpuKind>,
    pub gpus: Option<u64>,
    pub memory_mb: Option<u64>,
    pub kernel_args: Option<Seq<Seq<char>>>,
}

impl DeepView for GuestConfig {
    type V = GuestConfigV;

    open spec fn deep_view(&self) -> GuestConfigV {
        GuestConfigV {
            cpu_kind: self.cpu_kind,
            cpus: self.cpus,
            gpu_kind: self.gpu_kind,
            gpus: self.gpus,
            memory_mb: self.memory_mb,
            kernel_args: self.kernel_args.deep_view(),
        }
    }
}

pub open spec fn guest_config_jv(g: GuestConfigV) -> JsonV {
    let m = Seq::<(Seq<char>, JsonV)>::empty();
    let m = opt_member(m, "cpu_kind"@, match g.cpu_kind {
        None => None,
        Some(k) => Some(cpu_kind_jv(k)),
    });
    let m = opt_member(m, "cpus"@, match g.cpus {
        None => None,
        Some(n) => Some(JsonV::UInt(n)),
    });
    let m = opt_member(m, "gpu_kind"@, match g.gpu_kind {
        None => None,
        Some(k) => Some(gpu_kind_jv(k)),
    });
    let m = opt_member(m, "gpus"@, match g.gpus {
        None => None,
        Some(n) => Some(JsonV::UInt(n)),
    });
    let m = opt_member(m, "memory_mb"@, match g.memory_mb {
        None => None,
        Some(n) => Some(JsonV::UInt(n)),
    });
    let m = opt_member(m, "kernel_args"@, match g.kernel_args {
        None => None,
        Some(a) => Some(JsonV::Arr(str_seq_jv(a))),
    });
    JsonV::Obj(m)
}

pub open spec fn guest_config_of_jv(j: JsonV) -> Option<GuestConfigV> {
    if !(j is Obj) {
        None
    } else if jv_opt_cpu_kind(j, "cpu_kind"@) is None || jv_opt_uint(j, "cpus"@) is None
        || jv_opt_gpu_kind(j, "gpu_kind"@) is None || jv_opt_uint(j, "gpus"@) is None
        || jv_opt_uint(j, "memory_mb"@) is None || jv_opt_str_arr(j, "kernel_args"@) is None {
        None
    } else {
        Some(GuestConfigV {
            cpu_kind: jv_opt_cpu_kind(j, "cpu_kind"@)->0,
            cpus: jv_opt_uint(j, "cpus"@)->0,
            gpu_kind: jv_opt_gpu_kind(j, "gpu_kind"@)->0,
            gpus: jv_opt_uint(j, "gpus"@)->0,
            memory_mb: jv_opt_uint(j, "memory_mb"@)->0,
            kernel_args: jv_opt_str_arr(j, "kernel_args"@)->0,
        })
    }
}

impl GuestConfig {
    pub fn to_json(&self) -> (j: Json)
        ensures
            j.deep_view() == guest_config_jv(self.deep_view()),
    {
        let mut m: Vec<(String, Json)> = Vec::new();
        if let Some(k) = &self.cpu_kind {
            m.push(("cpu_kind".to_owned(), k.to_json()));
        }
        if let Some(n) = &self.cpus {
            m.push(("cpus".to_owned(), Json::UInt(*n)));
        }
        if let Some(k) = &self.gpu_kind {
            m.push(("gpu_kind".to_owned(), k.to_json()));
        }
        if let Some(n) = &self.gpus {
            m.push(("gpus".to_owned(), Json::UInt(*n)));
        }
        if let Some(n) = &self.memory_mb {
            m.push(("memory_mb".to_owned(), Json::UInt(*n)));
        }
        if let Some(a) = &self.kernel_args {
            m.push(("kernel_args".to_owned(), Json::from_strings(a)));
        }
        let j = Json::Obj(m);
        proof {
            let ghost mv = m@;
            let ghost sv = guest_config_jv(self.deep_view())->Obj_0;
            assert(crate::json::json_pairs_view(mv).len() == sv.len());
            assert(crate::json::json_pairs_view(mv) =~= sv);
        }
        j
    }

    pub fn from_json(j: &Json) -> (r: Option<Self>)
        ensures
            r.deep_view() == guest_config_of_jv(j.deep_view()),
    {
        match j {
            Json::Obj(_) => {},
            _ => { return None; },
        }
        let cpu_kind = match opt_cpu_kind_field(j, "cpu_kind") {
            Some(v) => v,
            None => { return None; },
        };
        let cpus = match j.opt_uint("cpus") {
            Some(v) => v,
            None => { return None; },
        };
        let gpu_kind = match opt_gpu_kind_field(j, "gpu_kind") {
            Some(v) => v,
            None => { return None; },
        };
        let gpus = match j.opt_uint("gpus") {
            Some(v) => v,
            None => { return None; },
        };
        let memory_mb = match j.opt_uint("memory_mb") {
            Some(v) => v,
            None => { return None; },
        };
        let kernel_args = match j.opt_str_arr("kernel_args") {
            Some(v) => v,
            None => { return None; },
        };
        Some(GuestConfig { cpu_kind, cpus, gpu_kind, gpus, memory_mb, kernel_args })
    }
}

impl Default for GuestConfig {
    /// One shared CPU with 256 MB of memory.
    fn default() -> (r: Self)
        ensures
            r.cpu_kind == Some(CpuKind::Shared),
            r.cpus == Some(1u64),
            r.gpu_kind is None,
            r.gpus is None,
            r.memory_mb == Some(256u64),
            r.kernel_args is None,
    {
        Self {
            cpu_kind: Some(CpuKind::Shared),
            cpus: Some(1),
            gpu_kind: None,
            gpus: None,
            memory_mb: Some(256),
            kernel_args: None,
        }
    }
}

/// Encoding a guest configuration and decoding it yields the original value;
/// unset optional fields stay absent rather than becoming null members.
pub proof fn lemma_guest_config_round_trip(g: GuestConfigV)
    ensures
        guest_config_of_jv(guest_config_jv(g)) == Some(g),
        g.cpus is None <==> json_member(guest_config_jv(g), "cpus"@) is None,
        g.memory_mb is None <==> json_member(guest_config_jv(g), "memory_mb"@) is None,
{
    reveal_strlit("cpu_kind");
    reveal_strlit("cpus");
    reveal_strlit("gpu_kind");
    reveal_strlit("gpus");
    reveal_strlit("memory_mb");
    reveal_strlit("kernel_args");
    assert("cpu_kind"@.len() == 8);
    assert("cpus"@.len() == 4);
    assert("gpu_kind"@.len() == 8);
    assert("gpus"@.len() == 4);
    assert("memory_mb"@.len() == 9);
    assert("kernel_args"@.len() == 11);
    assert("cpu_kind"@[0] == 'c');
    assert("gpu_kind"@[0] == 'g');
    assert("cpus"@[0] == 'c');
    assert("gpus"@[0] == 'g');
    let e = guest_config_jv(g);
    assert(jv_opt_cpu_kind(e, "cpu_kind"@) == Some(g.cpu_kind)) by {
        lemma_cpu_kind_round_trip(g.cpu_kind->0);
    }
    assert(jv_opt_uint(e, "cpus"@) == Some(g.cpus));
    assert(jv_opt_gpu_kind(e, "gpu_kind"@) == Some(g.gpu_kind)) by {
        lemma_gpu_kind_round_trip(g.gpu_kind->0);
    }
    assert(jv_opt_uint(e, "gpus"@) == Some(g.gpus));
    assert(jv_opt_uint(e, "memory_mb"@) == Some(g.memory_mb));
    assert(jv_opt_str_arr(e, "kernel_args"@) == Some(g.kernel_args)) by {
        if g.kernel_args is Some {
            let a = g.kernel_args->0;
            assert(jv_str_seq(str_seq_jv(a))->0 =~= a);
        }
    }
    assert(guest_config_of_jv(e)->0 =~= g);
    assert(guest_config_of_jv(e) == Some(g));
}

/// What the platform does when a machine exits.
#[derive(Clone, Copy, PartialEq, Eq, Structural, Debug)]
pub enum RestartPolicyEnum {
    No,
    Always,
    OnFailure,
    SpotPrice,
}

impl DeepView for RestartPolicyEnum {
    type V = RestartPolicyEnum;

    open spec fn deep_view(&self) -> RestartPolicyEnum {
        *self
    }
}

pub open spec fn restart_policy_enum_name(p: RestartPolicyEnum) -> Seq<char> {
    match p {
        RestartPolicyEnum::No => "no"@,
        RestartPolicyEnum::Always => "always"@,
        RestartPolicyEnum::OnFailure => "onfailure"@,
        RestartPolicyEnum::SpotPrice => "spotprice"@,
    }
}

pub open spec fn restart_policy_enum_jv(p: RestartPolicyEnum) -> JsonV {
    JsonV::Str(restart_policy_enum_name(p))
}

pub open spec fn restart_policy_enum_of_jv(j: JsonV) -> Option<RestartPolicyEnum> {
    match j {
        JsonV::Str(s) => if s == "no"@ {
            Some(RestartPolicyEnum::No)
        } else if s == "always"@ {
            Some(RestartPolicyEnum::Always)
        } else if s == "onfailure"@ {
            Some(RestartPolicyEnum::OnFailure)
        } else if s == "spotprice"@ {
            Some(RestartPolicyEnum::SpotPrice)
        } else {
            None
        },
        _ => None,
    }
}

impl RestartPolicyEnum {
    /// The wire name of this policy.
    pub fn code(&self) -> (s: String)
        ensures
            s@ == restart_policy_enum_name(*self),
    {
        match self {
            RestartPolicyEnum::No => "no".to_owned(),
            RestartPolicyEnum::Always => "always".to_owned(),
            RestartPolicyEnum::OnFailure => "onfailure".to_owned(),
            RestartPolicyEnum::SpotPrice => "spotprice".to_owned(),
        }
    }

    pub fn to_json(&self) -> (j: Json)
        ensures
            j.deep_view() == restart_policy_enum_jv(*self),
    {
        Json::Str(self.code())
    }

    pub fn from_json(j: &Json) -> (r: Option<Self>)
        ensures
            r == restart_policy_enum_of_jv(j.deep_view()),
    {
        match j {
            Json::Str(s) => {
                if *s == "no".to_owned() {
                    Some(RestartPolicyEnum::No)
                } else if *s == "always".to_owned() {
                    Some(RestartPolicyEnum::Always)
                } else if *s == "onfailure".to_owned() {
                    Some(RestartPolicyEnum::OnFailure)
                } else if *s == "spotprice".to_owned() {
                    Some(RestartPolicyEnum::SpotPrice)
                } else {
                    None
                }
            },
            _ => None,
        }
    }
}

pub proof fn lemma_restart_policy_enum_round_trip(p: RestartPolicyEnum)
    ensures
        restart_policy_enum_of_jv(restart_policy_enum_jv(p)) == Some(p),
{
    reveal_strlit("no");
    reveal_strlit("always");
    reveal_strlit("onfailure");
    reveal_strlit("spotprice");
    assert("no"@.len() == 2);
    assert("always"@.len() == 6);
    assert("onfailure"@.len() == 9);
    assert("spotprice"@.len() == 9);
    assert("onfailure"@[0] == 'o');
    assert("spotprice"@[0] == 's');
}

/// Restart behaviour of a machine.  The remote API also accepts a GPU bid
/// price on this record; that field is fractional and is supplied by the
/// unverified shell when needed.
#[derive(Clone, Copy, PartialEq, Eq, Structural, Debug)]
pub struct RestartPolicy {
    pub max_retries: Option<u32>,
    pub policy: RestartPolicyEnum,
}

impl DeepView for RestartPolicy {
    type V = RestartPolicy;

    open spec fn deep_view(&self) -> RestartPolicy {
        *self
    }
}

pub open spec fn restart_policy_jv(p: RestartPolicy) -> JsonV {
    let m = Seq::<(Seq<char>, JsonV)>::empty();
    let m = opt_member(m, "max_retries"@, match p.max_retries {
        None => None,
        Some(n) => Some(JsonV::UInt(n as u64)),
    });
    let m = m.push(("policy"@, restart_policy_enum_jv(p.policy)));
    JsonV::Obj(m)
}

pub open spec fn jv_req_policy(j: JsonV, key: Seq<char>) -> Option<RestartPolicyEnum> {
    match json_member(j, key) {
        Some(v) => restart_policy_enum_of_jv(v),
        None => None,
    }
}

pub open spec fn restart_policy_of_jv(j: JsonV) -> Option<RestartPolicy> {
    if !(j is Obj) {
        None
    } else if crate::json::jv_opt_u32(j, "max_retries"@) is None
        || jv_req_policy(j, "policy"@) is None {
        None
    } else {
        Some(RestartPolicy {
            max_retries: crate::json::jv_opt_u32(j, "max_retries"@)->0,
            policy: jv_req_policy(j, "policy"@)->0,
        })
    }
}

impl RestartPolicy {
    pub fn to_json(&self) -> (j: Json)
        ensures
            j.deep_view() == restart_policy_jv(*self),
    {
        let mut m: Vec<(String, Json)> = Vec::new();
        if let Some(n) = &self.max_retries {
            m.push(("max_retries".to_owned(), Json::UInt(*n as u64)));
        }
        m.push(("policy".to_owned(), self.policy.to_json()));
        let j = Json::Obj(m);
        proof {
            let ghost mv = m@;
            let ghost sv = restart_policy_jv(*self)->Obj_0;
            assert(crate::json::json_pairs_view(mv).len() == sv.len());
            assert(crate::json::json_pairs_view(mv) =~= sv);
        }
        j
    }

    pub fn from_json(j: &Json) -> (r: Option<Self>)
        ensures
            r == restart_policy_of_jv(j.deep_view()),
    {
        match j {
            Json::Obj(_) => {},
            _ => { return None; },
        }
        let max_retries = match j.opt_u32("max_retries") {
            Some(v) => v,
            None => { return None; },
        };
        let k = "policy".to_owned();
        let policy = match j.get(&k) {
            Some(v) => match RestartPolicyEnum::from_json(v) {
                Some(p) => p,
                None => { return None; },
            },
            None => { return None; },
        };
        Some(RestartPolicy { max_retries, policy })
    }
}

impl Default for RestartPolicy {
    /// No restarts.
    fn default() -> (r: Self)
        ensures
            r.max_retries is None,
            r.policy == RestartPolicyEnum::No,
    {
        Self { max_retries: None, policy: RestartPolicyEnum::No }
    }
}

pub proof fn lemma_restart_policy_round_trip(p: RestartPolicy)
    ensures
        restart_policy_of_jv(restart_policy_jv(p)) == Some(p),
{
    reveal_strlit("max_retries");
    reveal_strlit("policy");
    assert("max_retries"@.len() == 11);
    assert("policy"@.len() == 6);
    let e = restart_policy_jv(p);
    assert(crate::json::jv_opt_u32(e, "max_retries"@) == Some(p.max_retries));
    assert(jv_req_policy(e, "policy"@) == Some(p.policy)) by {
        lemma_restart_policy_enum_round_trip(p.policy);
    }
}

/// A file placed into the machine's file system.  The machine configuration
/// uses the record of the same name under the system module; this shape is
/// kept for compatibility.
#[derive(Clone, Debug)]
pub struct FileConfig {
    pub guest_path: String,
    pub mode: Option<u32>,
    pub raw_value: Option<String>,
    pub secret_name: Option<String>,
}

} // verus!
