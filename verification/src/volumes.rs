//! Volumes: persistent block storage attached to an application, the
//! request shapes, the create builder, and the manager.

use crate::http::{
    interpreted, result_matches, unit_result_matches, ApiError, FetchResult, FetchResultV,
    Method, Request,
};
use crate::json::{
    json_member, json_seq_view, jv_opt_bool, jv_opt_str, jv_opt_uint, jv_req_str, jv_req_uint,
    opt_member, str_seq_jv, Json, JsonV,
};
use crate::machines::regions::{region_jv, MachineRegions};
use crate::text::u64_text;
use vstd::prelude::*;

verus! {

broadcast use crate::json::lemma_lookup_push, crate::json::lemma_lookup_append, crate::json::lemma_pairs_view_append, vstd::string::group_string_axioms, vstd::seq::group_seq_axioms, vstd::std_specs::vec::group_vec_axioms;


/// A block-storage volume as the remote system reports it.
#[derive(Clone, Debug)]
pub struct Volume {
    pub attached_alloc_id: Option<String>,
    pub attached_machine_id: Option<String>,
    pub auto_backup_enabled: Option<bool>,
    pub block_size: Option<u64>,
    pub blocks: Option<u64>,
    pub blocks_avail: Option<u64>,
    pub blocks_free: Option<u64>,
    pub created_at: Option<String>,
    pub encrypted: Option<bool>,
    pub fstype: Option<String>,
    pub host_status: Option<String>,
    pub id: Option<String>,
    pub name: Option<String>,
    pub region: Option<String>,
    pub size_gb: Option<u64>,
    pub snapshot_retention: Option<u64>,
    pub state: Option<String>,
    pub zone: Option<String>,
}

#[verifier::ext_equal]
pub struct VolumeV {
    pub attached_alloc_id: Option<Seq<char>>,
    pub attached_machine_id: Option<Seq<char>>,
    pub auto_backup_enabled: Option<bool>,
    pub block_size: Option<u64>,
    pub blocks: Option<u64>,
    pub blocks_avail: Option<u64>,
    pub blocks_free: Option<u64>,
    pub created_at: Option<Seq<char>>,
    pub encrypted: Option<bool>,
    pub fstype: Option<Seq<char>>,
    pub host_status: Option<Seq<char>>,
    pub id: Option<Seq<char>>,
    pub name: Option<Seq<char>>,
    pub region: Option<Seq<char>>,
    pub size_gb: Option<u64>,
    pub snapshot_retention: Option<u64>,
    pub state: Option<Seq<char>>,
    pub zone: Option<Seq<char>>,
}

impl DeepView for Volume {
    type V = VolumeV;

    open spec fn deep_view(&self) -> VolumeV {
        VolumeV {
            attached_alloc_id: self.attached_alloc_id.deep_view(),
            attached_machine_id: self.attached_machine_id.deep_view(),
            auto_backup_enabled: self.auto_backup_enabled,
            block_size: self.block_size,
            blocks: self.blocks,
            blocks_avail: self.blocks_avail,
            blocks_free: self.blocks_free,
            created_at: self.created_at.deep_view(),
            encrypted: self.encrypted,
            fstype: self.fstype.deep_view(),
            host_status: self.host_status.deep_view(),
            id: self.id.deep_view(),
            name: self.name.deep_view(),
            region: self.region.deep_view(),
            size_gb: self.size_gb,
            snapshot_retention: self.snapshot_retention,
            state: self.state.deep_view(),
            zone: self.zone.deep_view(),
        }
    }
}

pub open spec fn volume_of_jv(j: JsonV) -> Option<VolumeV> {
    if !(j is Obj) {
        None
    } else if jv_opt_str(j, "attached_alloc_id"@) is None || jv_opt_str(j, "attached_machine_id"@) is None || jv_opt_bool(j, "auto_backup_enabled"@) is None || jv_opt_uint(j, "block_size"@) is None || jv_opt_uint(j, "blocks"@) is None || jv_opt_uint(j, "blocks_avail"@) is None || jv_opt_uint(j, "blocks_free"@) is None || jv_opt_str(j, "created_at"@) is None || jv_opt_bool(j, "encrypted"@) is None || jv_opt_str(j, "fstype"@) is None || jv_opt_str(j, "host_status"@) is None || jv_opt_str(j, "id"@) is None || jv_opt_str(j, "name"@) is None || jv_opt_str(j, "region"@) is None || jv_opt_uint(j, "size_gb"@) is None || jv_opt_uint(j, "snapshot_retention"@) is None || jv_opt_str(j, "state"@) is None || jv_opt_str(j, "zone"@) is None {
        None
    } else {
        Some(VolumeV {
            attached_alloc_id: jv_opt_str(j, "attached_alloc_id"@)->0,
            attached_machine_id: jv_opt_str(j, "attached_machine_id"@)->0,
            auto_backup_enabled: jv_opt_bool(j, "auto_backup_enabled"@)->0,
            block_size: jv_opt_uint(j, "block_size"@)->0,
            blocks: jv_opt_uint(j, "blocks"@)->0,
            blocks_avail: jv_opt_uint(j, "blocks_avail"@)->0,
            blocks_free: jv_opt_uint(j, "blocks_free"@)->0,
            created_at: jv_opt_str(j, "created_at"@)->0,
            encrypted: jv_opt_bool(j, "encrypted"@)->0,
            fstype: jv_opt_str(j, "fstype"@)->0,
            host_status: jv_opt_str(j, "host_status"@)->0,
            id: jv_opt_str(j, "id"@)->0,
            name: jv_opt_str(j, "name"@)->0,
            region: jv_opt_str(j, "region"@)->0,
            size_gb: jv_opt_uint(j, "size_gb"@)->0,
            snapshot_retention: jv_opt_uint(j, "snapshot_retention"@)->0,
            state: jv_opt_str(j, "state"@)->0,
            zone: jv_opt_str(j, "zone"@)->0,
        })
    }
}

impl Volume {
    #[verifier::rlimit(100)]
    pub fn from_json(j: &Json) -> (r: Option<Self>)
        ensures
            r.deep_view() == volume_of_jv(j.deep_view()),
    {
        match j {
            Json::Obj(_) => {},
            _ => { return None; },
        }
        let attached_alloc_id = match j.opt_str("attached_alloc_id") {
            Some(v) => v,
            None => { return None; },
        };
        let attached_machine_id = match j.opt_str("attached_machine_id") {
            Some(v) => v,
            None => { return None; },
        };
        let auto_backup_enabled = match j.opt_bool("auto_backup_enabled") {
            Some(v) => v,
            None => { return None; },
        };
        let block_size = match j.opt_uint("block_size") {
            Some(v) => v,
            None => { return None; },
        };
        let blocks = match j.opt_uint("blocks") {
            Some(v) => v,
            None => { return None; },
        };
        let blocks_avail = match j.opt_uint("blocks_avail") {
            Some(v) => v,
            None => { return None; },
        };
        let blocks_free = match j.opt_uint("blocks_free") {
            Some(v) => v,
            None => { return None; },
        };
        let created_at = match j.opt_str("created_at") {
            Some(v) => v,
            None => { return None; },
        };
        let encrypted = match j.opt_bool("encrypted") {
            Some(v) => v,
            None => { return None; },
        };
        let fstype = match j.opt_str("fstype") {
            Some(v) => v,
            None => { return None; },
        };
        let host_status = match j.opt_str("host_status") {
            Some(v) => v,
            None => { return None; },
        };
        let id = match j.opt_str("id") {
            Some(v) => v,
            None => { return None; },
        };
        let name = match j.opt_str("name") {
            Some(v) => v,
            None => { return None; },
        };
        let region = match j.opt_str("region") {
            Some(v) => v,
            None => { return None; },
        };
        let size_gb = match j.opt_uint("size_gb") {
            Some(v) => v,
            None => { return None; },
        };
        let snapshot_retention = match j.opt_uint("snapshot_retention") {
            Some(v) => v,
            None => { return None; },
        };
        let state = match j.opt_str("state") {
            Some(v) => v,
            None => { return None; },
        };
        let zone = match j.opt_str("zone") {
            Some(v) => v,
            None => { return None; },
        };
        Some(Volume { attached_alloc_id, attached_machine_id, auto_backup_enabled, block_size, blocks, blocks_avail, blocks_free, created_at, encrypted, fstype, host_status, id, name, region, size_gb, snapshot_retention, state, zone })
    }
}

pub open spec fn volume_seq_of(items: Seq<JsonV>) -> Option<Seq<VolumeV>> {
    if forall|k: int| 0 <= k < items.len() ==> volume_of_jv(#[trigger] items[k]) is Some {
        Some(Seq::new(items.len(), |k: int| volume_of_jv(items[k])->0))
    } else {
        None
    }
}

pub open spec fn jv_opt_volume_arr(j: JsonV, key: Seq<char>) -> Option<
    Option<Seq<VolumeV>>,
> {
    match json_member(j, key) {
        None => Some(None),
        Some(JsonV::Null) => Some(None),
        Some(JsonV::Arr(items)) => match volume_seq_of(items) {
            None => None,
            Some(xs) => Some(Some(xs)),
        },
        Some(_) => None,
    }
}

/// Reads an optional member holding an array of these records.
pub fn opt_volume_arr_field(j: &Json, key: &str) -> (r: Option<Option<Vec<Volume>>>)
    ensures
        r.deep_view() == jv_opt_volume_arr(j.deep_view(), key@),
{
    let k = key.to_owned();
    match j.get(&k) {
        None => Some(None),
        Some(Json::Null) => Some(None),
        Some(v) => match v {
            Json::Arr(items) => {
                let ghost iv = json_seq_view(items@);
                let mut out: Vec<Volume> = Vec::new();
                let n = items.len();
                for i in 0..n
                    invariant
                        n == items.len(),
                        iv == json_seq_view(items@),
                        json_member(j.deep_view(), key@) == Some(JsonV::Arr(iv)),
                        iv.len() == n,
                        out@.len() == i,
                        forall|p: int| 0 <= p < i
                            ==> volume_of_jv(#[trigger] iv[p]) is Some,
                        forall|p: int| 0 <= p < i
                            ==> (#[trigger] out@[p]).deep_view() == volume_of_jv(iv[p])->0,
                {
                    match Volume::from_json(&items[i]) {
                        Some(x) => { out.push(x); },
                        None => {
                            proof {
                                assert(volume_of_jv(iv[i as int]) is None);
                            }
                            return None;
                        },
                    }
                }
                proof {
                    assert(out.deep_view() =~= volume_seq_of(iv)->0);
                }
                Some(Some(out))
            },
            _ => None,
        },
    }
}

/// The compute sizing a created volume is placed for.
#[derive(Clone, Debug)]
pub struct Compute {
    pub cpu_kind: Option<String>,
    pub cpus: Option<u32>,
    pub gpu_kind: Option<String>,
    pub gpus: Option<u32>,
    pub host_dedication_id: Option<String>,
    pub kernel_args: Option<Vec<String>>,
    pub memory_mb: Option<u32>,
    pub compute_image: Option<String>,
}

#[verifier::ext_equal]
pub struct ComputeV {
    pub cpu_kind: Option<Seq<char>>,
    pub cpus: Option<u32>,
    pub gpu_kind: Option<Seq<char>>,
    pub gpus: Option<u32>,
    pub host_dedication_id: Option<Seq<char>>,
    pub kernel_args: Option<Seq<Seq<char>>>,
    pub memory_mb: Option<u32>,
    pub compute_image: Option<Seq<char>>,
}

impl DeepView for Compute {
    type V = ComputeV;

    open spec fn deep_view(&self) -> ComputeV {
        ComputeV {
            cpu_kind: self.cpu_kind.deep_view(),
            cpus: self.cpus,
            gpu_kind: self.gpu_kind.deep_view(),
            gpus: self.gpus,
            host_dedication_id: self.host_dedication_id.deep_view(),
            kernel_args: self.kernel_args.deep_view(),
            memory_mb: self.memory_mb,
            compute_image: self.compute_image.deep_view(),
        }
    }
}

pub open spec fn compute_jv(c: ComputeV) -> JsonV {
    let m = Seq::<(Seq<char>, JsonV)>::empty();
    let m = opt_member(m, "cpu_kind"@, match c.cpu_kind {
        None => None,
        Some(x) => Some(JsonV::Str(x)),
    });
    let m = opt_member(m, "cpus"@, match c.cpus {
        None => None,
        Some(x) => Some(JsonV::UInt(x as u64)),
    });
    let m = opt_member(m, "gpu_kind"@, match c.gpu_kind {
        None => None,
        Some(x) => Some(JsonV::Str(x)),
    });
    let m = opt_member(m, "gpus"@, match c.gpus {
        None => None,
        Some(x) => Some(JsonV::UInt(x as u64)),
    });
    let m = opt_member(m, "host_dedication_id"@, match c.host_dedication_id {
        None => None,
        Some(x) => Some(JsonV::Str(x)),
    });
    let m = opt_member(m, "kernel_args"@, match c.kernel_args {
        None => None,
        Some(x) => Some(JsonV::Arr(str_seq_jv(x))),
    });
    let m = opt_member(m, "memory_mb"@, match c.memory_mb {
        None => None,
        Some(x) => Some(JsonV::UInt(x as u64)),
    });
    let m = opt_member(m, "compute_image"@, match c.compute_image {
        None => None,
        Some(x) => Some(JsonV::Str(x)),
    });
    JsonV::Obj(m)
}

impl Compute {
    #[verifier::rlimit(80)]
    pub fn to_json(&self) -> (j: Json)
        ensures
            j.deep_view() == compute_jv(self.deep_view()),
    {
        let mut m: Vec<(String, Json)> = Vec::new();
        if let Some(x) = &self.cpu_kind {
            m.push(("cpu_kind".to_owned(), Json::Str(x.clone())));
        }
        if let Some(x) = &self.cpus {
            m.push(("cpus".to_owned(), Json::UInt(*x as u64)));
        }
        if let Some(x) = &self.gpu_kind {
            m.push(("gpu_kind".to_owned(), Json::Str(x.clone())));
        }
        if let Some(x) = &self.gpus {
            m.push(("gpus".to_owned(), Json::UInt(*x as u64)));
        }
        if let Some(x) = &self.host_dedication_id {
            m.push(("host_dedication_id".to_owned(), Json::Str(x.clone())));
        }
        if let Some(x) = &self.kernel_args {
            m.push(("kernel_args".to_owned(), Json::from_strings(x)));
        }
        if let Some(x) = &self.memory_mb {
            m.push(("memory_mb".to_owned(), Json::UInt(*x as u64)));
        }
        if let Some(x) = &self.compute_image {
            m.push(("compute_image".to_owned(), Json::Str(x.clone())));
        }
        let j = Json::Obj(m);
        proof {
            let ghost mv = m@;
            let ghost sv = compute_jv(self.deep_view())->Obj_0;
            assert(crate::json::json_pairs_view(mv).len() == sv.len());
            assert(crate::json::json_pairs_view(mv) =~= sv);
        }
        j
    }

}

/// The body creating a volume.
#[derive(Clone, Debug)]
pub struct CreateVolumeRequest {
    pub name: String,
    pub region: MachineRegions,
    pub size_gb: u64,
    pub encrypted: bool,
    pub fstype: String,
    pub require_unique_zone: bool,
    pub compute: Option<Compute>,
    pub snapshot_id: Option<String>,
    pub snapshot_retention: Option<u32>,
    pub source_volume_id: Option<String>,
}

#[verifier::ext_equal]
pub struct CreateVolumeRequestV {
    pub name: Seq<char>,
    pub region: MachineRegions,
    pub size_gb: u64,
    pub encrypted: bool,
    pub fstype: Seq<char>,
    pub require_unique_zone: bool,
    pub compute: Option<ComputeV>,
    pub snapshot_id: Option<Seq<char>>,
    pub snapshot_retention: Option<u32>,
    pub source_volume_id: Option<Seq<char>>,
}

impl DeepView for CreateVolumeRequest {
    type V = CreateVolumeRequestV;

    open spec fn deep_view(&self) -> CreateVolumeRequestV {
        CreateVolumeRequestV {
            name: self.name@,
            region: self.region,
            size_gb: self.size_gb,
            encrypted: self.encrypted,
            fstype: self.fstype@,
            require_unique_zone: self.require_unique_zone,
            compute: self.compute.deep_view(),
            snapshot_id: self.snapshot_id.deep_view(),
            snapshot_retention: self.snapshot_retention,
            source_volume_id: self.source_volume_id.deep_view(),
        }
    }
}

pub open spec fn create_volume_request_members_0(c: CreateVolumeRequestV) -> Seq<(Seq<char>, JsonV)> {
    let m = Seq::<(Seq<char>, JsonV)>::empty();
    let m = m.push(("name"@, JsonV::Str(c.name)));
    let m = m.push(("region"@, region_jv(c.region)));
    let m = m.push(("size_gb"@, JsonV::UInt(c.size_gb)));
    let m = m.push(("encrypted"@, JsonV::Bool(c.encrypted)));
    let m = m.push(("fstype"@, JsonV::Str(c.fstype)));
    m
}

pub open spec fn create_volume_request_members_1(c: CreateVolumeRequestV) -> Seq<(Seq<char>, JsonV)> {
    let m = Seq::<(Seq<char>, JsonV)>::empty();
    let m = m.push(("require_unique_zone"@, JsonV::Bool(c.require_unique_zone)));
    let m = opt_member(m, "compute"@, match c.compute {
        None => None,
        Some(x) => Some(compute_jv(x)),
    });
    let m = opt_member(m, "snapshot_id"@, match c.snapshot_id {
        None => None,
        Some(x) => Some(JsonV::Str(x)),
    });
    let m = opt_member(m, "snapshot_retention"@, match c.snapshot_retention {
        None => None,
        Some(x) => Some(JsonV::UInt(x as u64)),
    });
    let m = opt_member(m, "source_volume_id"@, match c.source_volume_id {
        None => None,
        Some(x) => Some(JsonV::Str(x)),
    });
    m
}

pub open spec fn create_volume_request_jv(c: CreateVolumeRequestV) -> JsonV {
    JsonV::Obj(create_volume_request_members_0(c) + create_volume_request_members_1(c))
}

impl CreateVolumeRequest {
    fn to_json_members_0(&self) -> (m: Vec<(String, Json)>)
        ensures
            crate::json::json_pairs_view(m@) == create_volume_request_members_0(self.deep_view()),
    {
        let mut m: Vec<(String, Json)> = Vec::new();
        m.push(("name".to_owned(), Json::Str(self.name.clone())));
        m.push(("region".to_owned(), self.region.to_json()));
        m.push(("size_gb".to_owned(), Json::UInt(self.size_gb)));
        m.push(("encrypted".to_owned(), Json::Bool(self.encrypted)));
        m.push(("fstype".to_owned(), Json::Str(self.fstype.clone())));
        proof {
            assert(crate::json::json_pairs_view(m@) =~= create_volume_request_members_0(self.deep_view()));
        }
        m
    }

    fn to_json_members_1(&self) -> (m: Vec<(String, Json)>)
        ensures
            crate::json::json_pairs_view(m@) == create_volume_request_members_1(self.deep_view()),
    {
        let mut m: Vec<(String, Json)> = Vec::new();
        m.push(("require_unique_zone".to_owned(), Json::Bool(self.require_unique_zone)));
        if let Some(x) = &self.compute {
            m.push(("compute".to_owned(), x.to_json()));
        }
        if let Some(x) = &self.snapshot_id {
            m.push(("snapshot_id".to_owned(), Json::Str(x.clone())));
        }
        if let Some(x) = &self.snapshot_retention {
            m.push(("snapshot_retention".to_owned(), Json::UInt(*x as u64)));
        }
        if let Some(x) = &self.source_volume_id {
            m.push(("source_volume_id".to_owned(), Json::Str(x.clone())));
        }
        proof {
            assert(crate::json::json_pairs_view(m@) =~= create_volume_request_members_1(self.deep_view()));
        }
        m
    }

    pub fn to_json(&self) -> (j: Json)
        ensures
            j.deep_view() == create_volume_request_jv(self.deep_view()),
    {
        let mut m = self.to_json_members_0();
        let mut m1 = self.to_json_members_1();
        m.append(&mut m1);
        let j = Json::Obj(m);
        proof {
            let ghost sv = create_volume_request_jv(self.deep_view())->Obj_0;
            assert(crate::json::json_pairs_view(m@) =~= sv);
        }
        j
    }

}

/// The body updating a volume.
#[derive(Clone, Debug)]
pub struct UpdateVolumeRequest {
    pub auto_backup_enabled: bool,
    pub snapshot_retention: u64,
}

#[verifier::ext_equal]
pub struct UpdateVolumeRequestV {
    pub auto_backup_enabled: bool,
    pub snapshot_retention: u64,
}

impl DeepView for UpdateVolumeRequest {
    type V = UpdateVolumeRequestV;

    open spec fn deep_view(&self) -> UpdateVolumeRequestV {
        UpdateVolumeRequestV {
            auto_backup_enabled: self.auto_backup_enabled,
            snapshot_retention: self.snapshot_retention,
        }
    }
}

pub open spec fn update_volume_request_jv(c: UpdateVolumeRequestV) -> JsonV {
    let m = Seq::<(Seq<char>, JsonV)>::empty();
    let m = m.push(("auto_backup_enabled"@, JsonV::Bool(c.auto_backup_enabled)));
    let m = m.push(("snapshot_retention"@, JsonV::UInt(c.snapshot_retention)));
    JsonV::Obj(m)
}

impl UpdateVolumeRequest {
    pub fn to_json(&self) -> (j: Json)
        ensures
            j.deep_view() == update_volume_request_jv(self.deep_view()),
    {
        let mut m: Vec<(String, Json)> = Vec::new();
        m.push(("auto_backup_enabled".to_owned(), Json::Bool(self.auto_backup_enabled)));
        m.push(("snapshot_retention".to_owned(), Json::UInt(self.snapshot_retention)));
        let j = Json::Obj(m);
        proof {
            let ghost mv = m@;
            let ghost sv = update_volume_request_jv(self.deep_view())->Obj_0;
            assert(crate::json::json_pairs_view(mv).len() == sv.len());
            assert(crate::json::json_pairs_view(mv) =~= sv);
        }
        j
    }

}

/// The body extending a volume.
#[derive(Clone, Debug)]
pub struct ExtendVolumeRequest {
    pub size_gb: u64,
}

#[verifier::ext_equal]
pub struct ExtendVolumeRequestV {
    pub size_gb: u64,
}

impl DeepView for ExtendVolumeRequest {
    type V = ExtendVolumeRequestV;

    open spec fn deep_view(&self) -> ExtendVolumeRequestV {
        ExtendVolumeRequestV {
            size_gb: self.size_gb,
        }
    }
}

pub open spec fn extend_volume_request_jv(c: ExtendVolumeRequestV) -> JsonV {
    let m = Seq::<(Seq<char>, JsonV)>::empty();
    let m = m.push(("size_gb"@, JsonV::UInt(c.size_gb)));
    JsonV::Obj(m)
}

impl ExtendVolumeRequest {
    pub fn to_json(&self) -> (j: Json)
        ensures
            j.deep_view() == extend_volume_request_jv(self.deep_view()),
    {
        let mut m: Vec<(String, Json)> = Vec::new();
        m.push(("size_gb".to_owned(), Json::UInt(self.size_gb)));
        let j = Json::Obj(m);
        proof {
            let ghost mv = m@;
            let ghost sv = extend_volume_request_jv(self.deep_view())->Obj_0;
            assert(crate::json::json_pairs_view(mv).len() == sv.len());
            assert(crate::json::json_pairs_view(mv) =~= sv);
        }
        j
    }

}

/// A snapshot of a volume.
#[derive(Clone, Debug)]
pub struct Snapshot {
    pub created_at: String,
    pub digest: String,
    pub id: String,
    pub retention_days: u64,
    pub size: u64,
    pub status: String,
}

#[verifier::ext_equal]
pub struct SnapshotV {
    pub created_at: Seq<char>,
    pub digest: Seq<char>,
    pub id: Seq<char>,
    pub retention_days: u64,
    pub size: u64,
    pub status: Seq<char>,
}

impl DeepView for Snapshot {
    type V = SnapshotV;

    open spec fn deep_view(&self) -> SnapshotV {
        SnapshotV {
            created_at: self.created_at@,
            digest: self.digest@,
            id: self.id@,
            retention_days: self.retention_days,
            size: self.size,
            status: self.status@,
        }
    }
}

pub open spec fn snapshot_of_jv(j: JsonV) -> Option<SnapshotV> {
    if !(j is Obj) {
        None
    } else if jv_req_str(j, "created_at"@) is None || jv_req_str(j, "digest"@) is None || jv_req_str(j, "id"@) is None || jv_req_uint(j, "retention_days"@) is None || jv_req_uint(j, "size"@) is None || jv_req_str(j, "status"@) is None {
        None
    } else {
        Some(SnapshotV {
            created_at: jv_req_str(j, "created_at"@)->0,
            digest: jv_req_str(j, "digest"@)->0,
            id: jv_req_str(j, "id"@)->0,
            retention_days: jv_req_uint(j, "retention_days"@)->0,
            size: jv_req_uint(j, "size"@)->0,
            status: jv_req_str(j, "status"@)->0,
        })
    }
}

impl Snapshot {
    pub fn from_json(j: &Json) -> (r: Option<Self>)
        ensures
            r.deep_view() == snapshot_of_jv(j.deep_view()),
    {
        match j {
            Json::Obj(_) => {},
            _ => { return None; },
        }
        let created_at = match j.req_str("created_at") {
            Some(v) => v,
            None => { return None; },
        };
        let digest = match j.req_str("digest") {
            Some(v) => v,
            None => { return None; },
        };
        let id = match j.req_str("id") {
            Some(v) => v,
            None => { return None; },
        };
        let retention_days = match j.req_uint("retention_days") {
            Some(v) => v,
            None => { return None; },
        };
        let size = match j.req_uint("size") {
            Some(v) => v,
            None => { return None; },
        };
        let status = match j.req_str("status") {
            Some(v) => v,
            None => { return None; },
        };
        Some(Snapshot { created_at, digest, id, retention_days, size, status })
    }
}

pub open spec fn snapshot_seq_of(items: Seq<JsonV>) -> Option<Seq<SnapshotV>> {
    if forall|k: int| 0 <= k < items.len() ==> snapshot_of_jv(#[trigger] items[k]) is Some {
        Some(Seq::new(items.len(), |k: int| snapshot_of_jv(items[k])->0))
    } else {
        None
    }
}

pub open spec fn jv_opt_snapshot_arr(j: JsonV, key: Seq<char>) -> Option<
    Option<Seq<SnapshotV>>,
> {
    match json_member(j, key) {
        None => Some(None),
        Some(JsonV::Null) => Some(None),
        Some(JsonV::Arr(items)) => match snapshot_seq_of(items) {
            None => None,
            Some(xs) => Some(Some(xs)),
        },
        Some(_) => None,
    }
}

/// Reads an optional member holding an array of these records.
pub fn opt_snapshot_arr_field(j: &Json, key: &str) -> (r: Option<Option<Vec<Snapshot>>>)
    ensures
        r.deep_view() == jv_opt_snapshot_arr(j.deep_view(), key@),
{
    let k = key.to_owned();
    match j.get(&k) {
        None => Some(None),
        Some(Json::Null) => Some(None),
        Some(v) => match v {
            Json::Arr(items) => {
                let ghost iv = json_seq_view(items@);
                let mut out: Vec<Snapshot> = Vec::new();
                let n = items.len();
                for i in 0..n
                    invariant
                        n == items.len(),
                        iv == json_seq_view(items@),
                        json_member(j.deep_view(), key@) == Some(JsonV::Arr(iv)),
                        iv.len() == n,
                        out@.len() == i,
                        forall|p: int| 0 <= p < i
                            ==> snapshot_of_jv(#[trigger] iv[p]) is Some,
                        forall|p: int| 0 <= p < i
                            ==> (#[trigger] out@[p]).deep_view() == snapshot_of_jv(iv[p])->0,
                {
                    match Snapshot::from_json(&items[i]) {
                        Some(x) => { out.push(x); },
                        None => {
                            proof {
                                assert(snapshot_of_jv(iv[i as int]) is None);
                            }
                            return None;
                        },
                    }
                }
                proof {
                    assert(out.deep_view() =~= snapshot_seq_of(iv)->0);
                }
                Some(Some(out))
            },
            _ => None,
        },
    }
}


impl Compute {
    /// A compute record assembled from explicit parts.
    pub fn new(
        cpu_kind: Option<String>,
        cpus: Option<u32>,
        gpu_kind: Option<String>,
        gpus: Option<u32>,
        host_dedication_id: Option<String>,
        kernel_args: Option<Vec<String>>,
        memory_mb: Option<u32>,
        compute_image: Option<String>,
    ) -> (r: Self)
        ensures
            r.cpu_kind == cpu_kind,
            r.cpus == cpus,
            r.gpu_kind == gpu_kind,
            r.gpus == gpus,
            r.host_dedication_id == host_dedication_id,
            r.kernel_args == kernel_args,
            r.memory_mb == memory_mb,
            r.compute_image == compute_image,
    {
        Self {
            cpu_kind,
            cpus,
            gpu_kind,
            gpus,
            host_dedication_id,
            kernel_args,
            memory_mb,
            compute_image,
        }
    }
}

impl Default for Compute {
    /// One shared CPU with 512 MB of memory.
    fn default() -> (r: Self)
        ensures
            r.cpu_kind matches Some(k) && k@ == "shared"@,
            r.cpus == Some(1u32),
            r.gpu_kind is None,
            r.gpus is None,
            r.host_dedication_id is None,
            r.kernel_args is None,
            r.memory_mb == Some(512u32),
            r.compute_image is None,
    {
        Self {
            cpu_kind: Some("shared".to_owned()),
            cpus: Some(1),
            gpu_kind: None,
            gpus: None,
            host_dedication_id: None,
            kernel_args: None,
            memory_mb: Some(512),
            compute_image: None,
        }
    }
}

impl CreateVolumeRequest {
    /// Starts a builder with the documented defaults.
    pub fn builder(name: &str, region: MachineRegions, size_gb: u64) -> (r:
        CreateVolumeRequestBuilder)
        ensures
            r.name@ == name@,
            r.region == region,
            r.size_gb == size_gb,
            !r.encrypted,
            r.fstype@ == "ext4"@,
            r.require_unique_zone,
            r.compute matches Some(c) && c.cpu_kind matches Some(k) && k@ == "shared"@
                && c.cpus == Some(1u32) && c.memory_mb == Some(512u32),
            r.snapshot_id is None,
            r.snapshot_retention is None,
            r.source_volume_id is None,
    {
        CreateVolumeRequestBuilder::new(name.to_owned(), region, size_gb)
    }
}

/// Assembles a volume creation request; unset fields keep the documented
/// defaults: `fstype` is `ext4`, a unique zone is required, and the volume
/// is not encrypted.
pub struct CreateVolumeRequestBuilder {
    pub name: String,
    pub region: MachineRegions,
    pub size_gb: u64,
    pub encrypted: bool,
    pub fstype: String,
    pub require_unique_zone: bool,
    pub compute: Option<Compute>,
    pub snapshot_id: Option<String>,
    pub snapshot_retention: Option<u32>,
    pub source_volume_id: Option<String>,
}

impl CreateVolumeRequestBuilder {
    /// The defaults: `fstype="ext4"`, `require_unique_zone=true`,
    /// `encrypted=false`, and the stock compute sizing.
    pub fn new(name: String, region: MachineRegions, size_gb: u64) -> (r: Self)
        ensures
            r.name == name,
            r.region == region,
            r.size_gb == size_gb,
            !r.encrypted,
            r.fstype@ == "ext4"@,
            r.require_unique_zone,
            r.compute matches Some(c) && c.cpu_kind matches Some(k) && k@ == "shared"@
                && c.cpus == Some(1u32) && c.memory_mb == Some(512u32) && c.gpu_kind is None
                && c.gpus is None && c.host_dedication_id is None && c.kernel_args is None
                && c.compute_image is None,
            r.snapshot_id is None,
            r.snapshot_retention is None,
            r.source_volume_id is None,
    {
        Self {
            name,
            region,
            size_gb,
            encrypted: false,
            fstype: "ext4".to_owned(),
            require_unique_zone: true,
            compute: Some(Compute::default()),
            snapshot_id: None,
            snapshot_retention: None,
            source_volume_id: None,
        }
    }

    /// Whether the volume is encrypted at rest.
    pub fn encrypted(self, encrypted: bool) -> (r: Self)
        ensures
            r.encrypted == encrypted,
            r.name == self.name,
            r.region == self.region,
            r.size_gb == self.size_gb,
            r.fstype == self.fstype,
            r.require_unique_zone == self.require_unique_zone,
            r.compute == self.compute,
            r.snapshot_id == self.snapshot_id,
            r.snapshot_retention == self.snapshot_retention,
            r.source_volume_id == self.source_volume_id,
    {
        Self { encrypted, ..self }
    }

    /// The file system the volume is formatted with.
    pub fn fstype(self, fstype: String) -> (r: Self)
        ensures
            r.fstype == fstype,
            r.name == self.name,
            r.region == self.region,
            r.size_gb == self.size_gb,
            r.encrypted == self.encrypted,
            r.require_unique_zone == self.require_unique_zone,
            r.compute == self.compute,
            r.snapshot_id == self.snapshot_id,
            r.snapshot_retention == self.snapshot_retention,
            r.source_volume_id == self.source_volume_id,
    {
        Self { fstype, ..self }
    }

    /// Whether the volume must land in a zone of its own.
    pub fn require_unique_zone(self, require_unique_zone: bool) -> (r: Self)
        ensures
            r.require_unique_zone == require_unique_zone,
            r.name == self.name,
            r.region == self.region,
            r.size_gb == self.size_gb,
            r.encrypted == self.encrypted,
            r.fstype == self.fstype,
            r.compute == self.compute,
            r.snapshot_id == self.snapshot_id,
            r.snapshot_retention == self.snapshot_retention,
            r.source_volume_id == self.source_volume_id,
    {
        Self { require_unique_zone, ..self }
    }

    /// The compute sizing the volume is placed for.
    pub fn compute(self, compute: Compute) -> (r: Self)
        ensures
            r.compute == Some(compute),
            r.name == self.name,
            r.region == self.region,
            r.size_gb == self.size_gb,
            r.encrypted == self.encrypted,
            r.fstype == self.fstype,
            r.require_unique_zone == self.require_unique_zone,
            r.snapshot_id == self.snapshot_id,
            r.snapshot_retention == self.snapshot_retention,
            r.source_volume_id == self.source_volume_id,
    {
        Self { compute: Some(compute), ..self }
    }

    /// The snapshot the volume is restored from, if any.
    pub fn snapshot_id(self, snapshot_id: Option<String>) -> (r: Self)
        ensures
            r.snapshot_id == snapshot_id,
            r.name == self.name,
            r.region == self.region,
            r.size_gb == self.size_gb,
            r.encrypted == self.encrypted,
            r.fstype == self.fstype,
            r.require_unique_zone == self.require_unique_zone,
            r.compute == self.compute,
            r.snapshot_retention == self.snapshot_retention,
            r.source_volume_id == self.source_volume_id,
    {
        Self { snapshot_id, ..self }
    }

    /// How many days snapshots are kept, if set.
    pub fn snapshot_retention(self, snapshot_retention: Option<u32>) -> (r: Self)
        ensures
            r.snapshot_retention == snapshot_retention,
            r.name == self.name,
            r.region == self.region,
            r.size_gb == self.size_gb,
            r.encrypted == self.encrypted,
            r.fstype == self.fstype,
            r.require_unique_zone == self.require_unique_zone,
            r.compute == self.compute,
            r.snapshot_id == self.snapshot_id,
            r.source_volume_id == self.source_volume_id,
    {
        Self { snapshot_retention, ..self }
    }

    /// The volume this one is forked from, if any.
    pub fn source_volume_id(self, source_volume_id: Option<String>) -> (r: Self)
        ensures
            r.source_volume_id == source_volume_id,
            r.name == self.name,
            r.region == self.region,
            r.size_gb == self.size_gb,
            r.encrypted == self.encrypted,
            r.fstype == self.fstype,
            r.require_unique_zone == self.require_unique_zone,
            r.compute == self.compute,
            r.snapshot_id == self.snapshot_id,
            r.snapshot_retention == self.snapshot_retention,
    {
        Self { source_volume_id, ..self }
    }

    /// The assembled request.
    pub fn build(self) -> (r: CreateVolumeRequest)
        ensures
            r.name == self.name,
            r.region == self.region,
            r.size_gb == self.size_gb,
            r.encrypted == self.encrypted,
            r.fstype == self.fstype,
            r.require_unique_zone == self.require_unique_zone,
            r.compute == self.compute,
            r.snapshot_id == self.snapshot_id,
            r.snapshot_retention == self.snapshot_retention,
            r.source_volume_id == self.source_volume_id,
    {
        CreateVolumeRequest {
            name: self.name,
            region: self.region,
            size_gb: self.size_gb,
            encrypted: self.encrypted,
            fstype: self.fstype,
            require_unique_zone: self.require_unique_zone,
            compute: self.compute,
            snapshot_id: self.snapshot_id,
            snapshot_retention: self.snapshot_retention,
            source_volume_id: self.source_volume_id,
        }
    }
}

/// The volumes collection of an application.
pub open spec fn volumes_url_text(endpoint: Seq<char>, app: Seq<char>) -> Seq<char> {
    endpoint + "/apps/"@ + app + "/volumes"@
}

/// One volume of an application.
pub open spec fn volume_url_text(endpoint: Seq<char>, app: Seq<char>, id: Seq<char>) -> Seq<
    char,
> {
    volumes_url_text(endpoint, app) + "/"@ + id
}

/// The volume carried by a successful response body.
pub open spec fn volume_payload(rv: FetchResultV) -> Option<VolumeV> {
    match rv {
        FetchResultV::Response(resp) => match resp.json {
            Some(j) => volume_of_jv(j),
            None => None,
        },
        _ => None,
    }
}

/// The array of volumes carried by a successful response body.
pub open spec fn volume_list_payload(rv: FetchResultV) -> Option<Seq<VolumeV>> {
    match rv {
        FetchResultV::Response(resp) => match resp.json {
            Some(JsonV::Arr(items)) => volume_seq_of(items),
            _ => None,
        },
        _ => None,
    }
}

/// The array of snapshots carried by a successful response body.
pub open spec fn snapshot_list_payload(rv: FetchResultV) -> Option<Seq<SnapshotV>> {
    match rv {
        FetchResultV::Response(resp) => match resp.json {
            Some(JsonV::Arr(items)) => snapshot_seq_of(items),
            _ => None,
        },
        _ => None,
    }
}

/// Decodes an array of volumes.
fn volumes_from_json(j: &Json) -> (r: Option<Vec<Volume>>)
    ensures
        r.deep_view() == (match j.deep_view() {
            JsonV::Arr(items) => volume_seq_of(items),
            _ => None,
        }),
{
    match j {
        Json::Arr(items) => {
            let ghost iv = json_seq_view(items@);
            let mut out: Vec<Volume> = Vec::new();
            let n = items.len();
            for i in 0..n
                invariant
                    n == items.len(),
                    iv == json_seq_view(items@),
                    j.deep_view() == JsonV::Arr(iv),
                    iv.len() == n,
                    out@.len() == i,
                    forall|p: int| 0 <= p < i ==> volume_of_jv(#[trigger] iv[p]) is Some,
                    forall|p: int| 0 <= p < i ==> (#[trigger] out@[p]).deep_view()
                        == volume_of_jv(iv[p])->0,
            {
                match Volume::from_json(&items[i]) {
                    Some(x) => { out.push(x); },
                    None => {
                        proof {
                            assert(volume_of_jv(iv[i as int]) is None);
                        }
                        return None;
                    },
                }
            }
            proof {
                assert(out.deep_view() =~= volume_seq_of(iv)->0);
            }
            Some(out)
        },
        _ => None,
    }
}

/// Decodes an array of snapshots.
fn snapshots_from_json(j: &Json) -> (r: Option<Vec<Snapshot>>)
    ensures
        r.deep_view() == (match j.deep_view() {
            JsonV::Arr(items) => snapshot_seq_of(items),
            _ => None,
        }),
{
    match j {
        Json::Arr(items) => {
            let ghost iv = json_seq_view(items@);
            let mut out: Vec<Snapshot> = Vec::new();
            let n = items.len();
            for i in 0..n
                invariant
                    n == items.len(),
                    iv == json_seq_view(items@),
                    j.deep_view() == JsonV::Arr(iv),
                    iv.len() == n,
                    out@.len() == i,
                    forall|p: int| 0 <= p < i ==> snapshot_of_jv(#[trigger] iv[p]) is Some,
                    forall|p: int| 0 <= p < i ==> (#[trigger] out@[p]).deep_view()
                        == snapshot_of_jv(iv[p])->0,
            {
                match Snapshot::from_json(&items[i]) {
                    Some(x) => { out.push(x); },
                    None => {
                        proof {
                            assert(snapshot_of_jv(iv[i as int]) is None);
                        }
                        return None;
                    },
                }
            }
            proof {
                assert(out.deep_view() =~= snapshot_seq_of(iv)->0);
            }
            Some(out)
        },
        _ => None,
    }
}

/// Manages the volumes of an application.  Every mutating operation is a
/// single request and response; unlike machines, no wait-for-state step
/// follows a volume operation.
pub struct VolumeManager {
    /// The base URL every volume route is built on.
    pub endpoint: String,
    /// The bearer token attached to every request.
    pub api_token: String,
}

impl VolumeManager {
    /// A manager sending bearer-authenticated requests against an endpoint.
    pub fn new(endpoint: String, api_token: String) -> (r: Self)
        ensures
            r.endpoint == endpoint,
            r.api_token == api_token,
    {
        Self { endpoint, api_token }
    }

    /// `{endpoint}/apps/{app}/volumes`.
    fn volumes_url(&self, app_name: &str) -> (s: String)
        ensures
            s@ == volumes_url_text(self.endpoint@, app_name@),
    {
        let mut s = self.endpoint.clone();
        s.append("/apps/");
        s.append(app_name);
        s.append("/volumes");
        s
    }

    /// `{endpoint}/apps/{app}/volumes/{id}`.
    fn volume_url(&self, app_name: &str, volume_id: &str) -> (s: String)
        ensures
            s@ == volume_url_text(self.endpoint@, app_name@, volume_id@),
    {
        let mut s = self.volumes_url(app_name);
        s.append("/");
        s.append(volume_id);
        s
    }

    /// The request listing the volumes of an application; `summary` selects
    /// the shortened listing.
    pub fn list_volumes(&self, app_name: &str, summary: bool) -> (r: Request)
        ensures
            r.method == Method::Get,
            r.url@ == volumes_url_text(self.endpoint@, app_name@),
            r.query.deep_view() == seq![
                ("summary"@, if summary { "true"@ } else { "false"@ }),
            ],
            r.body is None,
            r.bearer@ == self.api_token@,
    {
        let flag = if summary {
            "true".to_owned()
        } else {
            "false".to_owned()
        };
        let mut query: Vec<(String, String)> = Vec::new();
        query.push(("summary".to_owned(), flag));
        proof {
            assert(query.deep_view() =~= seq![
                ("summary"@, if summary { "true"@ } else { "false"@ }),
            ]);
        }
        Request {
            method: Method::Get,
            url: self.volumes_url(app_name),
            query,
            body: None,
            bearer: self.api_token.clone(),
        }
    }

    /// The volumes listed, for each outcome of the list request.
    pub fn list_volumes_response(r: &FetchResult) -> (out: Result<Vec<Volume>, ApiError>)
        ensures
            result_matches(
                out,
                interpreted(r.deep_view(), None, volume_list_payload(r.deep_view())),
            ),
    {
        match r {
            FetchResult::Failed(m) => Err(ApiError::Transport(m.clone())),
            FetchResult::TimedOut => Err(ApiError::TimedOut),
            FetchResult::Response(resp) => {
                if !(200 <= resp.status && resp.status < 300) {
                    Err(ApiError::Status(resp.status, resp.body.clone()))
                } else {
                    let decoded = match &resp.json {
                        Some(j) => volumes_from_json(j),
                        None => None,
                    };
                    match decoded {
                        Some(vs) => Ok(vs),
                        None => Err(ApiError::Decode(resp.body.clone())),
                    }
                }
            },
        }
    }

    /// The request creating a volume.
    pub fn create_volume(&self, app_name: &str, volume_request: &CreateVolumeRequest) -> (r:
        Request)
        ensures
            r.method == Method::Post,
            r.url@ == volumes_url_text(self.endpoint@, app_name@),
            r.query.deep_view() == Seq::<(Seq<char>, Seq<char>)>::empty(),
            r.body matches Some(b) && b.deep_view() == create_volume_request_jv(
                volume_request.deep_view(),
            ),
            r.bearer@ == self.api_token@,
    {
        let r = Request {
            method: Method::Post,
            url: self.volumes_url(app_name),
            query: Vec::new(),
            body: Some(volume_request.to_json()),
            bearer: self.api_token.clone(),
        };
        proof {
            assert(r.query.deep_view() =~= Seq::<(Seq<char>, Seq<char>)>::empty());
        }
        r
    }

    /// The volume created, for each outcome of the create request: any 2xx
    /// status with a volume body succeeds; any other status carries the
    /// status code and the response body.
    pub fn create_volume_response(r: &FetchResult) -> (out: Result<Volume, ApiError>)
        ensures
            result_matches(out, interpreted(r.deep_view(), None, volume_payload(r.deep_view()))),
    {
        match r {
            FetchResult::Failed(m) => Err(ApiError::Transport(m.clone())),
            FetchResult::TimedOut => Err(ApiError::TimedOut),
            FetchResult::Response(resp) => {
                if !(200 <= resp.status && resp.status < 300) {
                    Err(ApiError::Status(resp.status, resp.body.clone()))
                } else {
                    let decoded = match &resp.json {
                        Some(j) => Volume::from_json(j),
                        None => None,
                    };
                    match decoded {
                        Some(v) => Ok(v),
                        None => Err(ApiError::Decode(resp.body.clone())),
                    }
                }
            },
        }
    }

    /// The request fetching one volume.
    pub fn get_volume(&self, app_name: &str, volume_id: &str) -> (r: Request)
        ensures
            r.method == Method::Get,
            r.url@ == volume_url_text(self.endpoint@, app_name@, volume_id@),
            r.query.deep_view() == Seq::<(Seq<char>, Seq<char>)>::empty(),
            r.body is None,
            r.bearer@ == self.api_token@,
    {
        let r = Request {
            method: Method::Get,
            url: self.volume_url(app_name, volume_id),
            query: Vec::new(),
            body: None,
            bearer: self.api_token.clone(),
        };
        proof {
            assert(r.query.deep_view() =~= Seq::<(Seq<char>, Seq<char>)>::empty());
        }
        r
    }

    /// The volume fetched, for each outcome of the get request.
    pub fn get_volume_response(r: &FetchResult) -> (out: Result<Volume, ApiError>)
        ensures
            result_matches(out, interpreted(r.deep_view(), None, volume_payload(r.deep_view()))),
    {
        Self::create_volume_response(r)
    }

    /// The request updating a volume's backup settings.
    pub fn update_volume(
        &self,
        app_name: &str,
        volume_id: &str,
        update_request: &UpdateVolumeRequest,
    ) -> (r: Request)
        ensures
            r.method == Method::Put,
            r.url@ == volume_url_text(self.endpoint@, app_name@, volume_id@),
            r.query.deep_view() == Seq::<(Seq<char>, Seq<char>)>::empty(),
            r.body matches Some(b) && b.deep_view() == update_volume_request_jv(
                update_request.deep_view(),
            ),
            r.bearer@ == self.api_token@,
    {
        let r = Request {
            method: Method::Put,
            url: self.volume_url(app_name, volume_id),
            query: Vec::new(),
            body: Some(update_request.to_json()),
            bearer: self.api_token.clone(),
        };
        proof {
            assert(r.query.deep_view() =~= Seq::<(Seq<char>, Seq<char>)>::empty());
        }
        r
    }

    /// The volume updated, for each outcome of the update request.
    pub fn update_volume_response(r: &FetchResult) -> (out: Result<Volume, ApiError>)
        ensures
            result_matches(out, interpreted(r.deep_view(), None, volume_payload(r.deep_view()))),
    {
        Self::create_volume_response(r)
    }

    /// The request destroying a volume.
    pub fn destroy_volume(&self, app_name: &str, volume_id: &str) -> (r: Request)
        ensures
            r.method == Method::Delete,
            r.url@ == volume_url_text(self.endpoint@, app_name@, volume_id@),
            r.query.deep_view() == Seq::<(Seq<char>, Seq<char>)>::empty(),
            r.body is None,
            r.bearer@ == self.api_token@,
    {
        let r = Request {
            method: Method::Delete,
            url: self.volume_url(app_name, volume_id),
            query: Vec::new(),
            body: None,
            bearer: self.api_token.clone(),
        };
        proof {
            assert(r.query.deep_view() =~= Seq::<(Seq<char>, Seq<char>)>::empty());
        }
        r
    }

    /// The destruction outcome: any 2xx status succeeds.
    pub fn destroy_volume_response(r: &FetchResult) -> (out: Result<(), ApiError>)
        ensures
            unit_result_matches(out, interpreted(r.deep_view(), None, Some(()))),
    {
        match r {
            FetchResult::Failed(m) => Err(ApiError::Transport(m.clone())),
            FetchResult::TimedOut => Err(ApiError::TimedOut),
            FetchResult::Response(resp) => {
                if !(200 <= resp.status && resp.status < 300) {
                    Err(ApiError::Status(resp.status, resp.body.clone()))
                } else {
                    Ok(())
                }
            },
        }
    }

    /// The request growing a volume.
    pub fn extend_volume(
        &self,
        app_name: &str,
        volume_id: &str,
        extend_request: &ExtendVolumeRequest,
    ) -> (r: Request)
        ensures
            r.method == Method::Put,
            r.url@ == volume_url_text(self.endpoint@, app_name@, volume_id@) + "/extend"@,
            r.query.deep_view() == Seq::<(Seq<char>, Seq<char>)>::empty(),
            r.body matches Some(b) && b.deep_view() == extend_volume_request_jv(
                extend_request.deep_view(),
            ),
            r.bearer@ == self.api_token@,
    {
        let mut url = self.volume_url(app_name, volume_id);
        url.append("/extend");
        let r = Request {
            method: Method::Put,
            url,
            query: Vec::new(),
            body: Some(extend_request.to_json()),
            bearer: self.api_token.clone(),
        };
        proof {
            assert(r.query.deep_view() =~= Seq::<(Seq<char>, Seq<char>)>::empty());
        }
        r
    }

    /// The grown volume, for each outcome of the extend request.
    pub fn extend_volume_response(r: &FetchResult) -> (out: Result<Volume, ApiError>)
        ensures
            result_matches(out, interpreted(r.deep_view(), None, volume_payload(r.deep_view()))),
    {
        Self::create_volume_response(r)
    }

    /// The request listing the snapshots of a volume.
    pub fn list_snapshots(&self, app_name: &str, volume_id: &str) -> (r: Request)
        ensures
            r.method == Method::Get,
            r.url@ == volume_url_text(self.endpoint@, app_name@, volume_id@) + "/snapshots"@,
            r.query.deep_view() == Seq::<(Seq<char>, Seq<char>)>::empty(),
            r.body is None,
            r.bearer@ == self.api_token@,
    {
        let mut url = self.volume_url(app_name, volume_id);
        url.append("/snapshots");
        let r = Request {
            method: Method::Get,
            url,
            query: Vec::new(),
            body: None,
            bearer: self.api_token.clone(),
        };
        proof {
            assert(r.query.deep_view() =~= Seq::<(Seq<char>, Seq<char>)>::empty());
        }
        r
    }

    /// The snapshots listed, for each outcome of the snapshot listing.
    pub fn list_snapshots_response(r: &FetchResult) -> (out: Result<Vec<Snapshot>, ApiError>)
        ensures
            result_matches(
                out,
                interpreted(r.deep_view(), None, snapshot_list_payload(r.deep_view())),
            ),
    {
        match r {
            FetchResult::Failed(m) => Err(ApiError::Transport(m.clone())),
            FetchResult::TimedOut => Err(ApiError::TimedOut),
            FetchResult::Response(resp) => {
                if !(200 <= resp.status && resp.status < 300) {
                    Err(ApiError::Status(resp.status, resp.body.clone()))
                } else {
                    let decoded = match &resp.json {
                        Some(j) => snapshots_from_json(j),
                        None => None,
                    };
                    match decoded {
                        Some(ss) => Ok(ss),
                        None => Err(ApiError::Decode(resp.body.clone())),
                    }
                }
            },
        }
    }

    /// The request taking a snapshot of a volume.
    pub fn create_snapshot(&self, app_name: &str, volume_id: &str) -> (r: Request)
        ensures
            r.method == Method::Post,
            r.url@ == volume_url_text(self.endpoint@, app_name@, volume_id@) + "/snapshots"@,
            r.query.deep_view() == Seq::<(Seq<char>, Seq<char>)>::empty(),
            r.body is None,
            r.bearer@ == self.api_token@,
    {
        let mut url = self.volume_url(app_name, volume_id);
        url.append("/snapshots");
        let r = Request {
            method: Method::Post,
            url,
            query: Vec::new(),
            body: None,
            bearer: self.api_token.clone(),
        };
        proof {
            assert(r.query.deep_view() =~= Seq::<(Seq<char>, Seq<char>)>::empty());
        }
        r
    }

    /// The snapshot outcome: any 2xx status succeeds.
    pub fn create_snapshot_response(r: &FetchResult) -> (out: Result<(), ApiError>)
        ensures
            unit_result_matches(out, interpreted(r.deep_view(), None, Some(()))),
    {
        Self::destroy_volume_response(r)
    }
}

} // verus!
