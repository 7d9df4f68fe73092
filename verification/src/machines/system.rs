//! System-level machine configuration: init, mounts, files, static assets,
//! metrics and stop behaviour.

use super::{jv_opt_timeout, opt_timeout_field, timeout_config_jv, TimeoutConfig};
use crate::json::{
    jv_opt_bool, jv_opt_str, jv_opt_str_arr, jv_opt_u32, jv_opt_uint, jv_req_str, jv_req_u16,
    jv_str_seq, opt_member, str_seq_jv, Json, JsonV,
};
use vstd::prelude::*;

verus! {

broadcast use crate::json::lemma_lookup_push, vstd::string::group_string_axioms, vstd::seq::group_seq_axioms, vstd::std_specs::vec::group_vec_axioms;

/// Init process configuration of a machine.
#[derive(Clone, Debug)]
pub struct InitConfig {
    pub cmd: Option<Vec<String>>,
    pub entrypoint: Option<Vec<String>>,
    pub exec_cmd: Option<Vec<String>>,
    pub kernel_args: Option<Vec<String>>,
    pub swap_size_mb: Option<u64>,
    pub tty: Option<bool>,
}

#[verifier::ext_equal]
pub struct InitConfigV {
    pub cmd: Option<Seq<Seq<char>>>,
    pub entrypoint: Option<Seq<Seq<char>>>,
    pub exec_cmd: Option<Seq<Seq<char>>>,
    pub kernel_args: Option<Seq<Seq<char>>>,
    pub swap_size_mb: Option<u64>,
    pub tty: Option<bool>,
}

impl DeepView for InitConfig {
    type V = InitConfigV;

    open spec fn deep_view(&self) -> InitConfigV {
        InitConfigV {
            cmd: self.cmd.deep_view(),
            entrypoint: self.entrypoint.deep_view(),
            exec_cmd: self.exec_cmd.deep_view(),
            kernel_args: self.kernel_args.deep_view(),
            swap_size_mb: self.swap_size_mb,
            tty: self.tty,
        }
    }
}

pub open spec fn init_config_jv(c: InitConfigV) -> JsonV {
    let m = Seq::<(Seq<char>, JsonV)>::empty();
    let m = opt_member(m, "cmd"@, match c.cmd {
        None => None,
        Some(a) => Some(JsonV::Arr(str_seq_jv(a))),
    });
    let m = opt_member(m, "entrypoint"@, match c.entrypoint {
        None => None,
        Some(a) => Some(JsonV::Arr(str_seq_jv(a))),
    });
    let m = opt_member(m, "exec"@, match c.exec_cmd {
        None => None,
        Some(a) => Some(JsonV::Arr(str_seq_jv(a))),
    });
    let m = opt_member(m, "kernel_args"@, match c.kernel_args {
        None => None,
        Some(a) => Some(JsonV::Arr(str_seq_jv(a))),
    });
    let m = opt_member(m, "swap_size_mb"@, match c.swap_size_mb {
        None => None,
        Some(n) => Some(JsonV::UInt(n)),
    });
    let m = opt_member(m, "tty"@, match c.tty {
        None => None,
        Some(b) => Some(JsonV::Bool(b)),
    });
    JsonV::Obj(m)
}

pub open spec fn init_config_of_jv(j: JsonV) -> Option<InitConfigV> {
    if !(j is Obj) {
        None
    } else if jv_opt_str_arr(j, "cmd"@) is None || jv_opt_str_arr(j, "entrypoint"@) is None
        || jv_opt_str_arr(j, "exec"@) is None || jv_opt_str_arr(j, "kernel_args"@) is None
        || jv_opt_uint(j, "swap_size_mb"@) is None || jv_opt_bool(j, "tty"@) is None {
        None
    } else {
        Some(InitConfigV {
            cmd: jv_opt_str_arr(j, "cmd"@)->0,
            entrypoint: jv_opt_str_arr(j, "entrypoint"@)->0,
            exec_cmd: jv_opt_str_arr(j, "exec"@)->0,
            kernel_args: jv_opt_str_arr(j, "kernel_args"@)->0,
            swap_size_mb: jv_opt_uint(j, "swap_size_mb"@)->0,
            tty: jv_opt_bool(j, "tty"@)->0,
        })
    }
}

impl InitConfig {
    pub fn to_json(&self) -> (j: Json)
        ensures
            j.deep_view() == init_config_jv(self.deep_view()),
    {
        let mut m: Vec<(String, Json)> = Vec::new();
        if let Some(a) = &self.cmd {
            m.push(("cmd".to_owned(), Json::from_strings(a)));
        }
        if let Some(a) = &self.entrypoint {
            m.push(("entrypoint".to_owned(), Json::from_strings(a)));
        }
        if let Some(a) = &self.exec_cmd {
            m.push(("exec".to_owned(), Json::from_strings(a)));
        }
        if let Some(a) = &self.kernel_args {
            m.push(("kernel_args".to_owned(), Json::from_strings(a)));
        }
        if let Some(n) = &self.swap_size_mb {
            m.push(("swap_size_mb".to_owned(), Json::UInt(*n)));
        }
        if let Some(b) = &self.tty {
            m.push(("tty".to_owned(), Json::Bool(*b)));
        }
        let j = Json::Obj(m);
        proof {
            let ghost mv = m@;
            let ghost sv = init_config_jv(self.deep_view())->Obj_0;
            assert(crate::json::json_pairs_view(mv).len() == sv.len());
            assert(crate::json::json_pairs_view(mv) =~= sv);
        }
        j
    }

    pub fn from_json(j: &Json) -> (r: Option<Self>)
        ensures
            r.deep_view() == init_config_of_jv(j.deep_view()),
    {
        match j {
            Json::Obj(_) => {},
            _ => { return None; },
        }
        let cmd = match j.opt_str_arr("cmd") {
            Some(v) => v,
            None => { return None; },
        };
        let entrypoint = match j.opt_str_arr("entrypoint") {
            Some(v) => v,
            None => { return None; },
        };
        let exec_cmd = match j.opt_str_arr("exec") {
            Some(v) => v,
            None => { return None; },
        };
        let kernel_args = match j.opt_str_arr("kernel_args") {
            Some(v) => v,
            None => { return None; },
        };
        let swap_size_mb = match j.opt_uint("swap_size_mb") {
            Some(v) => v,
            None => { return None; },
        };
        let tty = match j.opt_bool("tty") {
            Some(v) => v,
            None => { return None; },
        };
        Some(InitConfig { cmd, entrypoint, exec_cmd, kernel_args, swap_size_mb, tty })
    }
}

/// Encoding an init configuration and decoding it yields the original value.
pub proof fn lemma_init_config_round_trip(c: InitConfigV)
    ensures
        init_config_of_jv(init_config_jv(c)) == Some(c),
{
    reveal_strlit("cmd");
    reveal_strlit("entrypoint");
    reveal_strlit("exec");
    reveal_strlit("kernel_args");
    reveal_strlit("swap_size_mb");
    reveal_strlit("tty");
    assert("cmd"@.len() == 3);
    assert("entrypoint"@.len() == 10);
    assert("exec"@.len() == 4);
    assert("kernel_args"@.len() == 11);
    assert("swap_size_mb"@.len() == 12);
    assert("tty"@.len() == 3);
    assert("cmd"@[0] == 'c');
    assert("tty"@[0] == 't');
    let e = init_config_jv(c);
    assert(jv_opt_str_arr(e, "cmd"@) == Some(c.cmd)) by {
        if c.cmd is Some {
            assert(jv_str_seq(str_seq_jv(c.cmd->0))->0 =~= c.cmd->0);
        }
    }
    assert(jv_opt_str_arr(e, "entrypoint"@) == Some(c.entrypoint)) by {
        if c.entrypoint is Some {
            assert(jv_str_seq(str_seq_jv(c.entrypoint->0))->0 =~= c.entrypoint->0);
        }
    }
    assert(jv_opt_str_arr(e, "exec"@) == Some(c.exec_cmd)) by {
        if c.exec_cmd is Some {
            assert(jv_str_seq(str_seq_jv(c.exec_cmd->0))->0 =~= c.exec_cmd->0);
        }
    }
    assert(jv_opt_str_arr(e, "kernel_args"@) == Some(c.kernel_args)) by {
        if c.kernel_args is Some {
            assert(jv_str_seq(str_seq_jv(c.kernel_args->0))->0 =~= c.kernel_args->0);
        }
    }
    assert(jv_opt_uint(e, "swap_size_mb"@) == Some(c.swap_size_mb));
    assert(jv_opt_bool(e, "tty"@) == Some(c.tty));
    assert(init_config_of_jv(e)->0 =~= c);
    assert(init_config_of_jv(e) == Some(c));
}

/// A volume mounted into a machine.
#[derive(Clone, Debug)]
pub struct MountConfig {
    pub add_size_gb: Option<u64>,
    pub encrypted: Option<bool>,
    pub extend_threshold_percent: Option<u64>,
    pub name: Option<String>,
    pub path: String,
    pub size_gb: Option<u64>,
    pub size_gb_limit: Option<u64>,
    pub volume: String,
}

#[verifier::ext_equal]
pub struct MountConfigV {
    pub add_size_gb: Option<u64>,
    pub encrypted: Option<bool>,
    pub extend_threshold_percent: Option<u64>,
    pub name: Option<Seq<char>>,
    pub path: Seq<char>,
    pub size_gb: Option<u64>,
    pub size_gb_limit: Option<u64>,
    pub volume: Seq<char>,
}

impl DeepView for MountConfig {
    type V = MountConfigV;

    open spec fn deep_view(&self) -> MountConfigV {
        MountConfigV {
            add_size_gb: self.add_size_gb,
            encrypted: self.encrypted,
            extend_threshold_percent: self.extend_threshold_percent,
            name: self.name.deep_view(),
            path: self.path@,
            size_gb: self.size_gb,
            size_gb_limit: self.size_gb_limit,
            volume: self.volume@,
        }
    }
}

pub open spec fn mount_config_jv(c: MountConfigV) -> JsonV {
    let m = Seq::<(Seq<char>, JsonV)>::empty();
    let m = opt_member(m, "add_size_gb"@, match c.add_size_gb {
        None => None,
        Some(n) => Some(JsonV::UInt(n)),
    });
    let m = opt_member(m, "encrypted"@, match c.encrypted {
        None => None,
        Some(b) => Some(JsonV::Bool(b)),
    });
    let m = opt_member(m, "extend_threshold_percent"@, match c.extend_threshold_percent {
        None => None,
        Some(n) => Some(JsonV::UInt(n)),
    });
    let m = opt_member(m, "name"@, match c.name {
        None => None,
        Some(s) => Some(JsonV::Str(s)),
    });
    let m = m.push(("path"@, JsonV::Str(c.path)));
    let m = opt_member(m, "size_gb"@, match c.size_gb {
        None => None,
        Some(n) => Some(JsonV::UInt(n)),
    });
    let m = opt_member(m, "size_gb_limit"@, match c.size_gb_limit {
        None => None,
        Some(n) => Some(JsonV::UInt(n)),
    });
    let m = m.push(("volume"@, JsonV::Str(c.volume)));
    JsonV::Obj(m)
}

pub open spec fn mount_config_of_jv(j: JsonV) -> Option<MountConfigV> {
    if !(j is Obj) {
        None
    } else if jv_opt_uint(j, "add_size_gb"@) is None || jv_opt_bool(j, "encrypted"@) is None
        || jv_opt_uint(j, "extend_threshold_percent"@) is None || jv_opt_str(j, "name"@) is None
        || jv_req_str(j, "path"@) is None || jv_opt_uint(j, "size_gb"@) is None
        || jv_opt_uint(j, "size_gb_limit"@) is None || jv_req_str(j, "volume"@) is None {
        None
    } else {
        Some(MountConfigV {
            add_size_gb: jv_opt_uint(j, "add_size_gb"@)->0,
            encrypted: jv_opt_bool(j, "encrypted"@)->0,
            extend_threshold_percent: jv_opt_uint(j, "extend_threshold_percent"@)->0,
            name: jv_opt_str(j, "name"@)->0,
            path: jv_req_str(j, "path"@)->0,
            size_gb: jv_opt_uint(j, "size_gb"@)->0,
            size_gb_limit: jv_opt_uint(j, "size_gb_limit"@)->0,
            volume: jv_req_str(j, "volume"@)->0,
        })
    }
}

impl MountConfig {
    pub fn to_json(&self) -> (j: Json)
        ensures
            j.deep_view() == mount_config_jv(self.deep_view()),
    {
        let mut m: Vec<(String, Json)> = Vec::new();
        if let Some(n) = &self.add_size_gb {
            m.push(("add_size_gb".to_owned(), Json::UInt(*n)));
        }
        if let Some(b) = &self.encrypted {
            m.push(("encrypted".to_owned(), Json::Bool(*b)));
        }
        if let Some(n) = &self.extend_threshold_percent {
            m.push(("extend_threshold_percent".to_owned(), Json::UInt(*n)));
        }
        if let Some(s) = &self.name {
            m.push(("name".to_owned(), Json::Str(s.clone())));
        }
        m.push(("path".to_owned(), Json::Str(self.path.clone())));
        if let Some(n) = &self.size_gb {
            m.push(("size_gb".to_owned(), Json::UInt(*n)));
        }
        if let Some(n) = &self.size_gb_limit {
            m.push(("size_gb_limit".to_owned(), Json::UInt(*n)));
        }
        m.push(("volume".to_owned(), Json::Str(self.volume.clone())));
        let j = Json::Obj(m);
        proof {
            let ghost mv = m@;
            let ghost sv = mount_config_jv(self.deep_view())->Obj_0;
            assert(crate::json::json_pairs_view(mv).len() == sv.len());
            assert(crate::json::json_pairs_view(mv) =~= sv);
        }
        j
    }

    pub fn from_json(j: &Json) -> (r: Option<Self>)
        ensures
            r.deep_view() == mount_config_of_jv(j.deep_view()),
    {
        match j {
            Json::Obj(_) => {},
            _ => { return None; },
        }
        let add_size_gb = match j.opt_uint("add_size_gb") {
            Some(v) => v,
            None => { return None; },
        };
        let encrypted = match j.opt_bool("encrypted") {
            Some(v) => v,
            None => { return None; },
        };
        let extend_threshold_percent = match j.opt_uint("extend_threshold_percent") {
            Some(v) => v,
            None => { return None; },
        };
        let name = match j.opt_str("name") {
            Some(v) => v,
            None => { return None; },
        };
        let path = match j.req_str("path") {
            Some(v) => v,
            None => { return None; },
        };
        let size_gb = match j.opt_uint("size_gb") {
            Some(v) => v,
            None => { return None; },
        };
        let size_gb_limit = match j.opt_uint("size_gb_limit") {
            Some(v) => v,
            None => { return None; },
        };
        let volume = match j.req_str("volume") {
            Some(v) => v,
            None => { return None; },
        };
        Some(MountConfig {
            add_size_gb,
            encrypted,
            extend_threshold_percent,
            name,
            path,
            size_gb,
            size_gb_limit,
            volume,
        })
    }
}

/// Encoding a mount and decoding it yields the original value.
pub proof fn lemma_mount_config_round_trip(c: MountConfigV)
    ensures
        mount_config_of_jv(mount_config_jv(c)) == Some(c),
{
    reveal_strlit("add_size_gb");
    reveal_strlit("encrypted");
    reveal_strlit("extend_threshold_percent");
    reveal_strlit("name");
    reveal_strlit("path");
    reveal_strlit("size_gb");
    reveal_strlit("size_gb_limit");
    reveal_strlit("volume");
    assert("add_size_gb"@.len() == 11);
    assert("encrypted"@.len() == 9);
    assert("extend_threshold_percent"@.len() == 24);
    assert("name"@.len() == 4);
    assert("path"@.len() == 4);
    assert("size_gb"@.len() == 7);
    assert("size_gb_limit"@.len() == 13);
    assert("volume"@.len() == 6);
    assert("name"@[0] == 'n');
    assert("path"@[0] == 'p');
    let e = mount_config_jv(c);
    assert(jv_opt_uint(e, "add_size_gb"@) == Some(c.add_size_gb));
    assert(jv_opt_bool(e, "encrypted"@) == Some(c.encrypted));
    assert(jv_opt_uint(e, "extend_threshold_percent"@) == Some(c.extend_threshold_percent));
    assert(jv_opt_str(e, "name"@) == Some(c.name));
    assert(jv_req_str(e, "path"@) == Some(c.path));
    assert(jv_opt_uint(e, "size_gb"@) == Some(c.size_gb));
    assert(jv_opt_uint(e, "size_gb_limit"@) == Some(c.size_gb_limit));
    assert(jv_req_str(e, "volume"@) == Some(c.volume));
    assert(mount_config_of_jv(e)->0 =~= c);
    assert(mount_config_of_jv(e) == Some(c));
}

/// A file placed into the machine's file system.
#[derive(Clone, Debug)]
pub struct FileConfig {
    pub guest_path: String,
    pub mode: Option<u32>,
    pub raw_value: Option<String>,
    pub secret_name: Option<String>,
}

#[verifier::ext_equal]
pub struct FileConfigV {
    pub guest_path: Seq<char>,
    pub mode: Option<u32>,
    pub raw_value: Option<Seq<char>>,
    pub secret_name: Option<Seq<char>>,
}

impl DeepView for FileConfig {
    type V = FileConfigV;

    open spec fn deep_view(&self) -> FileConfigV {
        FileConfigV {
            guest_path: self.guest_path@,
            mode: self.mode,
            raw_value: self.raw_value.deep_view(),
            secret_name: self.secret_name.deep_view(),
        }
    }
}

pub open spec fn file_config_jv(c: FileConfigV) -> JsonV {
    let m = Seq::<(Seq<char>, JsonV)>::empty();
    let m = m.push(("guest_path"@, JsonV::Str(c.guest_path)));
    let m = opt_member(m, "mode"@, match c.mode {
        None => None,
        Some(n) => Some(JsonV::UInt(n as u64)),
    });
    let m = opt_member(m, "raw_value"@, match c.raw_value {
        None => None,
        Some(s) => Some(JsonV::Str(s)),
    });
    let m = opt_member(m, "secret_name"@, match c.secret_name {
        None => None,
        Some(s) => Some(JsonV::Str(s)),
    });
    JsonV::Obj(m)
}

pub open spec fn file_config_of_jv(j: JsonV) -> Option<FileConfigV> {
    if !(j is Obj) {
        None
    } else if jv_req_str(j, "guest_path"@) is None || jv_opt_u32(j, "mode"@) is None
        || jv_opt_str(j, "raw_value"@) is None || jv_opt_str(j, "secret_name"@) is None {
        None
    } else {
        Some(FileConfigV {
            guest_path: jv_req_str(j, "guest_path"@)->0,
            mode: jv_opt_u32(j, "mode"@)->0,
            raw_value: jv_opt_str(j, "raw_value"@)->0,
            secret_name: jv_opt_str(j, "secret_name"@)->0,
        })
    }
}

impl FileConfig {
    pub fn to_json(&self) -> (j: Json)
        ensures
            j.deep_view() == file_config_jv(self.deep_view()),
    {
        let mut m: Vec<(String, Json)> = Vec::new();
        m.push(("guest_path".to_owned(), Json::Str(self.guest_path.clone())));
        if let Some(n) = &self.mode {
            m.push(("mode".to_owned(), Json::UInt(*n as u64)));
        }
        if let Some(s) = &self.raw_value {
            m.push(("raw_value".to_owned(), Json::Str(s.clone())));
        }
        if let Some(s) = &self.secret_name {
            m.push(("secret_name".to_owned(), Json::Str(s.clone())));
        }
        let j = Json::Obj(m);
        proof {
            let ghost mv = m@;
            let ghost sv = file_config_jv(self.deep_view())->Obj_0;
            assert(crate::json::json_pairs_view(mv).len() == sv.len());
            assert(crate::json::json_pairs_view(mv) =~= sv);
        }
        j
    }

    pub fn from_json(j: &Json) -> (r: Option<Self>)
        ensures
            r.deep_view() == file_config_of_jv(j.deep_view()),
    {
        match j {
            Json::Obj(_) => {},
            _ => { return None; },
        }
        let guest_path = match j.req_str("guest_path") {
            Some(v) => v,
            None => { return None; },
        };
        let mode = match j.opt_u32("mode") {
            Some(v) => v,
            None => { return None; },
        };
        let raw_value = match j.opt_str("raw_value") {
            Some(v) => v,
            None => { return None; },
        };
        let secret_name = match j.opt_str("secret_name") {
            Some(v) => v,
            None => { return None; },
        };
        Some(FileConfig { guest_path, mode, raw_value, secret_name })
    }
}

/// Encoding a file entry and decoding it yields the original value.
pub proof fn lemma_file_config_round_trip(c: FileConfigV)
    ensures
        file_config_of_jv(file_config_jv(c)) == Some(c),
{
    reveal_strlit("guest_path");
    reveal_strlit("mode");
    reveal_strlit("raw_value");
    reveal_strlit("secret_name");
    assert("guest_path"@.len() == 10);
    assert("mode"@.len() == 4);
    assert("raw_value"@.len() == 9);
    assert("secret_name"@.len() == 11);
    let e = file_config_jv(c);
    assert(jv_req_str(e, "guest_path"@) == Some(c.guest_path));
    assert(jv_opt_u32(e, "mode"@) == Some(c.mode));
    assert(jv_opt_str(e, "raw_value"@) == Some(c.raw_value));
    assert(jv_opt_str(e, "secret_name"@) == Some(c.secret_name));
    assert(file_config_of_jv(e)->0 =~= c);
    assert(file_config_of_jv(e) == Some(c));
}

/// A static asset mapping served for the machine's application.
#[derive(Clone, Debug)]
pub struct StaticConfig {
    pub guest_path: String,
    pub url_prefix: String,
    pub index_document: Option<String>,
    pub tigris_bucket: Option<String>,
}

#[verifier::ext_equal]
pub struct StaticConfigV {
    pub guest_path: Seq<char>,
    pub url_prefix: Seq<char>,
    pub index_document: Option<Seq<char>>,
    pub tigris_bucket: Option<Seq<char>>,
}

impl DeepView for StaticConfig {
    type V = StaticConfigV;

    open spec fn deep_view(&self) -> StaticConfigV {
        StaticConfigV {
            guest_path: self.guest_path@,
            url_prefix: self.url_prefix@,
            index_document: self.index_document.deep_view(),
            tigris_bucket: self.tigris_bucket.deep_view(),
        }
    }
}

pub open spec fn static_config_jv(c: StaticConfigV) -> JsonV {
    let m = Seq::<(Seq<char>, JsonV)>::empty();
    let m = m.push(("guest_path"@, JsonV::Str(c.guest_path)));
    let m = m.push(("url_prefix"@, JsonV::Str(c.url_prefix)));
    let m = opt_member(m, "index_document"@, match c.index_document {
        None => None,
        Some(s) => Some(JsonV::Str(s)),
    });
    let m = opt_member(m, "tigris_bucket"@, match c.tigris_bucket {
        None => None,
        Some(s) => Some(JsonV::Str(s)),
    });
    JsonV::Obj(m)
}

pub open spec fn static_config_of_jv(j: JsonV) -> Option<StaticConfigV> {
    if !(j is Obj) {
        None
    } else if jv_req_str(j, "guest_path"@) is None || jv_req_str(j, "url_prefix"@) is None
        || jv_opt_str(j, "index_document"@) is None || jv_opt_str(j, "tigris_bucket"@) is None {
        None
    } else {
        Some(StaticConfigV {
            guest_path: jv_req_str(j, "guest_path"@)->0,
            url_prefix: jv_req_str(j, "url_prefix"@)->0,
            index_document: jv_opt_str(j, "index_document"@)->0,
            tigris_bucket: jv_opt_str(j, "tigris_bucket"@)->0,
        })
    }
}

impl StaticConfig {
    pub fn to_json(&self) -> (j: Json)
        ensures
            j.deep_view() == static_config_jv(self.deep_view()),
    {
        let mut m: Vec<(String, Json)> = Vec::new();
        m.push(("guest_path".to_owned(), Json::Str(self.guest_path.clone())));
        m.push(("url_prefix".to_owned(), Json::Str(self.url_prefix.clone())));
        if let Some(s) = &self.index_document {
            m.push(("index_document".to_owned(), Json::Str(s.clone())));
        }
        if let Some(s) = &self.tigris_bucket {
            m.push(("tigris_bucket".to_owned(), Json::Str(s.clone())));
        }
        let j = Json::Obj(m);
        proof {
            let ghost mv = m@;
            let ghost sv = static_config_jv(self.deep_view())->Obj_0;
            assert(crate::json::json_pairs_view(mv).len() == sv.len());
            assert(crate::json::json_pairs_view(mv) =~= sv);
        }
        j
    }

    pub fn from_json(j: &Json) -> (r: Option<Self>)
        ensures
            r.deep_view() == static_config_of_jv(j.deep_view()),
    {
        match j {
            Json::Obj(_) => {},
            _ => { return None; },
        }
        let guest_path = match j.req_str("guest_path") {
            Some(v) => v,
            None => { return None; },
        };
        let url_prefix = match j.req_str("url_prefix") {
            Some(v) => v,
            None => { return None; },
        };
        let index_document = match j.opt_str("index_document") {
            Some(v) => v,
            None => { return None; },
        };
        let tigris_bucket = match j.opt_str("tigris_bucket") {
            Some(v) => v,
            None => { return None; },
        };
        Some(StaticConfig { guest_path, url_prefix, index_document, tigris_bucket })
    }
}

/// Encoding a static asset mapping and decoding it yields the original value.
pub proof fn lemma_static_config_round_trip(c: StaticConfigV)
    ensures
        static_config_of_jv(static_config_jv(c)) == Some(c),
{
    reveal_strlit("guest_path");
    reveal_strlit("url_prefix");
    reveal_strlit("index_document");
    reveal_strlit("tigris_bucket");
    assert("guest_path"@.len() == 10);
    assert("url_prefix"@.len() == 10);
    assert("index_document"@.len() == 14);
    assert("tigris_bucket"@.len() == 13);
    assert("guest_path"@[0] == 'g');
    assert("url_prefix"@[0] == 'u');
    let e = static_config_jv(c);
    assert(jv_req_str(e, "guest_path"@) == Some(c.guest_path));
    assert(jv_req_str(e, "url_prefix"@) == Some(c.url_prefix));
    assert(jv_opt_str(e, "index_document"@) == Some(c.index_document));
    assert(jv_opt_str(e, "tigris_bucket"@) == Some(c.tigris_bucket));
    assert(static_config_of_jv(e)->0 =~= c);
    assert(static_config_of_jv(e) == Some(c));
}

/// Where the machine exposes Prometheus metrics.
#[derive(Clone, Debug)]
pub struct MetricsConfig {
    pub port: u16,
    pub path: String,
}

#[verifier::ext_equal]
pub struct MetricsConfigV {
    pub port: u16,
    pub path: Seq<char>,
}

impl DeepView for MetricsConfig {
    type V = MetricsConfigV;

    open spec fn deep_view(&self) -> MetricsConfigV {
        MetricsConfigV { port: self.port, path: self.path@ }
    }
}

pub open spec fn metrics_config_jv(c: MetricsConfigV) -> JsonV {
    let m = Seq::<(Seq<char>, JsonV)>::empty();
    let m = m.push(("port"@, JsonV::UInt(c.port as u64)));
    let m = m.push(("path"@, JsonV::Str(c.path)));
    JsonV::Obj(m)
}

pub open spec fn metrics_config_of_jv(j: JsonV) -> Option<MetricsConfigV> {
    if !(j is Obj) {
        None
    } else if jv_req_u16(j, "port"@) is None || jv_req_str(j, "path"@) is None {
        None
    } else {
        Some(MetricsConfigV {
            port: jv_req_u16(j, "port"@)->0,
            path: jv_req_str(j, "path"@)->0,
        })
    }
}

impl MetricsConfig {
    pub fn to_json(&self) -> (j: Json)
        ensures
            j.deep_view() == metrics_config_jv(self.deep_view()),
    {
        let mut m: Vec<(String, Json)> = Vec::new();
        m.push(("port".to_owned(), Json::UInt(self.port as u64)));
        m.push(("path".to_owned(), Json::Str(self.path.clone())));
        let j = Json::Obj(m);
        proof {
            let ghost mv = m@;
            let ghost sv = metrics_config_jv(self.deep_view())->Obj_0;
            assert(crate::json::json_pairs_view(mv).len() == sv.len());
            assert(crate::json::json_pairs_view(mv) =~= sv);
        }
        j
    }

    pub fn from_json(j: &Json) -> (r: Option<Self>)
        ensures
            r.deep_view() == metrics_config_of_jv(j.deep_view()),
    {
        match j {
            Json::Obj(_) => {},
            _ => { return None; },
        }
        let port = match j.req_u16("port") {
            Some(v) => v,
            None => { return None; },
        };
        let path = match j.req_str("path") {
            Some(v) => v,
            None => { return None; },
        };
        Some(MetricsConfig { port, path })
    }
}

/// Encoding a metrics record and decoding it yields the original value.
pub proof fn lemma_metrics_config_round_trip(c: MetricsConfigV)
    ensures
        metrics_config_of_jv(metrics_config_jv(c)) == Some(c),
{
    reveal_strlit("port");
    reveal_strlit("path");
    assert("port"@.len() == 4);
    assert("path"@.len() == 4);
    assert("port"@[1] == 'o');
    assert("path"@[1] == 'a');
    let e = metrics_config_jv(c);
    assert(jv_req_u16(e, "port"@) == Some(c.port));
    assert(jv_req_str(e, "path"@) == Some(c.path));
    assert(metrics_config_of_jv(e)->0 =~= c);
    assert(metrics_config_of_jv(e) == Some(c));
}

/// How the machine is asked to stop.
#[derive(Clone, Debug)]
pub struct StopConfig {
    pub signal: Option<String>,
    pub timeout: Option<TimeoutConfig>,
}

#[verifier::ext_equal]
pub struct StopConfigV {
    pub signal: Option<Seq<char>>,
    pub timeout: Option<TimeoutConfig>,
}

impl DeepView for StopConfig {
    type V = StopConfigV;

    open spec fn deep_view(&self) -> StopConfigV {
        StopConfigV { signal: self.signal.deep_view(), timeout: self.timeout }
    }
}

pub open spec fn stop_config_jv(c: StopConfigV) -> JsonV {
    let m = Seq::<(Seq<char>, JsonV)>::empty();
    let m = opt_member(m, "signal"@, match c.signal {
        None => None,
        Some(s) => Some(JsonV::Str(s)),
    });
    let m = opt_member(m, "timeout"@, match c.timeout {
        None => None,
        Some(t) => Some(timeout_config_jv(t)),
    });
    JsonV::Obj(m)
}

pub open spec fn stop_config_of_jv(j: JsonV) -> Option<StopConfigV> {
    if !(j is Obj) {
        None
    } else if jv_opt_str(j, "signal"@) is None || jv_opt_timeout(j, "timeout"@) is None {
        None
    } else {
        Some(StopConfigV {
            signal: jv_opt_str(j, "signal"@)->0,
            timeout: jv_opt_timeout(j, "timeout"@)->0,
        })
    }
}

impl StopConfig {
    pub fn to_json(&self) -> (j: Json)
        ensures
            j.deep_view() == stop_config_jv(self.deep_view()),
    {
        let mut m: Vec<(String, Json)> = Vec::new();
        if let Some(s) = &self.signal {
            m.push(("signal".to_owned(), Json::Str(s.clone())));
        }
        if let Some(t) = &self.timeout {
            m.push(("timeout".to_owned(), t.to_json()));
        }
        let j = Json::Obj(m);
        proof {
            let ghost mv = m@;
            let ghost sv = stop_config_jv(self.deep_view())->Obj_0;
            assert(crate::json::json_pairs_view(mv).len() == sv.len());
            assert(crate::json::json_pairs_view(mv) =~= sv);
        }
        j
    }

    pub fn from_json(j: &Json) -> (r: Option<Self>)
        ensures
            r.deep_view() == stop_config_of_jv(j.deep_view()),
    {
        match j {
            Json::Obj(_) => {},
            _ => { return None; },
        }
        let signal = match j.opt_str("signal") {
            Some(v) => v,
            None => { return None; },
        };
        let timeout = match opt_timeout_field(j, "timeout") {
            Some(v) => v,
            None => { return None; },
        };
        Some(StopConfig { signal, timeout })
    }
}

/// Encoding a stop configuration and decoding it yields the original value.
pub proof fn lemma_stop_config_round_trip(c: StopConfigV)
    ensures
        stop_config_of_jv(stop_config_jv(c)) == Some(c),
{
    reveal_strlit("signal");
    reveal_strlit("timeout");
    assert("signal"@.len() == 6);
    assert("timeout"@.len() == 7);
    let e = stop_config_jv(c);
    assert(jv_opt_str(e, "signal"@) == Some(c.signal));
    assert(jv_opt_timeout(e, "timeout"@) == Some(c.timeout));
    assert(stop_config_of_jv(e)->0 =~= c);
    assert(stop_config_of_jv(e) == Some(c));
}

} // verus!
