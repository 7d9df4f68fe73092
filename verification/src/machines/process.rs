//! Process configuration of a machine, and the shapes returned by the
//! process listing and command execution endpoints.

use crate::json::{
    json_member, json_seq_view, jv_opt_bool, jv_opt_i32, jv_opt_str, jv_opt_str_arr,
    jv_opt_str_map, jv_opt_u32, jv_opt_uint, jv_req_str, jv_str_pairs, jv_str_seq, opt_member,
    str_pairs_jv, str_seq_jv, Json, JsonV,
};
use vstd::prelude::*;

verus! {

broadcast use crate::json::lemma_lookup_push, vstd::string::group_string_axioms, vstd::seq::group_seq_axioms, vstd::std_specs::vec::group_vec_axioms;

/// A machine field whose value is injected into an environment variable.
#[derive(Clone, Copy, PartialEq, Eq, Structural, Debug)]
pub enum FieldRefEnum {
    Id,
    Version,
    AppName,
    PrivateIp,
    Region,
    Image,
}

impl DeepView for FieldRefEnum {
    type V = FieldRefEnum;

    open spec fn deep_view(&self) -> FieldRefEnum {
        *self
    }
}

pub open spec fn field_ref_name(f: FieldRefEnum) -> Seq<char> {
    match f {
        FieldRefEnum::Id => "id"@,
        FieldRefEnum::Version => "version"@,
        FieldRefEnum::AppName => "appname"@,
        FieldRefEnum::PrivateIp => "privateip"@,
        FieldRefEnum::Region => "region"@,
        FieldRefEnum::Image => "image"@,
    }
}

pub open spec fn field_ref_jv(f: FieldRefEnum) -> JsonV {
    JsonV::Str(field_ref_name(f))
}

pub open spec fn field_ref_of_jv(j: JsonV) -> Option<FieldRefEnum> {
    match j {
        JsonV::Str(s) => if s == "id"@ {
            Some(FieldRefEnum::Id)
        } else if s == "version"@ {
            Some(FieldRefEnum::Version)
        } else if s == "appname"@ {
            Some(FieldRefEnum::AppName)
        } else if s == "privateip"@ {
            Some(FieldRefEnum::PrivateIp)
        } else if s == "region"@ {
            Some(FieldRefEnum::Region)
        } else if s == "image"@ {
            Some(FieldRefEnum::Image)
        } else {
            None
        },
        _ => None,
    }
}

impl FieldRefEnum {
    /// The wire name of this field reference.
    pub fn code(&self) -> (s: String)
        ensures
            s@ == field_ref_name(*self),
    {
        match self {
            FieldRefEnum::Id => "id".to_owned(),
            FieldRefEnum::Version => "version".to_owned(),
            FieldRefEnum::AppName => "appname".to_owned(),
            FieldRefEnum::PrivateIp => "privateip".to_owned(),
            FieldRefEnum::Region => "region".to_owned(),
            FieldRefEnum::Image => "image".to_owned(),
        }
    }

    pub fn to_json(&self) -> (j: Json)
        ensures
            j.deep_view() == field_ref_jv(*self),
    {
        Json::Str(self.code())
    }

    pub fn from_json(j: &Json) -> (r: Option<Self>)
        ensures
            r == field_ref_of_jv(j.deep_view()),
    {
        match j {
            Json::Str(s) => {
                if *s == "id".to_owned() {
                    Some(FieldRefEnum::Id)
                } else if *s == "version".to_owned() {
                    Some(FieldRefEnum::Version)
                } else if *s == "appname".to_owned() {
                    Some(FieldRefEnum::AppName)
                } else if *s == "privateip".to_owned() {
                    Some(FieldRefEnum::PrivateIp)
                } else if *s == "region".to_owned() {
                    Some(FieldRefEnum::Region)
                } else if *s == "image".to_owned() {
                    Some(FieldRefEnum::Image)
                } else {
                    None
                }
            },
            _ => None,
        }
    }
}

pub proof fn lemma_field_ref_round_trip(f: FieldRefEnum)
    ensures
        field_ref_of_jv(field_ref_jv(f)) == Some(f),
{
    reveal_strlit("id");
    reveal_strlit("version");
    reveal_strlit("appname");
    reveal_strlit("privateip");
    reveal_strlit("region");
    reveal_strlit("image");
    assert("id"@.len() == 2);
    assert("version"@.len() == 7);
    assert("appname"@.len() == 7);
    assert("privateip"@.len() == 9);
    assert("region"@.len() == 6);
    assert("image"@.len() == 5);
    assert("version"@[0] == 'v');
    assert("appname"@[0] == 'a');
}

/// An environment variable filled from a machine field.
#[derive(Clone, Debug)]
pub struct EnvVarConfig {
    pub env_var: String,
    pub field_ref: FieldRefEnum,
}

#[verifier::ext_equal]
pub struct EnvVarConfigV {
    pub env_var: Seq<char>,
    pub field_ref: FieldRefEnum,
}

impl DeepView for EnvVarConfig {
    type V = EnvVarConfigV;

    open spec fn deep_view(&self) -> EnvVarConfigV {
        EnvVarConfigV { env_var: self.env_var@, field_ref: self.field_ref }
    }
}

pub open spec fn env_var_config_jv(c: EnvVarConfigV) -> JsonV {
    let m = Seq::<(Seq<char>, JsonV)>::empty();
    let m = m.push(("env_var"@, JsonV::Str(c.env_var)));
    let m = m.push(("field_ref"@, field_ref_jv(c.field_ref)));
    JsonV::Obj(m)
}

pub open spec fn jv_req_field_ref(j: JsonV, key: Seq<char>) -> Option<FieldRefEnum> {
    match json_member(j, key) {
        Some(v) => field_ref_of_jv(v),
        None => None,
    }
}

pub open spec fn env_var_config_of_jv(j: JsonV) -> Option<EnvVarConfigV> {
    if !(j is Obj) {
        None
    } else if jv_req_str(j, "env_var"@) is None || jv_req_field_ref(j, "field_ref"@) is None {
        None
    } else {
        Some(EnvVarConfigV {
            env_var: jv_req_str(j, "env_var"@)->0,
            field_ref: jv_req_field_ref(j, "field_ref"@)->0,
        })
    }
}

impl EnvVarConfig {
    pub fn to_json(&self) -> (j: Json)
        ensures
            j.deep_view() == env_var_config_jv(self.deep_view()),
    {
        let mut m: Vec<(String, Json)> = Vec::new();
        m.push(("env_var".to_owned(), Json::Str(self.env_var.clone())));
        m.push(("field_ref".to_owned(), self.field_ref.to_json()));
        let j = Json::Obj(m);
        proof {
            let ghost mv = m@;
            let ghost sv = env_var_config_jv(self.deep_view())->Obj_0;
            assert(crate::json::json_pairs_view(mv).len() == sv.len());
            assert(crate::json::json_pairs_view(mv) =~= sv);
        }
        j
    }

    pub fn from_json(j: &Json) -> (r: Option<Self>)
        ensures
            r.deep_view() == env_var_config_of_jv(j.deep_view()),
    {
        match j {
            Json::Obj(_) => {},
            _ => { return None; },
        }
        let env_var = match j.req_str("env_var") {
            Some(v) => v,
            None => { return None; },
        };
        let k = "field_ref".to_owned();
        let field_ref = match j.get(&k) {
            Some(v) => match FieldRefEnum::from_json(v) {
                Some(f) => f,
                None => { return None; },
            },
            None => { return None; },
        };
        Some(EnvVarConfig { env_var, field_ref })
    }
}

/// Encoding a field-reference variable and decoding it yields the original.
pub proof fn lemma_env_var_config_round_trip(c: EnvVarConfigV)
    ensures
        env_var_config_of_jv(env_var_config_jv(c)) == Some(c),
{
    reveal_strlit("env_var");
    reveal_strlit("field_ref");
    assert("env_var"@.len() == 7);
    assert("field_ref"@.len() == 9);
    let e = env_var_config_jv(c);
    assert(jv_req_str(e, "env_var"@) == Some(c.env_var));
    assert(jv_req_field_ref(e, "field_ref"@) == Some(c.field_ref)) by {
        lemma_field_ref_round_trip(c.field_ref);
    }
    assert(env_var_config_of_jv(e)->0 =~= c);
    assert(env_var_config_of_jv(e) == Some(c));
}

/// An environment variable filled from an application secret.
#[derive(Clone, Debug)]
pub struct SecretConfig {
    pub env_var: String,
    pub name: Option<String>,
}

#[verifier::ext_equal]
pub struct SecretConfigV {
    pub env_var: Seq<char>,
    pub name: Option<Seq<char>>,
}

impl DeepView for SecretConfig {
    type V = SecretConfigV;

    open spec fn deep_view(&self) -> SecretConfigV {
        SecretConfigV { env_var: self.env_var@, name: self.name.deep_view() }
    }
}

pub open spec fn secret_config_jv(c: SecretConfigV) -> JsonV {
    let m = Seq::<(Seq<char>, JsonV)>::empty();
    let m = m.push(("env_var"@, JsonV::Str(c.env_var)));
    let m = opt_member(m, "name"@, match c.name {
        None => None,
        Some(s) => Some(JsonV::Str(s)),
    });
    JsonV::Obj(m)
}

pub open spec fn secret_config_of_jv(j: JsonV) -> Option<SecretConfigV> {
    if !(j is Obj) {
        None
    } else if jv_req_str(j, "env_var"@) is None || jv_opt_str(j, "name"@) is None {
        None
    } else {
        Some(SecretConfigV {
            env_var: jv_req_str(j, "env_var"@)->0,
            name: jv_opt_str(j, "name"@)->0,
        })
    }
}

impl SecretConfig {
    pub fn to_json(&self) -> (j: Json)
        ensures
            j.deep_view() == secret_config_jv(self.deep_view()),
    {
        let mut m: Vec<(String, Json)> = Vec::new();
        m.push(("env_var".to_owned(), Json::Str(self.env_var.clone())));
        if let Some(s) = &self.name {
            m.push(("name".to_owned(), Json::Str(s.clone())));
        }
        let j = Json::Obj(m);
        proof {
            let ghost mv = m@;
            let ghost sv = secret_config_jv(self.deep_view())->Obj_0;
            assert(crate::json::json_pairs_view(mv).len() == sv.len());
            assert(crate::json::json_pairs_view(mv) =~= sv);
        }
        j
    }

    pub fn from_json(j: &Json) -> (r: Option<Self>)
        ensures
            r.deep_view() == secret_config_of_jv(j.deep_view()),
    {
        match j {
            Json::Obj(_) => {},
            _ => { return None; },
        }
        let env_var = match j.req_str("env_var") {
            Some(v) => v,
            None => { return None; },
        };
        let name = match j.opt_str("name") {
            Some(v) => v,
            None => { return None; },
        };
        Some(SecretConfig { env_var, name })
    }
}

/// Encoding a secret variable and decoding it yields the original value.
pub proof fn lemma_secret_config_round_trip(c: SecretConfigV)
    ensures
        secret_config_of_jv(secret_config_jv(c)) == Some(c),
{
    reveal_strlit("env_var");
    reveal_strlit("name");
    assert("env_var"@.len() == 7);
    assert("name"@.len() == 4);
    let e = secret_config_jv(c);
    assert(jv_req_str(e, "env_var"@) == Some(c.env_var));
    assert(jv_opt_str(e, "name"@) == Some(c.name));
    assert(secret_config_of_jv(e)->0 =~= c);
    assert(secret_config_of_jv(e) == Some(c));
}

pub open spec fn env_var_seq_jv(s: Seq<EnvVarConfigV>) -> Seq<JsonV> {
    Seq::new(s.len(), |i: int| env_var_config_jv(s[i]))
}

pub open spec fn env_var_seq_of(items: Seq<JsonV>) -> Option<Seq<EnvVarConfigV>> {
    if forall|k: int| 0 <= k < items.len() ==> env_var_config_of_jv(#[trigger] items[k]) is Some {
        Some(Seq::new(items.len(), |k: int| env_var_config_of_jv(items[k])->0))
    } else {
        None
    }
}

pub open spec fn jv_opt_env_vars(j: JsonV, key: Seq<char>) -> Option<Option<Seq<EnvVarConfigV>>> {
    match json_member(j, key) {
        None => Some(None),
        Some(JsonV::Null) => Some(None),
        Some(JsonV::Arr(items)) => match env_var_seq_of(items) {
            None => None,
            Some(vars) => Some(Some(vars)),
        },
        Some(_) => None,
    }
}

/// Builds the array for a list of field-reference variables.
pub fn env_vars_json(list: &Vec<EnvVarConfig>) -> (j: Json)
    ensures
        j.deep_view() == JsonV::Arr(env_var_seq_jv(list.deep_view())),
{
    let mut out: Vec<Json> = Vec::new();
    let n = list.len();
    for i in 0..n
        invariant
            n == list.len(),
            out@.len() == i,
            forall|p: int| 0 <= p < i
                ==> (#[trigger] out@[p]).deep_view() == env_var_config_jv(list@[p].deep_view()),
    {
        out.push(list[i].to_json());
    }
    let j = Json::Arr(out);
    proof {
        let ghost ov = out@;
        assert(json_seq_view(ov).len() == env_var_seq_jv(list.deep_view()).len());
        assert(json_seq_view(ov) =~= env_var_seq_jv(list.deep_view()));
    }
    j
}

/// Reads an optional member holding an array of field-reference variables.
pub fn opt_env_vars_field(j: &Json, key: &str) -> (r: Option<Option<Vec<EnvVarConfig>>>)
    ensures
        r.deep_view() == jv_opt_env_vars(j.deep_view(), key@),
{
    let k = key.to_owned();
    match j.get(&k) {
        None => Some(None),
        Some(Json::Null) => Some(None),
        Some(v) => match v {
            Json::Arr(items) => {
                let ghost iv = json_seq_view(items@);
                let mut out: Vec<EnvVarConfig> = Vec::new();
                let n = items.len();
                for i in 0..n
                    invariant
                        n == items.len(),
                        iv == json_seq_view(items@),
                        json_member(j.deep_view(), key@) == Some(JsonV::Arr(iv)),
                        iv.len() == n,
                        out@.len() == i,
                        forall|p: int| 0 <= p < i
                            ==> env_var_config_of_jv(#[trigger] iv[p]) is Some,
                        forall|p: int| 0 <= p < i
                            ==> (#[trigger] out@[p]).deep_view() == env_var_config_of_jv(iv[p])->0,
                {
                    match EnvVarConfig::from_json(&items[i]) {
                        Some(x) => { out.push(x); },
                        None => {
                            proof {
                                assert(env_var_config_of_jv(iv[i as int]) is None);
                            }
                            return None;
                        },
                    }
                }
                proof {
                    assert(out.deep_view() =~= env_var_seq_of(iv)->0);
                }
                Some(Some(out))
            },
            _ => None,
        },
    }
}

pub open spec fn secret_config_seq_jv(s: Seq<SecretConfigV>) -> Seq<JsonV> {
    Seq::new(s.len(), |i: int| secret_config_jv(s[i]))
}

pub open spec fn secret_config_seq_of(items: Seq<JsonV>) -> Option<Seq<SecretConfigV>> {
    if forall|k: int| 0 <= k < items.len() ==> secret_config_of_jv(#[trigger] items[k]) is Some {
        Some(Seq::new(items.len(), |k: int| secret_config_of_jv(items[k])->0))
    } else {
        None
    }
}

pub open spec fn jv_opt_secret_configs(j: JsonV, key: Seq<char>) -> Option<
    Option<Seq<SecretConfigV>>,
> {
    match json_member(j, key) {
        None => Some(None),
        Some(JsonV::Null) => Some(None),
        Some(JsonV::Arr(items)) => match secret_config_seq_of(items) {
            None => None,
            Some(secrets) => Some(Some(secrets)),
        },
        Some(_) => None,
    }
}

/// Builds the array for a list of secret variables.
pub fn secret_configs_json(list: &Vec<SecretConfig>) -> (j: Json)
    ensures
        j.deep_view() == JsonV::Arr(secret_config_seq_jv(list.deep_view())),
{
    let mut out: Vec<Json> = Vec::new();
    let n = list.len();
    for i in 0..n
        invariant
            n == list.len(),
            out@.len() == i,
            forall|p: int| 0 <= p < i
                ==> (#[trigger] out@[p]).deep_view() == secret_config_jv(list@[p].deep_view()),
    {
        out.push(list[i].to_json());
    }
    let j = Json::Arr(out);
    proof {
        let ghost ov = out@;
        assert(json_seq_view(ov).len() == secret_config_seq_jv(list.deep_view()).len());
        assert(json_seq_view(ov) =~= secret_config_seq_jv(list.deep_view()));
    }
    j
}

/// Reads an optional member holding an array of secret variables.
pub fn opt_secret_configs_field(j: &Json, key: &str) -> (r: Option<Option<Vec<SecretConfig>>>)
    ensures
        r.deep_view() == jv_opt_secret_configs(j.deep_view(), key@),
{
    let k = key.to_owned();
    match j.get(&k) {
        None => Some(None),
        Some(Json::Null) => Some(None),
        Some(v) => match v {
            Json::Arr(items) => {
                let ghost iv = json_seq_view(items@);
                let mut out: Vec<SecretConfig> = Vec::new();
                let n = items.len();
                for i in 0..n
                    invariant
                        n == items.len(),
                        iv == json_seq_view(items@),
                        json_member(j.deep_view(), key@) == Some(JsonV::Arr(iv)),
                        iv.len() == n,
                        out@.len() == i,
                        forall|p: int| 0 <= p < i
                            ==> secret_config_of_jv(#[trigger] iv[p]) is Some,
                        forall|p: int| 0 <= p < i
                            ==> (#[trigger] out@[p]).deep_view() == secret_config_of_jv(iv[p])->0,
                {
                    match SecretConfig::from_json(&items[i]) {
                        Some(x) => { out.push(x); },
                        None => {
                            proof {
                                assert(secret_config_of_jv(iv[i as int]) is None);
                            }
                            return None;
                        },
                    }
                }
                proof {
                    assert(out.deep_view() =~= secret_config_seq_of(iv)->0);
                }
                Some(Some(out))
            },
            _ => None,
        },
    }
}

/// One process run inside a machine.
#[derive(Clone, Debug)]
pub struct ProcessConfig {
    pub cmd: Option<Vec<String>>,
    pub entrypoint: Option<Vec<String>>,
    pub env: Option<Vec<(String, String)>>,
    pub env_from: Option<Vec<EnvVarConfig>>,
    pub exec_cmd: Option<Vec<String>>,
    pub ignore_app_secrets: Option<bool>,
    pub secrets: Option<Vec<SecretConfig>>,
    pub user: Option<String>,
}

#[verifier::ext_equal]
pub struct ProcessConfigV {
    pub cmd: Option<Seq<Seq<char>>>,
    pub entrypoint: Option<Seq<Seq<char>>>,
    pub env: Option<Seq<(Seq<char>, Seq<char>)>>,
    pub env_from: Option<Seq<EnvVarConfigV>>,
    pub exec_cmd: Option<Seq<Seq<char>>>,
    pub ignore_app_secrets: Option<bool>,
    pub secrets: Option<Seq<SecretConfigV>>,
    pub user: Option<Seq<char>>,
}

impl DeepView for ProcessConfig {
    type V = ProcessConfigV;

    open spec fn deep_view(&self) -> ProcessConfigV {
        ProcessConfigV {
            cmd: self.cmd.deep_view(),
            entrypoint: self.entrypoint.deep_view(),
            env: self.env.deep_view(),
            env_from: self.env_from.deep_view(),
            exec_cmd: self.exec_cmd.deep_view(),
            ignore_app_secrets: self.ignore_app_secrets,
            secrets: self.secrets.deep_view(),
            user: self.user.deep_view(),
        }
    }
}

pub open spec fn process_config_jv(c: ProcessConfigV) -> JsonV {
    let m = Seq::<(Seq<char>, JsonV)>::empty();
    let m = opt_member(m, "cmd"@, match c.cmd {
        None => None,
        Some(a) => Some(JsonV::Arr(str_seq_jv(a))),
    });
    let m = opt_member(m, "entrypoint"@, match c.entrypoint {
        None => None,
        Some(a) => Some(JsonV::Arr(str_seq_jv(a))),
    });
    let m = opt_member(m, "env"@, match c.env {
        None => None,
        Some(p) => Some(JsonV::Obj(str_pairs_jv(p))),
    });
    let m = opt_member(m, "env_from"@, match c.env_from {
        None => None,
        Some(vars) => Some(JsonV::Arr(env_var_seq_jv(vars))),
    });
    let m = opt_member(m, "exec"@, match c.exec_cmd {
        None => None,
        Some(a) => Some(JsonV::Arr(str_seq_jv(a))),
    });
    let m = opt_member(m, "ignore_app_secrets"@, match c.ignore_app_secrets {
        None => None,
        Some(b) => Some(JsonV::Bool(b)),
    });
    let m = opt_member(m, "secrets"@, match c.secrets {
        None => None,
        Some(secrets) => Some(JsonV::Arr(secret_config_seq_jv(secrets))),
    });
    let m = opt_member(m, "user"@, match c.user {
        None => None,
        Some(s) => Some(JsonV::Str(s)),
    });
    JsonV::Obj(m)
}

pub open spec fn process_config_of_jv(j: JsonV) -> Option<ProcessConfigV> {
    if !(j is Obj) {
        None
    } else if jv_opt_str_arr(j, "cmd"@) is None || jv_opt_str_arr(j, "entrypoint"@) is None
        || jv_opt_str_map(j, "env"@) is None || jv_opt_env_vars(j, "env_from"@) is None
        || jv_opt_str_arr(j, "exec"@) is None || jv_opt_bool(j, "ignore_app_secrets"@) is None
        || jv_opt_secret_configs(j, "secrets"@) is None || jv_opt_str(j, "user"@) is None {
        None
    } else {
        Some(ProcessConfigV {
            cmd: jv_opt_str_arr(j, "cmd"@)->0,
            entrypoint: jv_opt_str_arr(j, "entrypoint"@)->0,
            env: jv_opt_str_map(j, "env"@)->0,
            env_from: jv_opt_env_vars(j, "env_from"@)->0,
            exec_cmd: jv_opt_str_arr(j, "exec"@)->0,
            ignore_app_secrets: jv_opt_bool(j, "ignore_app_secrets"@)->0,
            secrets: jv_opt_secret_configs(j, "secrets"@)->0,
            user: jv_opt_str(j, "user"@)->0,
        })
    }
}

impl ProcessConfig {
    #[verifier::rlimit(50)]
    pub fn to_json(&self) -> (j: Json)
        ensures
            j.deep_view() == process_config_jv(self.deep_view()),
    {
        let mut m: Vec<(String, Json)> = Vec::new();
        if let Some(a) = &self.cmd {
            m.push(("cmd".to_owned(), Json::from_strings(a)));
        }
        if let Some(a) = &self.entrypoint {
            m.push(("entrypoint".to_owned(), Json::from_strings(a)));
        }
        if let Some(p) = &self.env {
            m.push(("env".to_owned(), Json::from_string_pairs(p)));
        }
        if let Some(vars) = &self.env_from {
            m.push(("env_from".to_owned(), env_vars_json(vars)));
        }
        if let Some(a) = &self.exec_cmd {
            m.push(("exec".to_owned(), Json::from_strings(a)));
        }
        if let Some(b) = &self.ignore_app_secrets {
            m.push(("ignore_app_secrets".to_owned(), Json::Bool(*b)));
        }
        if let Some(secrets) = &self.secrets {
            m.push(("secrets".to_owned(), secret_configs_json(secrets)));
        }
        if let Some(s) = &self.user {
            m.push(("user".to_owned(), Json::Str(s.clone())));
        }
        let j = Json::Obj(m);
        proof {
            let ghost mv = m@;
            let ghost sv = process_config_jv(self.deep_view())->Obj_0;
            assert(crate::json::json_pairs_view(mv).len() == sv.len());
            assert(crate::json::json_pairs_view(mv) =~= sv);
        }
        j
    }

    pub fn from_json(j: &Json) -> (r: Option<Self>)
        ensures
            r.deep_view() == process_config_of_jv(j.deep_view()),
    {
        match j {
            Json::Obj(_) => {},
            _ => { return None; },
        }
        let cmd = match j.opt_str_arr("cmd") {
            Some(v) => v,
            None => { return None; },
        };
        let entrypoint = match j.opt_str_arr("entrypoint") {
            Some(v) => v,
            None => { return None; },
        };
        let env = match j.opt_str_map("env") {
            Some(v) => v,
            None => { return None; },
        };
        let env_from = match opt_env_vars_field(j, "env_from") {
            Some(v) => v,
            None => { return None; },
        };
        let exec_cmd = match j.opt_str_arr("exec") {
            Some(v) => v,
            None => { return None; },
        };
        let ignore_app_secrets = match j.opt_bool("ignore_app_secrets") {
            Some(v) => v,
            None => { return None; },
        };
        let secrets = match opt_secret_configs_field(j, "secrets") {
            Some(v) => v,
            None => { return None; },
        };
        let user = match j.opt_str("user") {
            Some(v) => v,
            None => { return None; },
        };
        Some(ProcessConfig {
            cmd,
            entrypoint,
            env,
            env_from,
            exec_cmd,
            ignore_app_secrets,
            secrets,
            user,
        })
    }
}

/// Encoding a process configuration and decoding it yields the original.
#[verifier::rlimit(50)]
pub proof fn lemma_process_config_round_trip(c: ProcessConfigV)
    ensures
        process_config_of_jv(process_config_jv(c)) == Some(c),
{
    reveal_strlit("cmd");
    reveal_strlit("entrypoint");
    reveal_strlit("env");
    reveal_strlit("env_from");
    reveal_strlit("exec");
    reveal_strlit("ignore_app_secrets");
    reveal_strlit("secrets");
    reveal_strlit("user");
    assert("cmd"@.len() == 3);
    assert("entrypoint"@.len() == 10);
    assert("env"@.len() == 3);
    assert("env_from"@.len() == 8);
    assert("exec"@.len() == 4);
    assert("ignore_app_secrets"@.len() == 18);
    assert("secrets"@.len() == 7);
    assert("user"@.len() == 4);
    assert("cmd"@[0] == 'c');
    assert("env"@[0] == 'e');
    assert("exec"@[0] == 'e');
    assert("user"@[0] == 'u');
    let e = process_config_jv(c);
    assert(jv_opt_str_arr(e, "cmd"@) == Some(c.cmd)) by {
        if c.cmd is Some {
            assert(jv_str_seq(str_seq_jv(c.cmd->0))->0 =~= c.cmd->0);
        }
    }
    assert(jv_opt_str_arr(e, "entrypoint"@) == Some(c.entrypoint)) by {
        if c.entrypoint is Some {
            assert(jv_str_seq(str_seq_jv(c.entrypoint->0))->0 =~= c.entrypoint->0);
        }
    }
    assert(jv_opt_str_map(e, "env"@) == Some(c.env)) by {
        if c.env is Some {
            assert(jv_str_pairs(str_pairs_jv(c.env->0))->0 =~= c.env->0);
        }
    }
    assert(jv_opt_env_vars(e, "env_from"@) == Some(c.env_from)) by {
        if c.env_from is Some {
            let vars = c.env_from->0;
            assert forall|k: int| 0 <= k < vars.len() implies env_var_config_of_jv(
                #[trigger] env_var_seq_jv(vars)[k],
            ) is Some by {
                lemma_env_var_config_round_trip(vars[k]);
            }
            assert(env_var_seq_of(env_var_seq_jv(vars)) is Some);
            assert forall|k: int| 0 <= k < vars.len() implies env_var_seq_of(
                env_var_seq_jv(vars),
            )->0[k] == vars[k] by {
                lemma_env_var_config_round_trip(vars[k]);
            }
            assert(env_var_seq_of(env_var_seq_jv(vars))->0 =~= vars);
        }
    }
    assert(jv_opt_str_arr(e, "exec"@) == Some(c.exec_cmd)) by {
        if c.exec_cmd is Some {
            assert(jv_str_seq(str_seq_jv(c.exec_cmd->0))->0 =~= c.exec_cmd->0);
        }
    }
    assert(jv_opt_bool(e, "ignore_app_secrets"@) == Some(c.ignore_app_secrets));
    assert(jv_opt_secret_configs(e, "secrets"@) == Some(c.secrets)) by {
        if c.secrets is Some {
            let secrets = c.secrets->0;
            assert forall|k: int| 0 <= k < secrets.len() implies secret_config_of_jv(
                #[trigger] secret_config_seq_jv(secrets)[k],
            ) is Some by {
                lemma_secret_config_round_trip(secrets[k]);
            }
            assert(secret_config_seq_of(secret_config_seq_jv(secrets)) is Some);
            assert forall|k: int| 0 <= k < secrets.len() implies secret_config_seq_of(
                secret_config_seq_jv(secrets),
            )->0[k] == secrets[k] by {
                lemma_secret_config_round_trip(secrets[k]);
            }
            assert(secret_config_seq_of(secret_config_seq_jv(secrets))->0 =~= secrets);
        }
    }
    assert(jv_opt_str(e, "user"@) == Some(c.user));
    assert(process_config_of_jv(e)->0 =~= c);
    assert(process_config_of_jv(e) == Some(c));
}

/// What running a command inside a machine returned.
#[derive(Clone, Debug)]
pub struct CommandResponse {
    pub exit_code: Option<i32>,
    pub exit_signal: Option<i32>,
    pub stderr: Option<String>,
    pub stdout: Option<String>,
}

#[verifier::ext_equal]
pub struct CommandResponseV {
    pub exit_code: Option<i32>,
    pub exit_signal: Option<i32>,
    pub stderr: Option<Seq<char>>,
    pub stdout: Option<Seq<char>>,
}

impl DeepView for CommandResponse {
    type V = CommandResponseV;

    open spec fn deep_view(&self) -> CommandResponseV {
        CommandResponseV {
            exit_code: self.exit_code,
            exit_signal: self.exit_signal,
            stderr: self.stderr.deep_view(),
            stdout: self.stdout.deep_view(),
        }
    }
}

pub open spec fn command_response_of_jv(j: JsonV) -> Option<CommandResponseV> {
    if !(j is Obj) {
        None
    } else if jv_opt_i32(j, "exit_code"@) is None || jv_opt_i32(j, "exit_signal"@) is None
        || jv_opt_str(j, "stderr"@) is None || jv_opt_str(j, "stdout"@) is None {
        None
    } else {
        Some(CommandResponseV {
            exit_code: jv_opt_i32(j, "exit_code"@)->0,
            exit_signal: jv_opt_i32(j, "exit_signal"@)->0,
            stderr: jv_opt_str(j, "stderr"@)->0,
            stdout: jv_opt_str(j, "stdout"@)->0,
        })
    }
}

impl CommandResponse {
    pub fn from_json(j: &Json) -> (r: Option<Self>)
        ensures
            r.deep_view() == command_response_of_jv(j.deep_view()),
    {
        match j {
            Json::Obj(_) => {},
            _ => { return None; },
        }
        let exit_code = match j.opt_i32("exit_code") {
            Some(v) => v,
            None => { return None; },
        };
        let exit_signal = match j.opt_i32("exit_signal") {
            Some(v) => v,
            None => { return None; },
        };
        let stderr = match j.opt_str("stderr") {
            Some(v) => v,
            None => { return None; },
        };
        let stdout = match j.opt_str("stdout") {
            Some(v) => v,
            None => { return None; },
        };
        Some(CommandResponse { exit_code, exit_signal, stderr, stdout })
    }
}

/// A socket a process listens on.
#[derive(Clone, Debug)]
pub struct ListenSocket {
    pub address: Option<String>,
    pub proto: Option<String>,
}

#[verifier::ext_equal]
pub struct ListenSocketV {
    pub address: Option<Seq<char>>,
    pub proto: Option<Seq<char>>,
}

impl DeepView for ListenSocket {
    type V = ListenSocketV;

    open spec fn deep_view(&self) -> ListenSocketV {
        ListenSocketV { address: self.address.deep_view(), proto: self.proto.deep_view() }
    }
}

pub open spec fn listen_socket_of_jv(j: JsonV) -> Option<ListenSocketV> {
    if !(j is Obj) {
        None
    } else if jv_opt_str(j, "address"@) is None || jv_opt_str(j, "proto"@) is None {
        None
    } else {
        Some(ListenSocketV {
            address: jv_opt_str(j, "address"@)->0,
            proto: jv_opt_str(j, "proto"@)->0,
        })
    }
}

impl ListenSocket {
    pub fn from_json(j: &Json) -> (r: Option<Self>)
        ensures
            r.deep_view() == listen_socket_of_jv(j.deep_view()),
    {
        match j {
            Json::Obj(_) => {},
            _ => { return None; },
        }
        let address = match j.opt_str("address") {
            Some(v) => v,
            None => { return None; },
        };
        let proto = match j.opt_str("proto") {
            Some(v) => v,
            None => { return None; },
        };
        Some(ListenSocket { address, proto })
    }
}

pub open spec fn listen_socket_seq_of(items: Seq<JsonV>) -> Option<Seq<ListenSocketV>> {
    if forall|k: int| 0 <= k < items.len() ==> listen_socket_of_jv(#[trigger] items[k]) is Some {
        Some(Seq::new(items.len(), |k: int| listen_socket_of_jv(items[k])->0))
    } else {
        None
    }
}

pub open spec fn jv_opt_listen_sockets(j: JsonV, key: Seq<char>) -> Option<
    Option<Seq<ListenSocketV>>,
> {
    match json_member(j, key) {
        None => Some(None),
        Some(JsonV::Null) => Some(None),
        Some(JsonV::Arr(items)) => match listen_socket_seq_of(items) {
            None => None,
            Some(sockets) => Some(Some(sockets)),
        },
        Some(_) => None,
    }
}

/// Reads an optional member holding an array of listen sockets.
pub fn opt_listen_sockets_field(j: &Json, key: &str) -> (r: Option<Option<Vec<ListenSocket>>>)
    ensures
        r.deep_view() == jv_opt_listen_sockets(j.deep_view(), key@),
{
    let k = key.to_owned();
    match j.get(&k) {
        None => Some(None),
        Some(Json::Null) => Some(None),
        Some(v) => match v {
            Json::Arr(items) => {
                let ghost iv = json_seq_view(items@);
                let mut out: Vec<ListenSocket> = Vec::new();
                let n = items.len();
                for i in 0..n
                    invariant
                        n == items.len(),
                        iv == json_seq_view(items@),
                        json_member(j.deep_view(), key@) == Some(JsonV::Arr(iv)),
                        iv.len() == n,
                        out@.len() == i,
                        forall|p: int| 0 <= p < i
                            ==> listen_socket_of_jv(#[trigger] iv[p]) is Some,
                        forall|p: int| 0 <= p < i
                            ==> (#[trigger] out@[p]).deep_view() == listen_socket_of_jv(iv[p])->0,
                {
                    match ListenSocket::from_json(&items[i]) {
                        Some(x) => { out.push(x); },
                        None => {
                            proof {
                                assert(listen_socket_of_jv(iv[i as int]) is None);
                            }
                            return None;
                        },
                    }
                }
                proof {
                    assert(out.deep_view() =~= listen_socket_seq_of(iv)->0);
                }
                Some(Some(out))
            },
            _ => None,
        },
    }
}

/// One entry of the process listing of a machine.
#[derive(Clone, Debug)]
pub struct ProcessResponse {
    pub command: Option<String>,
    pub cpu: Option<u32>,
    pub directory: Option<String>,
    pub listen_sockets: Option<Vec<ListenSocket>>,
    pub pid: Option<u32>,
    pub rss: Option<u64>,
    pub rtime: Option<u64>,
    pub stime: Option<u64>,
}

#[verifier::ext_equal]
pub struct ProcessResponseV {
    pub command: Option<Seq<char>>,
    pub cpu: Option<u32>,
    pub directory: Option<Seq<char>>,
    pub listen_sockets: Option<Seq<ListenSocketV>>,
    pub pid: Option<u32>,
    pub rss: Option<u64>,
    pub rtime: Option<u64>,
    pub stime: Option<u64>,
}

impl DeepView for ProcessResponse {
    type V = ProcessResponseV;

    open spec fn deep_view(&self) -> ProcessResponseV {
        ProcessResponseV {
            command: self.command.deep_view(),
            cpu: self.cpu,
            directory: self.directory.deep_view(),
            listen_sockets: self.listen_sockets.deep_view(),
            pid: self.pid,
            rss: self.rss,
            rtime: self.rtime,
            stime: self.stime,
        }
    }
}

pub open spec fn process_response_of_jv(j: JsonV) -> Option<ProcessResponseV> {
    if !(j is Obj) {
        None
    } else if jv_opt_str(j, "command"@) is None || jv_opt_u32(j, "cpu"@) is None
        || jv_opt_str(j, "directory"@) is None || jv_opt_listen_sockets(j, "listen_sockets"@) is None
        || jv_opt_u32(j, "pid"@) is None || jv_opt_uint(j, "rss"@) is None
        || jv_opt_uint(j, "rtime"@) is None || jv_opt_uint(j, "stime"@) is None {
        None
    } else {
        Some(ProcessResponseV {
            command: jv_opt_str(j, "command"@)->0,
            cpu: jv_opt_u32(j, "cpu"@)->0,
            directory: jv_opt_str(j, "directory"@)->0,
            listen_sockets: jv_opt_listen_sockets(j, "listen_sockets"@)->0,
            pid: jv_opt_u32(j, "pid"@)->0,
            rss: jv_opt_uint(j, "rss"@)->0,
            rtime: jv_opt_uint(j, "rtime"@)->0,
            stime: jv_opt_uint(j, "stime"@)->0,
        })
    }
}

impl ProcessResponse {
    pub fn from_json(j: &Json) -> (r: Option<Self>)
        ensures
            r.deep_view() == process_response_of_jv(j.deep_view()),
    {
        match j {
            Json::Obj(_) => {},
            _ => { return None; },
        }
        let command = match j.opt_str("command") {
            Some(v) => v,
            None => { return None; },
        };
        let cpu = match j.opt_u32("cpu") {
            Some(v) => v,
            None => { return None; },
        };
        let directory = match j.opt_str("directory") {
            Some(v) => v,
            None => { return None; },
        };
        let listen_sockets = match opt_listen_sockets_field(j, "listen_sockets") {
            Some(v) => v,
            None => { return None; },
        };
        let pid = match j.opt_u32("pid") {
            Some(v) => v,
            None => { return None; },
        };
        let rss = match j.opt_uint("rss") {
            Some(v) => v,
            None => { return None; },
        };
        let rtime = match j.opt_uint("rtime") {
            Some(v) => v,
            None => { return None; },
        };
        let stime = match j.opt_uint("stime") {
            Some(v) => v,
            None => { return None; },
        };
        Some(ProcessResponse {
            command,
            cpu,
            directory,
            listen_sockets,
            pid,
            rss,
            rtime,
            stime,
        })
    }
}

} // verus!
