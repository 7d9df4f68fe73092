//! Network services of a machine: ports, handlers, concurrency limits and
//! TLS/HTTP options.

use crate::json::{
    json_member, json_seq_view, jv_opt_bool, jv_opt_str, jv_opt_str_arr, jv_opt_str_map,
    jv_opt_u16, jv_opt_u32, jv_opt_uint, jv_str_pairs, jv_str_seq, opt_member, str_pairs_jv,
    str_seq_jv, Json, JsonV,
};
use vstd::prelude::*;

verus! {

broadcast use crate::json::lemma_lookup_push, vstd::string::group_string_axioms, vstd::seq::group_seq_axioms, vstd::std_specs::vec::group_vec_axioms;


/// TLS termination options of a port.
#[derive(Clone, Debug)]
pub struct TlsOptions {
    pub alpn: Option<Vec<String>>,
    pub default_self_signed: Option<bool>,
    pub versions: Option<Vec<String>>,
}

#[verifier::ext_equal]
pub struct TlsOptionsV {
    pub alpn: Option<Seq<Seq<char>>>,
    pub default_self_signed: Option<bool>,
    pub versions: Option<Seq<Seq<char>>>,
}

impl DeepView for TlsOptions {
    type V = TlsOptionsV;

    open spec fn deep_view(&self) -> TlsOptionsV {
        TlsOptionsV {
            alpn: self.alpn.deep_view(),
            default_self_signed: self.default_self_signed,
            versions: self.versions.deep_view(),
        }
    }
}

pub open spec fn tls_options_jv(c: TlsOptionsV) -> JsonV {
    let m = Seq::<(Seq<char>, JsonV)>::empty();
    let m = opt_member(m, "alpn"@, match c.alpn {
        None => None,
        Some(x) => Some(JsonV::Arr(str_seq_jv(x))),
    });
    let m = opt_member(m, "default_self_signed"@, match c.default_self_signed {
        None => None,
        Some(x) => Some(JsonV::Bool(x)),
    });
    let m = opt_member(m, "versions"@, match c.versions {
        None => None,
        Some(x) => Some(JsonV::Arr(str_seq_jv(x))),
    });
    JsonV::Obj(m)
}

pub open spec fn tls_options_of_jv(j: JsonV) -> Option<TlsOptionsV> {
    if !(j is Obj) {
        None
    } else if jv_opt_str_arr(j, "alpn"@) is None || jv_opt_bool(j, "default_self_signed"@) is None || jv_opt_str_arr(j, "versions"@) is None {
        None
    } else {
        Some(TlsOptionsV {
            alpn: jv_opt_str_arr(j, "alpn"@)->0,
            default_self_signed: jv_opt_bool(j, "default_self_signed"@)->0,
            versions: jv_opt_str_arr(j, "versions"@)->0,
        })
    }
}

impl TlsOptions {
    pub fn to_json(&self) -> (j: Json)
        ensures
            j.deep_view() == tls_options_jv(self.deep_view()),
    {
        let mut m: Vec<(String, Json)> = Vec::new();
        if let Some(x) = &self.alpn {
            m.push(("alpn".to_owned(), Json::from_strings(x)));
        }
        if let Some(x) = &self.default_self_signed {
            m.push(("default_self_signed".to_owned(), Json::Bool(*x)));
        }
        if let Some(x) = &self.versions {
            m.push(("versions".to_owned(), Json::from_strings(x)));
        }
        let j = Json::Obj(m);
        proof {
            let ghost mv = m@;
            let ghost sv = tls_options_jv(self.deep_view())->Obj_0;
            assert(crate::json::json_pairs_view(mv).len() == sv.len());
            assert(crate::json::json_pairs_view(mv) =~= sv);
        }
        j
    }

    pub fn from_json(j: &Json) -> (r: Option<Self>)
        ensures
            r.deep_view() == tls_options_of_jv(j.deep_view()),
    {
        match j {
            Json::Obj(_) => {},
            _ => { return None; },
        }
        let alpn = match j.opt_str_arr("alpn") {
            Some(v) => v,
            None => { return None; },
        };
        let default_self_signed = match j.opt_bool("default_self_signed") {
            Some(v) => v,
            None => { return None; },
        };
        let versions = match j.opt_str_arr("versions") {
            Some(v) => v,
            None => { return None; },
        };
        Some(TlsOptions { alpn, default_self_signed, versions })
    }
}

/// Encoding this record and decoding it yields the original value.
pub proof fn lemma_tls_options_round_trip(c: TlsOptionsV)
    ensures
        tls_options_of_jv(tls_options_jv(c)) == Some(c),
{
    reveal_strlit("alpn");
    reveal_strlit("default_self_signed");
    reveal_strlit("versions");
    assert("alpn"@.len() == 4);
    assert("default_self_signed"@.len() == 19);
    assert("versions"@.len() == 8);
    let e = tls_options_jv(c);
    assert(jv_opt_str_arr(e, "alpn"@) == Some(c.alpn)) by {
        if c.alpn is Some {
            assert(jv_str_seq(str_seq_jv(c.alpn->0))->0 =~= c.alpn->0);
        }
    }
    assert(jv_opt_bool(e, "default_self_signed"@) == Some(c.default_self_signed));
    assert(jv_opt_str_arr(e, "versions"@) == Some(c.versions)) by {
        if c.versions is Some {
            assert(jv_str_seq(str_seq_jv(c.versions->0))->0 =~= c.versions->0);
        }
    }
    assert(tls_options_of_jv(e)->0 =~= c);
    assert(tls_options_of_jv(e) == Some(c));
}

pub open spec fn jv_opt_tls_options(j: JsonV, key: Seq<char>) -> Option<Option<TlsOptionsV>> {
    match json_member(j, key) {
        None => Some(None),
        Some(JsonV::Null) => Some(None),
        Some(v) => match tls_options_of_jv(v) {
            Some(x) => Some(Some(x)),
            None => None,
        },
    }
}

pub fn opt_tls_options_field(j: &Json, key: &str) -> (r: Option<Option<TlsOptions>>)
    ensures
        r.deep_view() == jv_opt_tls_options(j.deep_view(), key@),
{
    let k = key.to_owned();
    match j.get(&k) {
        None => Some(None),
        Some(Json::Null) => Some(None),
        Some(v) => match TlsOptions::from_json(v) {
            Some(x) => Some(Some(x)),
            None => None,
        },
    }
}

/// Proxy-protocol options of a port.
#[derive(Clone, Debug)]
pub struct ProxyProtoOptions {
    pub version: Option<String>,
}

#[verifier::ext_equal]
pub struct ProxyProtoOptionsV {
    pub version: Option<Seq<char>>,
}

impl DeepView for ProxyProtoOptions {
    type V = ProxyProtoOptionsV;

    open spec fn deep_view(&self) -> ProxyProtoOptionsV {
        ProxyProtoOptionsV {
            version: self.version.deep_view(),
        }
    }
}

pub open spec fn proxy_proto_options_jv(c: ProxyProtoOptionsV) -> JsonV {
    let m = Seq::<(Seq<char>, JsonV)>::empty();
    let m = opt_member(m, "version"@, match c.version {
        None => None,
        Some(x) => Some(JsonV::Str(x)),
    });
    JsonV::Obj(m)
}

pub open spec fn proxy_proto_options_of_jv(j: JsonV) -> Option<ProxyProtoOptionsV> {
    if !(j is Obj) {
        None
    } else if jv_opt_str(j, "version"@) is None {
        None
    } else {
        Some(ProxyProtoOptionsV {
            version: jv_opt_str(j, "version"@)->0,
        })
    }
}

impl ProxyProtoOptions {
    pub fn to_json(&self) -> (j: Json)
        ensures
            j.deep_view() == proxy_proto_options_jv(self.deep_view()),
    {
        let mut m: Vec<(String, Json)> = Vec::new();
        if let Some(x) = &self.version {
            m.push(("version".to_owned(), Json::Str(x.clone())));
        }
        let j = Json::Obj(m);
        proof {
            let ghost mv = m@;
            let ghost sv = proxy_proto_options_jv(self.deep_view())->Obj_0;
            assert(crate::json::json_pairs_view(mv).len() == sv.len());
            assert(crate::json::json_pairs_view(mv) =~= sv);
        }
        j
    }

    pub fn from_json(j: &Json) -> (r: Option<Self>)
        ensures
            r.deep_view() == proxy_proto_options_of_jv(j.deep_view()),
    {
        match j {
            Json::Obj(_) => {},
            _ => { return None; },
        }
        let version = match j.opt_str("version") {
            Some(v) => v,
            None => { return None; },
        };
        Some(ProxyProtoOptions { version })
    }
}

/// Encoding this record and decoding it yields the original value.
pub proof fn lemma_proxy_proto_options_round_trip(c: ProxyProtoOptionsV)
    ensures
        proxy_proto_options_of_jv(proxy_proto_options_jv(c)) == Some(c),
{
    reveal_strlit("version");
    assert("version"@.len() == 7);
    let e = proxy_proto_options_jv(c);
    assert(jv_opt_str(e, "version"@) == Some(c.version));
    assert(proxy_proto_options_of_jv(e)->0 =~= c);
    assert(proxy_proto_options_of_jv(e) == Some(c));
}

pub open spec fn jv_opt_proxy_proto_options(j: JsonV, key: Seq<char>) -> Option<Option<ProxyProtoOptionsV>> {
    match json_member(j, key) {
        None => Some(None),
        Some(JsonV::Null) => Some(None),
        Some(v) => match proxy_proto_options_of_jv(v) {
            Some(x) => Some(Some(x)),
            None => None,
        },
    }
}

pub fn opt_proxy_proto_options_field(j: &Json, key: &str) -> (r: Option<Option<ProxyProtoOptions>>)
    ensures
        r.deep_view() == jv_opt_proxy_proto_options(j.deep_view(), key@),
{
    let k = key.to_owned();
    match j.get(&k) {
        None => Some(None),
        Some(Json::Null) => Some(None),
        Some(v) => match ProxyProtoOptions::from_json(v) {
            Some(x) => Some(Some(x)),
            None => None,
        },
    }
}

/// HTTP response rewriting options.
#[derive(Clone, Debug)]
pub struct ResponseOptions {
    pub headers: Option<Vec<(String, String)>>,
    pub pristine: Option<bool>,
}

#[verifier::ext_equal]
pub struct ResponseOptionsV {
    pub headers: Option<Seq<(Seq<char>, Seq<char>)>>,
    pub pristine: Option<bool>,
}

impl DeepView for ResponseOptions {
    type V = ResponseOptionsV;

    open spec fn deep_view(&self) -> ResponseOptionsV {
        ResponseOptionsV {
            headers: self.headers.deep_view(),
            pristine: self.pristine,
        }
    }
}

pub open spec fn response_options_jv(c: ResponseOptionsV) -> JsonV {
    let m = Seq::<(Seq<char>, JsonV)>::empty();
    let m = opt_member(m, "headers"@, match c.headers {
        None => None,
        Some(x) => Some(JsonV::Obj(str_pairs_jv(x))),
    });
    let m = opt_member(m, "pristine"@, match c.pristine {
        None => None,
        Some(x) => Some(JsonV::Bool(x)),
    });
    JsonV::Obj(m)
}

pub open spec fn response_options_of_jv(j: JsonV) -> Option<ResponseOptionsV> {
    if !(j is Obj) {
        None
    } else if jv_opt_str_map(j, "headers"@) is None || jv_opt_bool(j, "pristine"@) is None {
        None
    } else {
        Some(ResponseOptionsV {
            headers: jv_opt_str_map(j, "headers"@)->0,
            pristine: jv_opt_bool(j, "pristine"@)->0,
        })
    }
}

impl ResponseOptions {
    pub fn to_json(&self) -> (j: Json)
        ensures
            j.deep_view() == response_options_jv(self.deep_view()),
    {
        let mut m: Vec<(String, Json)> = Vec::new();
        if let Some(x) = &self.headers {
            m.push(("headers".to_owned(), Json::from_string_pairs(x)));
        }
        if let Some(x) = &self.pristine {
            m.push(("pristine".to_owned(), Json::Bool(*x)));
        }
        let j = Json::Obj(m);
        proof {
            let ghost mv = m@;
            let ghost sv = response_options_jv(self.deep_view())->Obj_0;
            assert(crate::json::json_pairs_view(mv).len() == sv.len());
            assert(crate::json::json_pairs_view(mv) =~= sv);
        }
        j
    }

    pub fn from_json(j: &Json) -> (r: Option<Self>)
        ensures
            r.deep_view() == response_options_of_jv(j.deep_view()),
    {
        match j {
            Json::Obj(_) => {},
            _ => { return None; },
        }
        let headers = match j.opt_str_map("headers") {
            Some(v) => v,
            None => { return None; },
        };
        let pristine = match j.opt_bool("pristine") {
            Some(v) => v,
            None => { return None; },
        };
        Some(ResponseOptions { headers, pristine })
    }
}

/// Encoding this record and decoding it yields the original value.
pub proof fn lemma_response_options_round_trip(c: ResponseOptionsV)
    ensures
        response_options_of_jv(response_options_jv(c)) == Some(c),
{
    reveal_strlit("headers");
    reveal_strlit("pristine");
    assert("headers"@.len() == 7);
    assert("pristine"@.len() == 8);
    let e = response_options_jv(c);
    assert(jv_opt_str_map(e, "headers"@) == Some(c.headers)) by {
        if c.headers is Some {
            assert(jv_str_pairs(str_pairs_jv(c.headers->0))->0 =~= c.headers->0);
        }
    }
    assert(jv_opt_bool(e, "pristine"@) == Some(c.pristine));
    assert(response_options_of_jv(e)->0 =~= c);
    assert(response_options_of_jv(e) == Some(c));
}

pub open spec fn jv_opt_response_options(j: JsonV, key: Seq<char>) -> Option<Option<ResponseOptionsV>> {
    match json_member(j, key) {
        None => Some(None),
        Some(JsonV::Null) => Some(None),
        Some(v) => match response_options_of_jv(v) {
            Some(x) => Some(Some(x)),
            None => None,
        },
    }
}

pub fn opt_response_options_field(j: &Json, key: &str) -> (r: Option<Option<ResponseOptions>>)
    ensures
        r.deep_view() == jv_opt_response_options(j.deep_view(), key@),
{
    let k = key.to_owned();
    match j.get(&k) {
        None => Some(None),
        Some(Json::Null) => Some(None),
        Some(v) => match ResponseOptions::from_json(v) {
            Some(x) => Some(Some(x)),
            None => None,
        },
    }
}

/// HTTP handling options of a port.
#[derive(Clone, Debug)]
pub struct HttpOptions {
    pub compress: Option<bool>,
    pub h2_backend: Option<bool>,
    pub headers_read_timeout: Option<u64>,
    pub idle_timeout: Option<u64>,
    pub response: Option<ResponseOptions>,
}

#[verifier::ext_equal]
pub struct HttpOptionsV {
    pub compress: Option<bool>,
    pub h2_backend: Option<bool>,
    pub headers_read_timeout: Option<u64>,
    pub idle_timeout: Option<u64>,
    pub response: Option<ResponseOptionsV>,
}

impl DeepView for HttpOptions {
    type V = HttpOptionsV;

    open spec fn deep_view(&self) -> HttpOptionsV {
        HttpOptionsV {
            compress: self.compress,
            h2_backend: self.h2_backend,
            headers_read_timeout: self.headers_read_timeout,
            idle_timeout: self.idle_timeout,
            response: self.response.deep_view(),
        }
    }
}

pub open spec fn http_options_jv(c: HttpOptionsV) -> JsonV {
    let m = Seq::<(Seq<char>, JsonV)>::empty();
    let m = opt_member(m, "compress"@, match c.compress {
        None => None,
        Some(x) => Some(JsonV::Bool(x)),
    });
    let m = opt_member(m, "h2_backend"@, match c.h2_backend {
        None => None,
        Some(x) => Some(JsonV::Bool(x)),
    });
    let m = opt_member(m, "headers_read_timeout"@, match c.headers_read_timeout {
        None => None,
        Some(x) => Some(JsonV::UInt(x)),
    });
    let m = opt_member(m, "idle_timeout"@, match c.idle_timeout {
        None => None,
        Some(x) => Some(JsonV::UInt(x)),
    });
    let m = opt_member(m, "response"@, match c.response {
        None => None,
        Some(x) => Some(response_options_jv(x)),
    });
    JsonV::Obj(m)
}

pub open spec fn http_options_of_jv(j: JsonV) -> Option<HttpOptionsV> {
    if !(j is Obj) {
        None
    } else if jv_opt_bool(j, "compress"@) is None || jv_opt_bool(j, "h2_backend"@) is None || jv_opt_uint(j, "headers_read_timeout"@) is None || jv_opt_uint(j, "idle_timeout"@) is None || jv_opt_response_options(j, "response"@) is None {
        None
    } else {
        Some(HttpOptionsV {
            compress: jv_opt_bool(j, "compress"@)->0,
            h2_backend: jv_opt_bool(j, "h2_backend"@)->0,
            headers_read_timeout: jv_opt_uint(j, "headers_read_timeout"@)->0,
            idle_timeout: jv_opt_uint(j, "idle_timeout"@)->0,
            response: jv_opt_response_options(j, "response"@)->0,
        })
    }
}

impl HttpOptions {
    pub fn to_json(&self) -> (j: Json)
        ensures
            j.deep_view() == http_options_jv(self.deep_view()),
    {
        let mut m: Vec<(String, Json)> = Vec::new();
        if let Some(x) = &self.compress {
            m.push(("compress".to_owned(), Json::Bool(*x)));
        }
        if let Some(x) = &self.h2_backend {
            m.push(("h2_backend".to_owned(), Json::Bool(*x)));
        }
        if let Some(x) = &self.headers_read_timeout {
            m.push(("headers_read_timeout".to_owned(), Json::UInt(*x)));
        }
        if let Some(x) = &self.idle_timeout {
            m.push(("idle_timeout".to_owned(), Json::UInt(*x)));
        }
        if let Some(x) = &self.response {
            m.push(("response".to_owned(), x.to_json()));
        }
        let j = Json::Obj(m);
        proof {
            let ghost mv = m@;
            let ghost sv = http_options_jv(self.deep_view())->Obj_0;
            assert(crate::json::json_pairs_view(mv).len() == sv.len());
            assert(crate::json::json_pairs_view(mv) =~= sv);
        }
        j
    }

    pub fn from_json(j: &Json) -> (r: Option<Self>)
        ensures
            r.deep_view() == http_options_of_jv(j.deep_view()),
    {
        match j {
            Json::Obj(_) => {},
            _ => { return None; },
        }
        let compress = match j.opt_bool("compress") {
            Some(v) => v,
            None => { return None; },
        };
        let h2_backend = match j.opt_bool("h2_backend") {
            Some(v) => v,
            None => { return None; },
        };
        let headers_read_timeout = match j.opt_uint("headers_read_timeout") {
            Some(v) => v,
            None => { return None; },
        };
        let idle_timeout = match j.opt_uint("idle_timeout") {
            Some(v) => v,
            None => { return None; },
        };
        let response = match opt_response_options_field(j, "response") {
            Some(v) => v,
            None => { return None; },
        };
        Some(HttpOptions { compress, h2_backend, headers_read_timeout, idle_timeout, response })
    }
}

/// Encoding this record and decoding it yields the original value.
pub proof fn lemma_http_options_round_trip(c: HttpOptionsV)
    ensures
        http_options_of_jv(http_options_jv(c)) == Some(c),
{
    reveal_strlit("compress");
    reveal_strlit("h2_backend");
    reveal_strlit("headers_read_timeout");
    reveal_strlit("idle_timeout");
    reveal_strlit("response");
    assert("compress"@.len() == 8);
    assert("h2_backend"@.len() == 10);
    assert("headers_read_timeout"@.len() == 20);
    assert("idle_timeout"@.len() == 12);
    assert("response"@.len() == 8);
    assert("compress"@[0] == 'c');
    assert("response"@[0] == 'r');
    let e = http_options_jv(c);
    assert(jv_opt_bool(e, "compress"@) == Some(c.compress));
    assert(jv_opt_bool(e, "h2_backend"@) == Some(c.h2_backend));
    assert(jv_opt_uint(e, "headers_read_timeout"@) == Some(c.headers_read_timeout));
    assert(jv_opt_uint(e, "idle_timeout"@) == Some(c.idle_timeout));
    assert(jv_opt_response_options(e, "response"@) == Some(c.response)) by {
        if c.response is Some {
            lemma_response_options_round_trip(c.response->0);
        }
    }
    assert(http_options_of_jv(e)->0 =~= c);
    assert(http_options_of_jv(e) == Some(c));
}

pub open spec fn jv_opt_http_options(j: JsonV, key: Seq<char>) -> Option<Option<HttpOptionsV>> {
    match json_member(j, key) {
        None => Some(None),
        Some(JsonV::Null) => Some(None),
        Some(v) => match http_options_of_jv(v) {
            Some(x) => Some(Some(x)),
            None => None,
        },
    }
}

pub fn opt_http_options_field(j: &Json, key: &str) -> (r: Option<Option<HttpOptions>>)
    ensures
        r.deep_view() == jv_opt_http_options(j.deep_view(), key@),
{
    let k = key.to_owned();
    match j.get(&k) {
        None => Some(None),
        Some(Json::Null) => Some(None),
        Some(v) => match HttpOptions::from_json(v) {
            Some(x) => Some(Some(x)),
            None => None,
        },
    }
}

/// What a service's concurrency limits count.
#[derive(Clone, Copy, PartialEq, Eq, Structural, Debug)]
pub enum ConcurrencyTypeEnum {
    Connections,
    Requests,
}

impl DeepView for ConcurrencyTypeEnum {
    type V = ConcurrencyTypeEnum;

    open spec fn deep_view(&self) -> ConcurrencyTypeEnum {
        *self
    }
}

pub open spec fn concurrency_type_enum_name(k: ConcurrencyTypeEnum) -> Seq<char> {
    match k {
        ConcurrencyTypeEnum::Connections => "connections"@,
        ConcurrencyTypeEnum::Requests => "requests"@,
    }
}

pub open spec fn concurrency_type_enum_jv(k: ConcurrencyTypeEnum) -> JsonV {
    JsonV::Str(concurrency_type_enum_name(k))
}

pub open spec fn concurrency_type_enum_of_jv(j: JsonV) -> Option<ConcurrencyTypeEnum> {
    match j {
        JsonV::Str(s) => if s == "connections"@ {
            Some(ConcurrencyTypeEnum::Connections)
        } else if s == "requests"@ {
            Some(ConcurrencyTypeEnum::Requests)
        } else {
            None
        },
        _ => None,
    }
}

impl ConcurrencyTypeEnum {
    /// The wire name of this value.
    pub fn code(&self) -> (s: String)
        ensures
            s@ == concurrency_type_enum_name(*self),
    {
        match self {
            ConcurrencyTypeEnum::Connections => "connections".to_owned(),
            ConcurrencyTypeEnum::Requests => "requests".to_owned(),
        }
    }

    pub fn to_json(&self) -> (j: Json)
        ensures
            j.deep_view() == concurrency_type_enum_jv(*self),
    {
        Json::Str(self.code())
    }

    pub fn from_json(j: &Json) -> (r: Option<Self>)
        ensures
            r == concurrency_type_enum_of_jv(j.deep_view()),
    {
        match j {
            Json::Str(s) => {
                if *s == "connections".to_owned() {
                    Some(ConcurrencyTypeEnum::Connections)
                } else if *s == "requests".to_owned() {
                    Some(ConcurrencyTypeEnum::Requests)
                } else {
                    None
                }
            },
            _ => None,
        }
    }
}

pub open spec fn jv_opt_concurrency_type_enum(j: JsonV, key: Seq<char>) -> Option<Option<ConcurrencyTypeEnum>> {
    match json_member(j, key) {
        None => Some(None),
        Some(JsonV::Null) => Some(None),
        Some(v) => match concurrency_type_enum_of_jv(v) {
            Some(k) => Some(Some(k)),
            None => None,
        },
    }
}

pub fn opt_concurrency_type_enum_field(j: &Json, key: &str) -> (r: Option<Option<ConcurrencyTypeEnum>>)
    ensures
        r == jv_opt_concurrency_type_enum(j.deep_view(), key@),
{
    let k = key.to_owned();
    match j.get(&k) {
        None => Some(None),
        Some(Json::Null) => Some(None),
        Some(v) => match ConcurrencyTypeEnum::from_json(v) {
            Some(x) => Some(Some(x)),
            None => None,
        },
    }
}

pub proof fn lemma_concurrency_type_enum_round_trip(k: ConcurrencyTypeEnum)
    ensures
        concurrency_type_enum_of_jv(concurrency_type_enum_jv(k)) == Some(k),
{
    reveal_strlit("connections");
    reveal_strlit("requests");
    assert("connections"@.len() == 11);
    assert("requests"@.len() == 8);
}

/// Concurrency limits of a service.
#[derive(Clone, Debug)]
pub struct ConcurrencyConfig {
    pub hard_limit: Option<u32>,
    pub soft_limit: Option<u32>,
    pub concurrency_type: Option<String>,
}

#[verifier::ext_equal]
pub struct ConcurrencyConfigV {
    pub hard_limit: Option<u32>,
    pub soft_limit: Option<u32>,
    pub concurrency_type: Option<Seq<char>>,
}

impl DeepView for ConcurrencyConfig {
    type V = ConcurrencyConfigV;

    open spec fn deep_view(&self) -> ConcurrencyConfigV {
        ConcurrencyConfigV {
            hard_limit: self.hard_limit,
            soft_limit: self.soft_limit,
            concurrency_type: self.concurrency_type.deep_view(),
        }
    }
}

pub open spec fn concurrency_config_jv(c: ConcurrencyConfigV) -> JsonV {
    let m = Seq::<(Seq<char>, JsonV)>::empty();
    let m = opt_member(m, "hard_limit"@, match c.hard_limit {
        None => None,
        Some(x) => Some(JsonV::UInt(x as u64)),
    });
    let m = opt_member(m, "soft_limit"@, match c.soft_limit {
        None => None,
        Some(x) => Some(JsonV::UInt(x as u64)),
    });
    let m = opt_member(m, "concurrency_type"@, match c.concurrency_type {
        None => None,
        Some(x) => Some(JsonV::Str(x)),
    });
    JsonV::Obj(m)
}

pub open spec fn concurrency_config_of_jv(j: JsonV) -> Option<ConcurrencyConfigV> {
    if !(j is Obj) {
        None
    } else if jv_opt_u32(j, "hard_limit"@) is None || jv_opt_u32(j, "soft_limit"@) is None || jv_opt_str(j, "concurrency_type"@) is None {
        None
    } else {
        Some(ConcurrencyConfigV {
            hard_limit: jv_opt_u32(j, "hard_limit"@)->0,
            soft_limit: jv_opt_u32(j, "soft_limit"@)->0,
            concurrency_type: jv_opt_str(j, "concurrency_type"@)->0,
        })
    }
}

impl ConcurrencyConfig {
    pub fn to_json(&self) -> (j: Json)
        ensures
            j.deep_view() == concurrency_config_jv(self.deep_view()),
    {
        let mut m: Vec<(String, Json)> = Vec::new();
        if let Some(x) = &self.hard_limit {
            m.push(("hard_limit".to_owned(), Json::UInt(*x as u64)));
        }
        if let Some(x) = &self.soft_limit {
            m.push(("soft_limit".to_owned(), Json::UInt(*x as u64)));
        }
        if let Some(x) = &self.concurrency_type {
            m.push(("concurrency_type".to_owned(), Json::Str(x.clone())));
        }
        let j = Json::Obj(m);
        proof {
            let ghost mv = m@;
            let ghost sv = concurrency_config_jv(self.deep_view())->Obj_0;
            assert(crate::json::json_pairs_view(mv).len() == sv.len());
            assert(crate::json::json_pairs_view(mv) =~= sv);
        }
        j
    }

    pub fn from_json(j: &Json) -> (r: Option<Self>)
        ensures
            r.deep_view() == concurrency_config_of_jv(j.deep_view()),
    {
        match j {
            Json::Obj(_) => {},
            _ => { return None; },
        }
        let hard_limit = match j.opt_u32("hard_limit") {
            Some(v) => v,
            None => { return None; },
        };
        let soft_limit = match j.opt_u32("soft_limit") {
            Some(v) => v,
            None => { return None; },
        };
        let concurrency_type = match j.opt_str("concurrency_type") {
            Some(v) => v,
            None => { return None; },
        };
        Some(ConcurrencyConfig { hard_limit, soft_limit, concurrency_type })
    }
}

/// Encoding this record and decoding it yields the original value.
pub proof fn lemma_concurrency_config_round_trip(c: ConcurrencyConfigV)
    ensures
        concurrency_config_of_jv(concurrency_config_jv(c)) == Some(c),
{
    reveal_strlit("hard_limit");
    reveal_strlit("soft_limit");
    reveal_strlit("concurrency_type");
    assert("hard_limit"@.len() == 10);
    assert("soft_limit"@.len() == 10);
    assert("concurrency_type"@.len() == 16);
    assert("hard_limit"@[0] == 'h');
    assert("soft_limit"@[0] == 's');
    let e = concurrency_config_jv(c);
    assert(jv_opt_u32(e, "hard_limit"@) == Some(c.hard_limit));
    assert(jv_opt_u32(e, "soft_limit"@) == Some(c.soft_limit));
    assert(jv_opt_str(e, "concurrency_type"@) == Some(c.concurrency_type));
    assert(concurrency_config_of_jv(e)->0 =~= c);
    assert(concurrency_config_of_jv(e) == Some(c));
}

pub open spec fn jv_opt_concurrency_config(j: JsonV, key: Seq<char>) -> Option<Option<ConcurrencyConfigV>> {
    match json_member(j, key) {
        None => Some(None),
        Some(JsonV::Null) => Some(None),
        Some(v) => match concurrency_config_of_jv(v) {
            Some(x) => Some(Some(x)),
            None => None,
        },
    }
}

pub fn opt_concurrency_config_field(j: &Json, key: &str) -> (r: Option<Option<ConcurrencyConfig>>)
    ensures
        r.deep_view() == jv_opt_concurrency_config(j.deep_view(), key@),
{
    let k = key.to_owned();
    match j.get(&k) {
        None => Some(None),
        Some(Json::Null) => Some(None),
        Some(v) => match ConcurrencyConfig::from_json(v) {
            Some(x) => Some(Some(x)),
            None => None,
        },
    }
}

/// One exposed port or port range of a service.
#[derive(Clone, Debug)]
pub struct MachinePort {
    pub end_port: Option<u16>,
    pub force_https: Option<bool>,
    pub handlers: Option<Vec<String>>,
    pub http_options: Option<HttpOptions>,
    pub proxy_proto_options: Option<ProxyProtoOptions>,
    pub start_port: Option<u16>,
    pub tls_options: Option<TlsOptions>,
}

#[verifier::ext_equal]
pub struct MachinePortV {
    pub end_port: Option<u16>,
    pub force_https: Option<bool>,
    pub handlers: Option<Seq<Seq<char>>>,
    pub http_options: Option<HttpOptionsV>,
    pub proxy_proto_options: Option<ProxyProtoOptionsV>,
    pub start_port: Option<u16>,
    pub tls_options: Option<TlsOptionsV>,
}

impl DeepView for MachinePort {
    type V = MachinePortV;

    open spec fn deep_view(&self) -> MachinePortV {
        MachinePortV {
            end_port: self.end_port,
            force_https: self.force_https,
            handlers: self.handlers.deep_view(),
            http_options: self.http_options.deep_view(),
            proxy_proto_options: self.proxy_proto_options.deep_view(),
            start_port: self.start_port,
            tls_options: self.tls_options.deep_view(),
        }
    }
}

pub open spec fn machine_port_jv(c: MachinePortV) -> JsonV {
    let m = Seq::<(Seq<char>, JsonV)>::empty();
    let m = opt_member(m, "end_port"@, match c.end_port {
        None => None,
        Some(x) => Some(JsonV::UInt(x as u64)),
    });
    let m = opt_member(m, "force_https"@, match c.force_https {
        None => None,
        Some(x) => Some(JsonV::Bool(x)),
    });
    let m = opt_member(m, "handlers"@, match c.handlers {
        None => None,
        Some(x) => Some(JsonV::Arr(str_seq_jv(x))),
    });
    let m = opt_member(m, "http_options"@, match c.http_options {
        None => None,
        Some(x) => Some(http_options_jv(x)),
    });
    let m = opt_member(m, "proxy_proto_options"@, match c.proxy_proto_options {
        None => None,
        Some(x) => Some(proxy_proto_options_jv(x)),
    });
    let m = opt_member(m, "start_port"@, match c.start_port {
        None => None,
        Some(x) => Some(JsonV::UInt(x as u64)),
    });
    let m = opt_member(m, "tls_options"@, match c.tls_options {
        None => None,
        Some(x) => Some(tls_options_jv(x)),
    });
    JsonV::Obj(m)
}

pub open spec fn machine_port_of_jv(j: JsonV) -> Option<MachinePortV> {
    if !(j is Obj) {
        None
    } else if jv_opt_u16(j, "end_port"@) is None || jv_opt_bool(j, "force_https"@) is None || jv_opt_str_arr(j, "handlers"@) is None || jv_opt_http_options(j, "http_options"@) is None || jv_opt_proxy_proto_options(j, "proxy_proto_options"@) is None || jv_opt_u16(j, "start_port"@) is None || jv_opt_tls_options(j, "tls_options"@) is None {
        None
    } else {
        Some(MachinePortV {
            end_port: jv_opt_u16(j, "end_port"@)->0,
            force_https: jv_opt_bool(j, "force_https"@)->0,
            handlers: jv_opt_str_arr(j, "handlers"@)->0,
            http_options: jv_opt_http_options(j, "http_options"@)->0,
            proxy_proto_options: jv_opt_proxy_proto_options(j, "proxy_proto_options"@)->0,
            start_port: jv_opt_u16(j, "start_port"@)->0,
            tls_options: jv_opt_tls_options(j, "tls_options"@)->0,
        })
    }
}

impl MachinePort {
    #[verifier::rlimit(50)]
    pub fn to_json(&self) -> (j: Json)
        ensures
            j.deep_view() == machine_port_jv(self.deep_view()),
    {
        let mut m: Vec<(String, Json)> = Vec::new();
        if let Some(x) = &self.end_port {
            m.push(("end_port".to_owned(), Json::UInt(*x as u64)));
        }
        if let Some(x) = &self.force_https {
            m.push(("force_https".to_owned(), Json::Bool(*x)));
        }
        if let Some(x) = &self.handlers {
            m.push(("handlers".to_owned(), Json::from_strings(x)));
        }
        if let Some(x) = &self.http_options {
            m.push(("http_options".to_owned(), x.to_json()));
        }
        if let Some(x) = &self.proxy_proto_options {
            m.push(("proxy_proto_options".to_owned(), x.to_json()));
        }
        if let Some(x) = &self.start_port {
            m.push(("start_port".to_owned(), Json::UInt(*x as u64)));
        }
        if let Some(x) = &self.tls_options {
            m.push(("tls_options".to_owned(), x.to_json()));
        }
        let j = Json::Obj(m);
        proof {
            let ghost mv = m@;
            let ghost sv = machine_port_jv(self.deep_view())->Obj_0;
            assert(crate::json::json_pairs_view(mv).len() == sv.len());
            assert(crate::json::json_pairs_view(mv) =~= sv);
        }
        j
    }

    #[verifier::rlimit(50)]
    pub fn from_json(j: &Json) -> (r: Option<Self>)
        ensures
            r.deep_view() == machine_port_of_jv(j.deep_view()),
    {
        match j {
            Json::Obj(_) => {},
            _ => { return None; },
        }
        let end_port = match j.opt_u16("end_port") {
            Some(v) => v,
            None => { return None; },
        };
        let force_https = match j.opt_bool("force_https") {
            Some(v) => v,
            None => { return None; },
        };
        let handlers = match j.opt_str_arr("handlers") {
            Some(v) => v,
            None => { return None; },
        };
        let http_options = match opt_http_options_field(j, "http_options") {
            Some(v) => v,
            None => { return None; },
        };
        let proxy_proto_options = match opt_proxy_proto_options_field(j, "proxy_proto_options") {
            Some(v) => v,
            None => { return None; },
        };
        let start_port = match j.opt_u16("start_port") {
            Some(v) => v,
            None => { return None; },
        };
        let tls_options = match opt_tls_options_field(j, "tls_options") {
            Some(v) => v,
            None => { return None; },
        };
        Some(MachinePort { end_port, force_https, handlers, http_options, proxy_proto_options, start_port, tls_options })
    }
}

/// Encoding this record and decoding it yields the original value.
#[verifier::rlimit(50)]
pub proof fn lemma_machine_port_round_trip(c: MachinePortV)
    ensures
        machine_port_of_jv(machine_port_jv(c)) == Some(c),
{
    reveal_strlit("end_port");
    reveal_strlit("force_https");
    reveal_strlit("handlers");
    reveal_strlit("http_options");
    reveal_strlit("proxy_proto_options");
    reveal_strlit("start_port");
    reveal_strlit("tls_options");
    assert("end_port"@.len() == 8);
    assert("force_https"@.len() == 11);
    assert("handlers"@.len() == 8);
    assert("http_options"@.len() == 12);
    assert("proxy_proto_options"@.len() == 19);
    assert("start_port"@.len() == 10);
    assert("tls_options"@.len() == 11);
    assert("end_port"@[0] == 'e');
    assert("handlers"@[0] == 'h');
    assert("force_https"@[0] == 'f');
    assert("tls_options"@[0] == 't');
    let e = machine_port_jv(c);
    assert(jv_opt_u16(e, "end_port"@) == Some(c.end_port));
    assert(jv_opt_bool(e, "force_https"@) == Some(c.force_https));
    assert(jv_opt_str_arr(e, "handlers"@) == Some(c.handlers)) by {
        if c.handlers is Some {
            assert(jv_str_seq(str_seq_jv(c.handlers->0))->0 =~= c.handlers->0);
        }
    }
    assert(jv_opt_http_options(e, "http_options"@) == Some(c.http_options)) by {
        if c.http_options is Some {
            lemma_http_options_round_trip(c.http_options->0);
        }
    }
    assert(jv_opt_proxy_proto_options(e, "proxy_proto_options"@) == Some(c.proxy_proto_options)) by {
        if c.proxy_proto_options is Some {
            lemma_proxy_proto_options_round_trip(c.proxy_proto_options->0);
        }
    }
    assert(jv_opt_u16(e, "start_port"@) == Some(c.start_port));
    assert(jv_opt_tls_options(e, "tls_options"@) == Some(c.tls_options)) by {
        if c.tls_options is Some {
            lemma_tls_options_round_trip(c.tls_options->0);
        }
    }
    assert(machine_port_of_jv(e)->0 =~= c);
    assert(machine_port_of_jv(e) == Some(c));
}

pub open spec fn machine_port_seq_jv(s: Seq<MachinePortV>) -> Seq<JsonV> {
    Seq::new(s.len(), |i: int| machine_port_jv(s[i]))
}

pub open spec fn machine_port_seq_of(items: Seq<JsonV>) -> Option<Seq<MachinePortV>> {
    if forall|k: int| 0 <= k < items.len() ==> machine_port_of_jv(#[trigger] items[k]) is Some {
        Some(Seq::new(items.len(), |k: int| machine_port_of_jv(items[k])->0))
    } else {
        None
    }
}

pub open spec fn jv_opt_machine_port_arr(j: JsonV, key: Seq<char>) -> Option<
    Option<Seq<MachinePortV>>,
> {
    match json_member(j, key) {
        None => Some(None),
        Some(JsonV::Null) => Some(None),
        Some(JsonV::Arr(items)) => match machine_port_seq_of(items) {
            None => None,
            Some(xs) => Some(Some(xs)),
        },
        Some(_) => None,
    }
}

/// Builds the array for a list of these records.
pub fn machine_port_arr_json(list: &Vec<MachinePort>) -> (j: Json)
    ensures
        j.deep_view() == JsonV::Arr(machine_port_seq_jv(list.deep_view())),
{
    let mut out: Vec<Json> = Vec::new();
    let n = list.len();
    for i in 0..n
        invariant
            n == list.len(),
            out@.len() == i,
            forall|p: int| 0 <= p < i
                ==> (#[trigger] out@[p]).deep_view() == machine_port_jv(list@[p].deep_view()),
    {
        out.push(list[i].to_json());
    }
    let j = Json::Arr(out);
    proof {
        let ghost ov = out@;
        assert(json_seq_view(ov).len() == machine_port_seq_jv(list.deep_view()).len());
        assert(json_seq_view(ov) =~= machine_port_seq_jv(list.deep_view()));
    }
    j
}

/// Reads an optional member holding an array of these records.
pub fn opt_machine_port_arr_field(j: &Json, key: &str) -> (r: Option<Option<Vec<MachinePort>>>)
    ensures
        r.deep_view() == jv_opt_machine_port_arr(j.deep_view(), key@),
{
    let k = key.to_owned();
    match j.get(&k) {
        None => Some(None),
        Some(Json::Null) => Some(None),
        Some(v) => match v {
            Json::Arr(items) => {
                let ghost iv = json_seq_view(items@);
                let mut out: Vec<MachinePort> = Vec::new();
                let n = items.len();
                for i in 0..n
                    invariant
                        n == items.len(),
                        iv == json_seq_view(items@),
                        json_member(j.deep_view(), key@) == Some(JsonV::Arr(iv)),
                        iv.len() == n,
                        out@.len() == i,
                        forall|p: int| 0 <= p < i
                            ==> machine_port_of_jv(#[trigger] iv[p]) is Some,
                        forall|p: int| 0 <= p < i
                            ==> (#[trigger] out@[p]).deep_view() == machine_port_of_jv(iv[p])->0,
                {
                    match MachinePort::from_json(&items[i]) {
                        Some(x) => { out.push(x); },
                        None => {
                            proof {
                                assert(machine_port_of_jv(iv[i as int]) is None);
                            }
                            return None;
                        },
                    }
                }
                proof {
                    assert(out.deep_view() =~= machine_port_seq_of(iv)->0);
                }
                Some(Some(out))
            },
            _ => None,
        },
    }
}

/// What the proxy does with an idle machine.
#[derive(Clone, Copy, PartialEq, Eq, Structural, Debug)]
pub enum AutostopEnum {
    Off,
    Stop,
    Suspend,
}

impl DeepView for AutostopEnum {
    type V = AutostopEnum;

    open spec fn deep_view(&self) -> AutostopEnum {
        *self
    }
}

pub open spec fn autostop_enum_name(k: AutostopEnum) -> Seq<char> {
    match k {
        AutostopEnum::Off => "off"@,
        AutostopEnum::Stop => "stop"@,
        AutostopEnum::Suspend => "suspend"@,
    }
}

pub open spec fn autostop_enum_jv(k: AutostopEnum) -> JsonV {
    JsonV::Str(autostop_enum_name(k))
}

pub open spec fn autostop_enum_of_jv(j: JsonV) -> Option<AutostopEnum> {
    match j {
        JsonV::Str(s) => if s == "off"@ {
            Some(AutostopEnum::Off)
        } else if s == "stop"@ {
            Some(AutostopEnum::Stop)
        } else if s == "suspend"@ {
            Some(AutostopEnum::Suspend)
        } else {
            None
        },
        _ => None,
    }
}

impl AutostopEnum {
    /// The wire name of this value.
    pub fn code(&self) -> (s: String)
        ensures
            s@ == autostop_enum_name(*self),
    {
        match self {
            AutostopEnum::Off => "off".to_owned(),
            AutostopEnum::Stop => "stop".to_owned(),
            AutostopEnum::Suspend => "suspend".to_owned(),
        }
    }

    pub fn to_json(&self) -> (j: Json)
        ensures
            j.deep_view() == autostop_enum_jv(*self),
    {
        Json::Str(self.code())
    }

    pub fn from_json(j: &Json) -> (r: Option<Self>)
        ensures
            r == autostop_enum_of_jv(j.deep_view()),
    {
        match j {
            Json::Str(s) => {
                if *s == "off".to_owned() {
                    Some(AutostopEnum::Off)
                } else if *s == "stop".to_owned() {
                    Some(AutostopEnum::Stop)
                } else if *s == "suspend".to_owned() {
                    Some(AutostopEnum::Suspend)
                } else {
                    None
                }
            },
            _ => None,
        }
    }
}

pub open spec fn jv_opt_autostop_enum(j: JsonV, key: Seq<char>) -> Option<Option<AutostopEnum>> {
    match json_member(j, key) {
        None => Some(None),
        Some(JsonV::Null) => Some(None),
        Some(v) => match autostop_enum_of_jv(v) {
            Some(k) => Some(Some(k)),
            None => None,
        },
    }
}

pub fn opt_autostop_enum_field(j: &Json, key: &str) -> (r: Option<Option<AutostopEnum>>)
    ensures
        r == jv_opt_autostop_enum(j.deep_view(), key@),
{
    let k = key.to_owned();
    match j.get(&k) {
        None => Some(None),
        Some(Json::Null) => Some(None),
        Some(v) => match AutostopEnum::from_json(v) {
            Some(x) => Some(Some(x)),
            None => None,
        },
    }
}

pub proof fn lemma_autostop_enum_round_trip(k: AutostopEnum)
    ensures
        autostop_enum_of_jv(autostop_enum_jv(k)) == Some(k),
{
    reveal_strlit("off");
    reveal_strlit("stop");
    reveal_strlit("suspend");
    assert("off"@.len() == 3);
    assert("stop"@.len() == 4);
    assert("suspend"@.len() == 7);
}

/// A network service exposed by a machine.
#[derive(Clone, Debug)]
pub struct ServiceConfig {
    pub autostart: Option<bool>,
    pub autostop: Option<String>,
    pub concurrency: Option<ConcurrencyConfig>,
    pub ports: Option<Vec<MachinePort>>,
    pub internal_port: Option<u16>,
}

#[verifier::ext_equal]
pub struct ServiceConfigV {
    pub autostart: Option<bool>,
    pub autostop: Option<Seq<char>>,
    pub concurrency: Option<ConcurrencyConfigV>,
    pub ports: Option<Seq<MachinePortV>>,
    pub internal_port: Option<u16>,
}

impl DeepView for ServiceConfig {
    type V = ServiceConfigV;

    open spec fn deep_view(&self) -> ServiceConfigV {
        ServiceConfigV {
            autostart: self.autostart,
            autostop: self.autostop.deep_view(),
            concurrency: self.concurrency.deep_view(),
            ports: self.ports.deep_view(),
            internal_port: self.internal_port,
        }
    }
}

pub open spec fn service_config_jv(c: ServiceConfigV) -> JsonV {
    let m = Seq::<(Seq<char>, JsonV)>::empty();
    let m = opt_member(m, "autostart"@, match c.autostart {
        None => None,
        Some(x) => Some(JsonV::Bool(x)),
    });
    let m = opt_member(m, "autostop"@, match c.autostop {
        None => None,
        Some(x) => Some(JsonV::Str(x)),
    });
    let m = opt_member(m, "concurrency"@, match c.concurrency {
        None => None,
        Some(x) => Some(concurrency_config_jv(x)),
    });
    let m = opt_member(m, "ports"@, match c.ports {
        None => None,
        Some(x) => Some(JsonV::Arr(machine_port_seq_jv(x))),
    });
    let m = opt_member(m, "internal_port"@, match c.internal_port {
        None => None,
        Some(x) => Some(JsonV::UInt(x as u64)),
    });
    JsonV::Obj(m)
}

pub open spec fn service_config_of_jv(j: JsonV) -> Option<ServiceConfigV> {
    if !(j is Obj) {
        None
    } else if jv_opt_bool(j, "autostart"@) is None || jv_opt_str(j, "autostop"@) is None || jv_opt_concurrency_config(j, "concurrency"@) is None || jv_opt_machine_port_arr(j, "ports"@) is None || jv_opt_u16(j, "internal_port"@) is None {
        None
    } else {
        Some(ServiceConfigV {
            autostart: jv_opt_bool(j, "autostart"@)->0,
            autostop: jv_opt_str(j, "autostop"@)->0,
            concurrency: jv_opt_concurrency_config(j, "concurrency"@)->0,
            ports: jv_opt_machine_port_arr(j, "ports"@)->0,
            internal_port: jv_opt_u16(j, "internal_port"@)->0,
        })
    }
}

impl ServiceConfig {
    #[verifier::rlimit(50)]
    pub fn to_json(&self) -> (j: Json)
        ensures
            j.deep_view() == service_config_jv(self.deep_view()),
    {
        let mut m: Vec<(String, Json)> = Vec::new();
        if let Some(x) = &self.autostart {
            m.push(("autostart".to_owned(), Json::Bool(*x)));
        }
        if let Some(x) = &self.autostop {
            m.push(("autostop".to_owned(), Json::Str(x.clone())));
        }
        if let Some(x) = &self.concurrency {
            m.push(("concurrency".to_owned(), x.to_json()));
        }
        if let Some(x) = &self.ports {
            m.push(("ports".to_owned(), machine_port_arr_json(x)));
        }
        if let Some(x) = &self.internal_port {
            m.push(("internal_port".to_owned(), Json::UInt(*x as u64)));
        }
        let j = Json::Obj(m);
        proof {
            let ghost mv = m@;
            let ghost sv = service_config_jv(self.deep_view())->Obj_0;
            assert(crate::json::json_pairs_view(mv).len() == sv.len());
            assert(crate::json::json_pairs_view(mv) =~= sv);
        }
        j
    }

    #[verifier::rlimit(50)]
    pub fn from_json(j: &Json) -> (r: Option<Self>)
        ensures
            r.deep_view() == service_config_of_jv(j.deep_view()),
    {
        match j {
            Json::Obj(_) => {},
            _ => { return None; },
        }
        let autostart = match j.opt_bool("autostart") {
            Some(v) => v,
            None => { return None; },
        };
        let autostop = match j.opt_str("autostop") {
            Some(v) => v,
            None => { return None; },
        };
        let concurrency = match opt_concurrency_config_field(j, "concurrency") {
            Some(v) => v,
            None => { return None; },
        };
        let ports = match opt_machine_port_arr_field(j, "ports") {
            Some(v) => v,
            None => { return None; },
        };
        let internal_port = match j.opt_u16("internal_port") {
            Some(v) => v,
            None => { return None; },
        };
        Some(ServiceConfig { autostart, autostop, concurrency, ports, internal_port })
    }
}

/// Encoding this record and decoding it yields the original value.
#[verifier::rlimit(50)]
pub proof fn lemma_service_config_round_trip(c: ServiceConfigV)
    ensures
        service_config_of_jv(service_config_jv(c)) == Some(c),
{
    reveal_strlit("autostart");
    reveal_strlit("autostop");
    reveal_strlit("concurrency");
    reveal_strlit("ports");
    reveal_strlit("internal_port");
    assert("autostart"@.len() == 9);
    assert("autostop"@.len() == 8);
    assert("concurrency"@.len() == 11);
    assert("ports"@.len() == 5);
    assert("internal_port"@.len() == 13);
    let e = service_config_jv(c);
    assert(jv_opt_bool(e, "autostart"@) == Some(c.autostart));
    assert(jv_opt_str(e, "autostop"@) == Some(c.autostop));
    assert(jv_opt_concurrency_config(e, "concurrency"@) == Some(c.concurrency)) by {
        if c.concurrency is Some {
            lemma_concurrency_config_round_trip(c.concurrency->0);
        }
    }
    assert(jv_opt_machine_port_arr(e, "ports"@) == Some(c.ports)) by {
        if c.ports is Some {
            let xs = c.ports->0;
            assert forall|k: int| 0 <= k < xs.len() implies machine_port_of_jv(
                #[trigger] machine_port_seq_jv(xs)[k],
            ) is Some by {
                lemma_machine_port_round_trip(xs[k]);
            }
            assert(machine_port_seq_of(machine_port_seq_jv(xs)) is Some);
            assert forall|k: int| 0 <= k < xs.len() implies machine_port_seq_of(
                machine_port_seq_jv(xs),
            )->0[k] == xs[k] by {
                lemma_machine_port_round_trip(xs[k]);
            }
            assert(machine_port_seq_of(machine_port_seq_jv(xs))->0 =~= xs);
        }
    }
    assert(jv_opt_u16(e, "internal_port"@) == Some(c.internal_port));
    assert(service_config_of_jv(e)->0 =~= c);
    assert(service_config_of_jv(e) == Some(c));
}

pub open spec fn service_config_seq_jv(s: Seq<ServiceConfigV>) -> Seq<JsonV> {
    Seq::new(s.len(), |i: int| service_config_jv(s[i]))
}

pub open spec fn service_config_seq_of(items: Seq<JsonV>) -> Option<Seq<ServiceConfigV>> {
    if forall|k: int| 0 <= k < items.len() ==> service_config_of_jv(#[trigger] items[k]) is Some {
        Some(Seq::new(items.len(), |k: int| service_config_of_jv(items[k])->0))
    } else {
        None
    }
}

pub open spec fn jv_opt_service_config_arr(j: JsonV, key: Seq<char>) -> Option<
    Option<Seq<ServiceConfigV>>,
> {
    match json_member(j, key) {
        None => Some(None),
        Some(JsonV::Null) => Some(None),
        Some(JsonV::Arr(items)) => match service_config_seq_of(items) {
            None => None,
            Some(xs) => Some(Some(xs)),
        },
        Some(_) => None,
    }
}

/// Builds the array for a list of these records.
pub fn service_config_arr_json(list: &Vec<ServiceConfig>) -> (j: Json)
    ensures
        j.deep_view() == JsonV::Arr(service_config_seq_jv(list.deep_view())),
{
    let mut out: Vec<Json> = Vec::new();
    let n = list.len();
    for i in 0..n
        invariant
            n == list.len(),
            out@.len() == i,
            forall|p: int| 0 <= p < i
                ==> (#[trigger] out@[p]).deep_view() == service_config_jv(list@[p].deep_view()),
    {
        out.push(list[i].to_json());
    }
    let j = Json::Arr(out);
    proof {
        let ghost ov = out@;
        assert(json_seq_view(ov).len() == service_config_seq_jv(list.deep_view()).len());
        assert(json_seq_view(ov) =~= service_config_seq_jv(list.deep_view()));
    }
    j
}

/// Reads an optional member holding an array of these records.
pub fn opt_service_config_arr_field(j: &Json, key: &str) -> (r: Option<Option<Vec<ServiceConfig>>>)
    ensures
        r.deep_view() == jv_opt_service_config_arr(j.deep_view(), key@),
{
    let k = key.to_owned();
    match j.get(&k) {
        None => Some(None),
        Some(Json::Null) => Some(None),
        Some(v) => match v {
            Json::Arr(items) => {
                let ghost iv = json_seq_view(items@);
                let mut out: Vec<ServiceConfig> = Vec::new();
                let n = items.len();
                for i in 0..n
                    invariant
                        n == items.len(),
                        iv == json_seq_view(items@),
                        json_member(j.deep_view(), key@) == Some(JsonV::Arr(iv)),
                        iv.len() == n,
                        out@.len() == i,
                        forall|p: int| 0 <= p < i
                            ==> service_config_of_jv(#[trigger] iv[p]) is Some,
                        forall|p: int| 0 <= p < i
                            ==> (#[trigger] out@[p]).deep_view() == service_config_of_jv(iv[p])->0,
                {
                    match ServiceConfig::from_json(&items[i]) {
                        Some(x) => { out.push(x); },
                        None => {
                            proof {
                                assert(service_config_of_jv(iv[i as int]) is None);
                            }
                            return None;
                        },
                    }
                }
                proof {
                    assert(out.deep_view() =~= service_config_seq_of(iv)->0);
                }
                Some(Some(out))
            },
            _ => None,
        },
    }
}

} // verus!
