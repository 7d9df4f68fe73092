//! Health checks of a machine, and the builder that assembles one.

use super::{jv_opt_timeout, opt_timeout_field, timeout_config_jv, TimeoutConfig};
use crate::json::{
    json_lookup, json_member, json_seq_view, jv_opt_bool, jv_opt_str, jv_opt_u16, jv_req_str,
    jv_req_str_arr, jv_str_seq, opt_member, str_seq_jv, Json, JsonV,
};
use vstd::prelude::*;

verus! {

broadcast use crate::json::lemma_lookup_push, crate::json::lemma_lookup_append, crate::json::lemma_pairs_view_append, vstd::string::group_string_axioms, vstd::seq::group_seq_axioms, vstd::std_specs::vec::group_vec_axioms;


/// Whether a failing check blocks deployment or only informs.
#[derive(Clone, Copy, PartialEq, Eq, Structural, Debug)]
pub enum CheckKind {
    Informational,
    Readiness,
}

impl DeepView for CheckKind {
    type V = CheckKind;

    open spec fn deep_view(&self) -> CheckKind {
        *self
    }
}

pub open spec fn check_kind_name(k: CheckKind) -> Seq<char> {
    match k {
        CheckKind::Informational => "informational"@,
        CheckKind::Readiness => "readiness"@,
    }
}

pub open spec fn check_kind_jv(k: CheckKind) -> JsonV {
    JsonV::Str(check_kind_name(k))
}

pub open spec fn check_kind_of_jv(j: JsonV) -> Option<CheckKind> {
    match j {
        JsonV::Str(s) => if s == "informational"@ {
            Some(CheckKind::Informational)
        } else if s == "readiness"@ {
            Some(CheckKind::Readiness)
        } else {
            None
        },
        _ => None,
    }
}

impl CheckKind {
    /// The wire name of this value.
    pub fn code(&self) -> (s: String)
        ensures
            s@ == check_kind_name(*self),
    {
        match self {
            CheckKind::Informational => "informational".to_owned(),
            CheckKind::Readiness => "readiness".to_owned(),
        }
    }

    pub fn to_json(&self) -> (j: Json)
        ensures
            j.deep_view() == check_kind_jv(*self),
    {
        Json::Str(self.code())
    }

    pub fn from_json(j: &Json) -> (r: Option<Self>)
        ensures
            r == check_kind_of_jv(j.deep_view()),
    {
        match j {
            Json::Str(s) => {
                if *s == "informational".to_owned() {
                    Some(CheckKind::Informational)
                } else if *s == "readiness".to_owned() {
                    Some(CheckKind::Readiness)
                } else {
                    None
                }
            },
            _ => None,
        }
    }
}

pub open spec fn jv_opt_check_kind(j: JsonV, key: Seq<char>) -> Option<Option<CheckKind>> {
    match json_member(j, key) {
        None => Some(None),
        Some(JsonV::Null) => Some(None),
        Some(v) => match check_kind_of_jv(v) {
            Some(k) => Some(Some(k)),
            None => None,
        },
    }
}

pub fn opt_check_kind_field(j: &Json, key: &str) -> (r: Option<Option<CheckKind>>)
    ensures
        r == jv_opt_check_kind(j.deep_view(), key@),
{
    let k = key.to_owned();
    match j.get(&k) {
        None => Some(None),
        Some(Json::Null) => Some(None),
        Some(v) => match CheckKind::from_json(v) {
            Some(x) => Some(Some(x)),
            None => None,
        },
    }
}

pub proof fn lemma_check_kind_round_trip(k: CheckKind)
    ensures
        check_kind_of_jv(check_kind_jv(k)) == Some(k),
{
    reveal_strlit("informational");
    reveal_strlit("readiness");
    assert("informational"@.len() == 13);
    assert("readiness"@.len() == 9);
}

/// How a check probes the machine.
#[derive(Clone, Copy, PartialEq, Eq, Structural, Debug)]
pub enum CheckType {
    Tcp,
    Http,
}

impl DeepView for CheckType {
    type V = CheckType;

    open spec fn deep_view(&self) -> CheckType {
        *self
    }
}

pub open spec fn check_type_enum_name(k: CheckType) -> Seq<char> {
    match k {
        CheckType::Tcp => "tcp"@,
        CheckType::Http => "http"@,
    }
}

pub open spec fn check_type_enum_jv(k: CheckType) -> JsonV {
    JsonV::Str(check_type_enum_name(k))
}

pub open spec fn check_type_enum_of_jv(j: JsonV) -> Option<CheckType> {
    match j {
        JsonV::Str(s) => if s == "tcp"@ {
            Some(CheckType::Tcp)
        } else if s == "http"@ {
            Some(CheckType::Http)
        } else {
            None
        },
        _ => None,
    }
}

impl CheckType {
    /// The wire name of this value.
    pub fn code(&self) -> (s: String)
        ensures
            s@ == check_type_enum_name(*self),
    {
        match self {
            CheckType::Tcp => "tcp".to_owned(),
            CheckType::Http => "http".to_owned(),
        }
    }

    pub fn to_json(&self) -> (j: Json)
        ensures
            j.deep_view() == check_type_enum_jv(*self),
    {
        Json::Str(self.code())
    }

    pub fn from_json(j: &Json) -> (r: Option<Self>)
        ensures
            r == check_type_enum_of_jv(j.deep_view()),
    {
        match j {
            Json::Str(s) => {
                if *s == "tcp".to_owned() {
                    Some(CheckType::Tcp)
                } else if *s == "http".to_owned() {
                    Some(CheckType::Http)
                } else {
                    None
                }
            },
            _ => None,
        }
    }
}

pub open spec fn jv_opt_check_type_enum(j: JsonV, key: Seq<char>) -> Option<Option<CheckType>> {
    match json_member(j, key) {
        None => Some(None),
        Some(JsonV::Null) => Some(None),
        Some(v) => match check_type_enum_of_jv(v) {
            Some(k) => Some(Some(k)),
            None => None,
        },
    }
}

pub fn opt_check_type_enum_field(j: &Json, key: &str) -> (r: Option<Option<CheckType>>)
    ensures
        r == jv_opt_check_type_enum(j.deep_view(), key@),
{
    let k = key.to_owned();
    match j.get(&k) {
        None => Some(None),
        Some(Json::Null) => Some(None),
        Some(v) => match CheckType::from_json(v) {
            Some(x) => Some(Some(x)),
            None => None,
        },
    }
}

pub proof fn lemma_check_type_enum_round_trip(k: CheckType)
    ensures
        check_type_enum_of_jv(check_type_enum_jv(k)) == Some(k),
{
    reveal_strlit("tcp");
    reveal_strlit("http");
    assert("tcp"@.len() == 3);
    assert("http"@.len() == 4);
}

/// The protocol an HTTP check speaks.
#[derive(Clone, Copy, PartialEq, Eq, Structural, Debug)]
pub enum Protocol {
    Http,
    Https,
}

impl DeepView for Protocol {
    type V = Protocol;

    open spec fn deep_view(&self) -> Protocol {
        *self
    }
}

pub open spec fn protocol_enum_name(k: Protocol) -> Seq<char> {
    match k {
        Protocol::Http => "http"@,
        Protocol::Https => "https"@,
    }
}

pub open spec fn protocol_enum_jv(k: Protocol) -> JsonV {
    JsonV::Str(protocol_enum_name(k))
}

pub open spec fn protocol_enum_of_jv(j: JsonV) -> Option<Protocol> {
    match j {
        JsonV::Str(s) => if s == "http"@ {
            Some(Protocol::Http)
        } else if s == "https"@ {
            Some(Protocol::Https)
        } else {
            None
        },
        _ => None,
    }
}

impl Protocol {
    /// The wire name of this value.
    pub fn code(&self) -> (s: String)
        ensures
            s@ == protocol_enum_name(*self),
    {
        match self {
            Protocol::Http => "http".to_owned(),
            Protocol::Https => "https".to_owned(),
        }
    }

    pub fn to_json(&self) -> (j: Json)
        ensures
            j.deep_view() == protocol_enum_jv(*self),
    {
        Json::Str(self.code())
    }

    pub fn from_json(j: &Json) -> (r: Option<Self>)
        ensures
            r == protocol_enum_of_jv(j.deep_view()),
    {
        match j {
            Json::Str(s) => {
                if *s == "http".to_owned() {
                    Some(Protocol::Http)
                } else if *s == "https".to_owned() {
                    Some(Protocol::Https)
                } else {
                    None
                }
            },
            _ => None,
        }
    }
}

pub open spec fn jv_opt_protocol_enum(j: JsonV, key: Seq<char>) -> Option<Option<Protocol>> {
    match json_member(j, key) {
        None => Some(None),
        Some(JsonV::Null) => Some(None),
        Some(v) => match protocol_enum_of_jv(v) {
            Some(k) => Some(Some(k)),
            None => None,
        },
    }
}

pub fn opt_protocol_enum_field(j: &Json, key: &str) -> (r: Option<Option<Protocol>>)
    ensures
        r == jv_opt_protocol_enum(j.deep_view(), key@),
{
    let k = key.to_owned();
    match j.get(&k) {
        None => Some(None),
        Some(Json::Null) => Some(None),
        Some(v) => match Protocol::from_json(v) {
            Some(x) => Some(Some(x)),
            None => None,
        },
    }
}

pub proof fn lemma_protocol_enum_round_trip(k: Protocol)
    ensures
        protocol_enum_of_jv(protocol_enum_jv(k)) == Some(k),
{
    reveal_strlit("http");
    reveal_strlit("https");
    assert("http"@.len() == 4);
    assert("https"@.len() == 5);
}

/// A header sent with an HTTP check.
#[derive(Clone, Debug)]
pub struct Header {
    pub name: String,
    pub values: Vec<String>,
}

#[verifier::ext_equal]
pub struct HeaderV {
    pub name: Seq<char>,
    pub values: Seq<Seq<char>>,
}

impl DeepView for Header {
    type V = HeaderV;

    open spec fn deep_view(&self) -> HeaderV {
        HeaderV {
            name: self.name@,
            values: self.values.deep_view(),
        }
    }
}

pub open spec fn header_jv(c: HeaderV) -> JsonV {
    let m = Seq::<(Seq<char>, JsonV)>::empty();
    let m = m.push(("name"@, JsonV::Str(c.name)));
    let m = m.push(("values"@, JsonV::Arr(str_seq_jv(c.values))));
    JsonV::Obj(m)
}

pub open spec fn header_of_jv(j: JsonV) -> Option<HeaderV> {
    if !(j is Obj) {
        None
    } else if jv_req_str(j, "name"@) is None || jv_req_str_arr(j, "values"@) is None {
        None
    } else {
        Some(HeaderV {
            name: jv_req_str(j, "name"@)->0,
            values: jv_req_str_arr(j, "values"@)->0,
        })
    }
}

impl Header {
    pub fn to_json(&self) -> (j: Json)
        ensures
            j.deep_view() == header_jv(self.deep_view()),
    {
        let mut m: Vec<(String, Json)> = Vec::new();
        m.push(("name".to_owned(), Json::Str(self.name.clone())));
        m.push(("values".to_owned(), Json::from_strings(&self.values)));
        let j = Json::Obj(m);
        proof {
            let ghost mv = m@;
            let ghost sv = header_jv(self.deep_view())->Obj_0;
            assert(crate::json::json_pairs_view(mv).len() == sv.len());
            assert(crate::json::json_pairs_view(mv) =~= sv);
        }
        j
    }

    pub fn from_json(j: &Json) -> (r: Option<Self>)
        ensures
            r.deep_view() == header_of_jv(j.deep_view()),
    {
        match j {
            Json::Obj(_) => {},
            _ => { return None; },
        }
        let name = match j.req_str("name") {
            Some(v) => v,
            None => { return None; },
        };
        let values = match j.req_str_arr("values") {
            Some(v) => v,
            None => { return None; },
        };
        Some(Header { name, values })
    }
}

/// Encoding this record and decoding it yields the original value.
pub proof fn lemma_header_round_trip(c: HeaderV)
    ensures
        header_of_jv(header_jv(c)) == Some(c),
{
    reveal_strlit("name");
    reveal_strlit("values");
    assert("name"@.len() == 4);
    assert("values"@.len() == 6);
    let e = header_jv(c);
    assert(jv_req_str(e, "name"@) == Some(c.name));
    assert(jv_req_str_arr(e, "values"@) == Some(c.values)) by {
        assert(jv_str_seq(str_seq_jv(c.values))->0 =~= c.values);
    }
    assert(header_of_jv(e)->0 =~= c);
    assert(header_of_jv(e) == Some(c));
}

pub open spec fn header_seq_jv(s: Seq<HeaderV>) -> Seq<JsonV> {
    Seq::new(s.len(), |i: int| header_jv(s[i]))
}

pub open spec fn header_seq_of(items: Seq<JsonV>) -> Option<Seq<HeaderV>> {
    if forall|k: int| 0 <= k < items.len() ==> header_of_jv(#[trigger] items[k]) is Some {
        Some(Seq::new(items.len(), |k: int| header_of_jv(items[k])->0))
    } else {
        None
    }
}

pub open spec fn jv_opt_header_arr(j: JsonV, key: Seq<char>) -> Option<
    Option<Seq<HeaderV>>,
> {
    match json_member(j, key) {
        None => Some(None),
        Some(JsonV::Null) => Some(None),
        Some(JsonV::Arr(items)) => match header_seq_of(items) {
            None => None,
            Some(xs) => Some(Some(xs)),
        },
        Some(_) => None,
    }
}

/// Builds the array for a list of these records.
pub fn header_arr_json(list: &Vec<Header>) -> (j: Json)
    ensures
        j.deep_view() == JsonV::Arr(header_seq_jv(list.deep_view())),
{
    let mut out: Vec<Json> = Vec::new();
    let n = list.len();
    for i in 0..n
        invariant
            n == list.len(),
            out@.len() == i,
            forall|p: int| 0 <= p < i
                ==> (#[trigger] out@[p]).deep_view() == header_jv(list@[p].deep_view()),
    {
        out.push(list[i].to_json());
    }
    let j = Json::Arr(out);
    proof {
        let ghost ov = out@;
        assert(json_seq_view(ov).len() == header_seq_jv(list.deep_view()).len());
        assert(json_seq_view(ov) =~= header_seq_jv(list.deep_view()));
    }
    j
}

/// Reads an optional member holding an array of these records.
pub fn opt_header_arr_field(j: &Json, key: &str) -> (r: Option<Option<Vec<Header>>>)
    ensures
        r.deep_view() == jv_opt_header_arr(j.deep_view(), key@),
{
    let k = key.to_owned();
    match j.get(&k) {
        None => Some(None),
        Some(Json::Null) => Some(None),
        Some(v) => match v {
            Json::Arr(items) => {
                let ghost iv = json_seq_view(items@);
                let mut out: Vec<Header> = Vec::new();
                let n = items.len();
                for i in 0..n
                    invariant
                        n == items.len(),
                        iv == json_seq_view(items@),
                        json_member(j.deep_view(), key@) == Some(JsonV::Arr(iv)),
                        iv.len() == n,
                        out@.len() == i,
                        forall|p: int| 0 <= p < i
                            ==> header_of_jv(#[trigger] iv[p]) is Some,
                        forall|p: int| 0 <= p < i
                            ==> (#[trigger] out@[p]).deep_view() == header_of_jv(iv[p])->0,
                {
                    match Header::from_json(&items[i]) {
                        Some(x) => { out.push(x); },
                        None => {
                            proof {
                                assert(header_of_jv(iv[i as int]) is None);
                            }
                            return None;
                        },
                    }
                }
                proof {
                    assert(out.deep_view() =~= header_seq_of(iv)->0);
                }
                Some(Some(out))
            },
            _ => None,
        },
    }
}

/// A health check attached to a machine.
#[derive(Clone, Debug)]
pub struct Checks {
    pub grace_period: Option<TimeoutConfig>,
    pub headers: Option<Vec<Header>>,
    pub interval: Option<TimeoutConfig>,
    pub kind: Option<CheckKind>,
    pub method: Option<String>,
    pub path: Option<String>,
    pub port: Option<u16>,
    pub protocol: Option<Protocol>,
    pub timeout: Option<TimeoutConfig>,
    pub tls_server_name: Option<String>,
    pub tls_skip_verify: Option<bool>,
    pub check_type: Option<CheckType>,
}

#[verifier::ext_equal]
pub struct ChecksV {
    pub grace_period: Option<TimeoutConfig>,
    pub headers: Option<Seq<HeaderV>>,
    pub interval: Option<TimeoutConfig>,
    pub kind: Option<CheckKind>,
    pub method: Option<Seq<char>>,
    pub path: Option<Seq<char>>,
    pub port: Option<u16>,
    pub protocol: Option<Protocol>,
    pub timeout: Option<TimeoutConfig>,
    pub tls_server_name: Option<Seq<char>>,
    pub tls_skip_verify: Option<bool>,
    pub check_type: Option<CheckType>,
}

impl DeepView for Checks {
    type V = ChecksV;

    open spec fn deep_view(&self) -> ChecksV {
        ChecksV {
            grace_period: self.grace_period,
            headers: self.headers.deep_view(),
            interval: self.interval,
            kind: self.kind,
            method: self.method.deep_view(),
            path: self.path.deep_view(),
            port: self.port,
            protocol: self.protocol,
            timeout: self.timeout,
            tls_server_name: self.tls_server_name.deep_view(),
            tls_skip_verify: self.tls_skip_verify,
            check_type: self.check_type,
        }
    }
}

pub open spec fn checks_members_0(c: ChecksV) -> Seq<(Seq<char>, JsonV)> {
    let m = Seq::<(Seq<char>, JsonV)>::empty();
    let m = opt_member(m, "grace_period"@, match c.grace_period {
        None => None,
        Some(x) => Some(timeout_config_jv(x)),
    });
    let m = opt_member(m, "headers"@, match c.headers {
        None => None,
        Some(x) => Some(JsonV::Arr(header_seq_jv(x))),
    });
    let m = opt_member(m, "interval"@, match c.interval {
        None => None,
        Some(x) => Some(timeout_config_jv(x)),
    });
    let m = opt_member(m, "kind"@, match c.kind {
        None => None,
        Some(x) => Some(check_kind_jv(x)),
    });
    let m = opt_member(m, "method"@, match c.method {
        None => None,
        Some(x) => Some(JsonV::Str(x)),
    });
    let m = opt_member(m, "path"@, match c.path {
        None => None,
        Some(x) => Some(JsonV::Str(x)),
    });
    m
}

pub open spec fn checks_members_1(c: ChecksV) -> Seq<(Seq<char>, JsonV)> {
    let m = Seq::<(Seq<char>, JsonV)>::empty();
    let m = opt_member(m, "port"@, match c.port {
        None => None,
        Some(x) => Some(JsonV::UInt(x as u64)),
    });
    let m = opt_member(m, "protocol"@, match c.protocol {
        None => None,
        Some(x) => Some(protocol_enum_jv(x)),
    });
    let m = opt_member(m, "timeout"@, match c.timeout {
        None => None,
        Some(x) => Some(timeout_config_jv(x)),
    });
    let m = opt_member(m, "tls_server_name"@, match c.tls_server_name {
        None => None,
        Some(x) => Some(JsonV::Str(x)),
    });
    let m = opt_member(m, "tls_skip_verify"@, match c.tls_skip_verify {
        None => None,
        Some(x) => Some(JsonV::Bool(x)),
    });
    let m = opt_member(m, "type"@, match c.check_type {
        None => None,
        Some(x) => Some(check_type_enum_jv(x)),
    });
    m
}

pub open spec fn checks_jv(c: ChecksV) -> JsonV {
    JsonV::Obj(checks_members_0(c) + checks_members_1(c))
}

pub open spec fn checks_of_jv(j: JsonV) -> Option<ChecksV> {
    if !(j is Obj) {
        None
    } else if jv_opt_timeout(j, "grace_period"@) is None || jv_opt_header_arr(j, "headers"@) is None || jv_opt_timeout(j, "interval"@) is None || jv_opt_check_kind(j, "kind"@) is None || jv_opt_str(j, "method"@) is None || jv_opt_str(j, "path"@) is None || jv_opt_u16(j, "port"@) is None || jv_opt_protocol_enum(j, "protocol"@) is None || jv_opt_timeout(j, "timeout"@) is None || jv_opt_str(j, "tls_server_name"@) is None || jv_opt_bool(j, "tls_skip_verify"@) is None || jv_opt_check_type_enum(j, "type"@) is None {
        None
    } else {
        Some(ChecksV {
            grace_period: jv_opt_timeout(j, "grace_period"@)->0,
            headers: jv_opt_header_arr(j, "headers"@)->0,
            interval: jv_opt_timeout(j, "interval"@)->0,
            kind: jv_opt_check_kind(j, "kind"@)->0,
            method: jv_opt_str(j, "method"@)->0,
            path: jv_opt_str(j, "path"@)->0,
            port: jv_opt_u16(j, "port"@)->0,
            protocol: jv_opt_protocol_enum(j, "protocol"@)->0,
            timeout: jv_opt_timeout(j, "timeout"@)->0,
            tls_server_name: jv_opt_str(j, "tls_server_name"@)->0,
            tls_skip_verify: jv_opt_bool(j, "tls_skip_verify"@)->0,
            check_type: jv_opt_check_type_enum(j, "type"@)->0,
        })
    }
}

impl Checks {
    fn to_json_members_0(&self) -> (m: Vec<(String, Json)>)
        ensures
            crate::json::json_pairs_view(m@) == checks_members_0(self.deep_view()),
    {
        let mut m: Vec<(String, Json)> = Vec::new();
        if let Some(x) = &self.grace_period {
            m.push(("grace_period".to_owned(), x.to_json()));
        }
        if let Some(x) = &self.headers {
            m.push(("headers".to_owned(), header_arr_json(x)));
        }
        if let Some(x) = &self.interval {
            m.push(("interval".to_owned(), x.to_json()));
        }
        if let Some(x) = &self.kind {
            m.push(("kind".to_owned(), x.to_json()));
        }
        if let Some(x) = &self.method {
            m.push(("method".to_owned(), Json::Str(x.clone())));
        }
        if let Some(x) = &self.path {
            m.push(("path".to_owned(), Json::Str(x.clone())));
        }
        proof {
            assert(crate::json::json_pairs_view(m@) =~= checks_members_0(self.deep_view()));
        }
        m
    }

    fn to_json_members_1(&self) -> (m: Vec<(String, Json)>)
        ensures
            crate::json::json_pairs_view(m@) == checks_members_1(self.deep_view()),
    {
        let mut m: Vec<(String, Json)> = Vec::new();
        if let Some(x) = &self.port {
            m.push(("port".to_owned(), Json::UInt(*x as u64)));
        }
        if let Some(x) = &self.protocol {
            m.push(("protocol".to_owned(), x.to_json()));
        }
        if let Some(x) = &self.timeout {
            m.push(("timeout".to_owned(), x.to_json()));
        }
        if let Some(x) = &self.tls_server_name {
            m.push(("tls_server_name".to_owned(), Json::Str(x.clone())));
        }
        if let Some(x) = &self.tls_skip_verify {
            m.push(("tls_skip_verify".to_owned(), Json::Bool(*x)));
        }
        if let Some(x) = &self.check_type {
            m.push(("type".to_owned(), x.to_json()));
        }
        proof {
            assert(crate::json::json_pairs_view(m@) =~= checks_members_1(self.deep_view()));
        }
        m
    }

    pub fn to_json(&self) -> (j: Json)
        ensures
            j.deep_view() == checks_jv(self.deep_view()),
    {
        let mut m = self.to_json_members_0();
        let mut m1 = self.to_json_members_1();
        m.append(&mut m1);
        let j = Json::Obj(m);
        proof {
            let ghost sv = checks_jv(self.deep_view())->Obj_0;
            assert(crate::json::json_pairs_view(m@) =~= sv);
        }
        j
    }

    pub fn from_json(j: &Json) -> (r: Option<Self>)
        ensures
            r.deep_view() == checks_of_jv(j.deep_view()),
    {
        match j {
            Json::Obj(_) => {},
            _ => { return None; },
        }
        let grace_period = match opt_timeout_field(j, "grace_period") {
            Some(v) => v,
            None => { return None; },
        };
        let headers = match opt_header_arr_field(j, "headers") {
            Some(v) => v,
            None => { return None; },
        };
        let interval = match opt_timeout_field(j, "interval") {
            Some(v) => v,
            None => { return None; },
        };
        let kind = match opt_check_kind_field(j, "kind") {
            Some(v) => v,
            None => { return None; },
        };
        let method = match j.opt_str("method") {
            Some(v) => v,
            None => { return None; },
        };
        let path = match j.opt_str("path") {
            Some(v) => v,
            None => { return None; },
        };
        let port = match j.opt_u16("port") {
            Some(v) => v,
            None => { return None; },
        };
        let protocol = match opt_protocol_enum_field(j, "protocol") {
            Some(v) => v,
            None => { return None; },
        };
        let timeout = match opt_timeout_field(j, "timeout") {
            Some(v) => v,
            None => { return None; },
        };
        let tls_server_name = match j.opt_str("tls_server_name") {
            Some(v) => v,
            None => { return None; },
        };
        let tls_skip_verify = match j.opt_bool("tls_skip_verify") {
            Some(v) => v,
            None => { return None; },
        };
        let check_type = match opt_check_type_enum_field(j, "type") {
            Some(v) => v,
            None => { return None; },
        };
        Some(Checks { grace_period, headers, interval, kind, method, path, port, protocol, timeout, tls_server_name, tls_skip_verify, check_type })
    }
}

#[verifier::rlimit(100)]
proof fn lemma_checks_chunk_0(c: ChecksV)
    ensures
        json_lookup(checks_members_0(c), "grace_period"@) == (match c.grace_period { None => None, Some(x) => Some(timeout_config_jv(x)) }),
        json_lookup(checks_members_0(c), "headers"@) == (match c.headers { None => None, Some(x) => Some(JsonV::Arr(header_seq_jv(x))) }),
        json_lookup(checks_members_0(c), "interval"@) == (match c.interval { None => None, Some(x) => Some(timeout_config_jv(x)) }),
        json_lookup(checks_members_0(c), "kind"@) == (match c.kind { None => None, Some(x) => Some(check_kind_jv(x)) }),
        json_lookup(checks_members_0(c), "method"@) == (match c.method { None => None, Some(x) => Some(JsonV::Str(x)) }),
        json_lookup(checks_members_0(c), "path"@) == (match c.path { None => None, Some(x) => Some(JsonV::Str(x)) }),
        json_lookup(checks_members_0(c), "port"@) is None,
        json_lookup(checks_members_0(c), "protocol"@) is None,
        json_lookup(checks_members_0(c), "timeout"@) is None,
        json_lookup(checks_members_0(c), "tls_server_name"@) is None,
        json_lookup(checks_members_0(c), "tls_skip_verify"@) is None,
        json_lookup(checks_members_0(c), "type"@) is None,
{
    reveal_strlit("grace_period");
    reveal_strlit("headers");
    reveal_strlit("interval");
    reveal_strlit("kind");
    reveal_strlit("method");
    reveal_strlit("path");
    reveal_strlit("port");
    reveal_strlit("protocol");
    reveal_strlit("timeout");
    reveal_strlit("tls_server_name");
    reveal_strlit("tls_skip_verify");
    reveal_strlit("type");
    assert("grace_period"@.len() == 12);
    assert("headers"@.len() == 7);
    assert("interval"@.len() == 8);
    assert("kind"@.len() == 4);
    assert("method"@.len() == 6);
    assert("path"@.len() == 4);
    assert("port"@.len() == 4);
    assert("protocol"@.len() == 8);
    assert("timeout"@.len() == 7);
    assert("tls_server_name"@.len() == 15);
    assert("tls_skip_verify"@.len() == 15);
    assert("type"@.len() == 4);
    assert("headers"@[0] == 'h');
    assert("timeout"@[0] == 't');
    assert("interval"@[0] == 'i');
    assert("protocol"@[0] == 'p');
    assert("kind"@[0] == 'k');
    assert("path"@[0] == 'p');
    assert("port"@[0] == 'p');
    assert("type"@[0] == 't');
    assert("path"@[1] == 'a');
    assert("port"@[1] == 'o');
    assert("tls_server_name"@[5] == 'e');
    assert("tls_skip_verify"@[5] == 'k');
}

#[verifier::rlimit(100)]
proof fn lemma_checks_chunk_1(c: ChecksV)
    ensures
        json_lookup(checks_members_1(c), "port"@) == (match c.port { None => None, Some(x) => Some(JsonV::UInt(x as u64)) }),
        json_lookup(checks_members_1(c), "protocol"@) == (match c.protocol { None => None, Some(x) => Some(protocol_enum_jv(x)) }),
        json_lookup(checks_members_1(c), "timeout"@) == (match c.timeout { None => None, Some(x) => Some(timeout_config_jv(x)) }),
        json_lookup(checks_members_1(c), "tls_server_name"@) == (match c.tls_server_name { None => None, Some(x) => Some(JsonV::Str(x)) }),
        json_lookup(checks_members_1(c), "tls_skip_verify"@) == (match c.tls_skip_verify { None => None, Some(x) => Some(JsonV::Bool(x)) }),
        json_lookup(checks_members_1(c), "type"@) == (match c.check_type { None => None, Some(x) => Some(check_type_enum_jv(x)) }),
        json_lookup(checks_members_1(c), "grace_period"@) is None,
        json_lookup(checks_members_1(c), "headers"@) is None,
        json_lookup(checks_members_1(c), "interval"@) is None,
        json_lookup(checks_members_1(c), "kind"@) is None,
        json_lookup(checks_members_1(c), "method"@) is None,
        json_lookup(checks_members_1(c), "path"@) is None,
{
    reveal_strlit("grace_period");
    reveal_strlit("headers");
    reveal_strlit("interval");
    reveal_strlit("kind");
    reveal_strlit("method");
    reveal_strlit("path");
    reveal_strlit("port");
    reveal_strlit("protocol");
    reveal_strlit("timeout");
    reveal_strlit("tls_server_name");
    reveal_strlit("tls_skip_verify");
    reveal_strlit("type");
    assert("grace_period"@.len() == 12);
    assert("headers"@.len() == 7);
    assert("interval"@.len() == 8);
    assert("kind"@.len() == 4);
    assert("method"@.len() == 6);
    assert("path"@.len() == 4);
    assert("port"@.len() == 4);
    assert("protocol"@.len() == 8);
    assert("timeout"@.len() == 7);
    assert("tls_server_name"@.len() == 15);
    assert("tls_skip_verify"@.len() == 15);
    assert("type"@.len() == 4);
    assert("headers"@[0] == 'h');
    assert("timeout"@[0] == 't');
    assert("interval"@[0] == 'i');
    assert("protocol"@[0] == 'p');
    assert("kind"@[0] == 'k');
    assert("path"@[0] == 'p');
    assert("port"@[0] == 'p');
    assert("type"@[0] == 't');
    assert("path"@[1] == 'a');
    assert("port"@[1] == 'o');
    assert("tls_server_name"@[5] == 'e');
    assert("tls_skip_verify"@[5] == 'k');
}

proof fn lemma_checks_field_grace_period(c: ChecksV)
    ensures
        jv_opt_timeout(checks_jv(c), "grace_period"@) == Some(c.grace_period),
{
    lemma_checks_chunk_0(c);
    lemma_checks_chunk_1(c);
    let e = checks_jv(c);
    assert(json_member(e, "grace_period"@) == (match c.grace_period { None => None, Some(x) => Some(timeout_config_jv(x)) }));
    assert(jv_opt_timeout(e, "grace_period"@) == Some(c.grace_period));
}

proof fn lemma_checks_field_headers(c: ChecksV)
    ensures
        jv_opt_header_arr(checks_jv(c), "headers"@) == Some(c.headers),
{
    lemma_checks_chunk_0(c);
    lemma_checks_chunk_1(c);
    let e = checks_jv(c);
    assert(json_member(e, "headers"@) == (match c.headers { None => None, Some(x) => Some(JsonV::Arr(header_seq_jv(x))) }));
    assert(jv_opt_header_arr(e, "headers"@) == Some(c.headers)) by {
        if c.headers is Some {
            let xs = c.headers->0;
            assert forall|k: int| 0 <= k < xs.len() implies header_of_jv(
                #[trigger] header_seq_jv(xs)[k],
            ) is Some by {
                lemma_header_round_trip(xs[k]);
            }
            assert(header_seq_of(header_seq_jv(xs)) is Some);
            assert forall|k: int| 0 <= k < xs.len() implies header_seq_of(
                header_seq_jv(xs),
            )->0[k] == xs[k] by {
                lemma_header_round_trip(xs[k]);
            }
            assert(header_seq_of(header_seq_jv(xs))->0 =~= xs);
        }
    }
}

proof fn lemma_checks_field_interval(c: ChecksV)
    ensures
        jv_opt_timeout(checks_jv(c), "interval"@) == Some(c.interval),
{
    lemma_checks_chunk_0(c);
    lemma_checks_chunk_1(c);
    let e = checks_jv(c);
    assert(json_member(e, "interval"@) == (match c.interval { None => None, Some(x) => Some(timeout_config_jv(x)) }));
    assert(jv_opt_timeout(e, "interval"@) == Some(c.interval));
}

proof fn lemma_checks_field_kind(c: ChecksV)
    ensures
        jv_opt_check_kind(checks_jv(c), "kind"@) == Some(c.kind),
{
    lemma_checks_chunk_0(c);
    lemma_checks_chunk_1(c);
    let e = checks_jv(c);
    assert(json_member(e, "kind"@) == (match c.kind { None => None, Some(x) => Some(check_kind_jv(x)) }));
    assert(jv_opt_check_kind(e, "kind"@) == Some(c.kind)) by {
        lemma_check_kind_round_trip(c.kind->0);
    }
}

proof fn lemma_checks_field_method(c: ChecksV)
    ensures
        jv_opt_str(checks_jv(c), "method"@) == Some(c.method),
{
    lemma_checks_chunk_0(c);
    lemma_checks_chunk_1(c);
    let e = checks_jv(c);
    assert(json_member(e, "method"@) == (match c.method { None => None, Some(x) => Some(JsonV::Str(x)) }));
    assert(jv_opt_str(e, "method"@) == Some(c.method));
}

proof fn lemma_checks_field_path(c: ChecksV)
    ensures
        jv_opt_str(checks_jv(c), "path"@) == Some(c.path),
{
    lemma_checks_chunk_0(c);
    lemma_checks_chunk_1(c);
    let e = checks_jv(c);
    assert(json_member(e, "path"@) == (match c.path { None => None, Some(x) => Some(JsonV::Str(x)) }));
    assert(jv_opt_str(e, "path"@) == Some(c.path));
}

proof fn lemma_checks_field_port(c: ChecksV)
    ensures
        jv_opt_u16(checks_jv(c), "port"@) == Some(c.port),
{
    lemma_checks_chunk_0(c);
    lemma_checks_chunk_1(c);
    let e = checks_jv(c);
    assert(json_member(e, "port"@) == (match c.port { None => None, Some(x) => Some(JsonV::UInt(x as u64)) }));
    assert(jv_opt_u16(e, "port"@) == Some(c.port));
}

proof fn lemma_checks_field_protocol(c: ChecksV)
    ensures
        jv_opt_protocol_enum(checks_jv(c), "protocol"@) == Some(c.protocol),
{
    lemma_checks_chunk_0(c);
    lemma_checks_chunk_1(c);
    let e = checks_jv(c);
    assert(json_member(e, "protocol"@) == (match c.protocol { None => None, Some(x) => Some(protocol_enum_jv(x)) }));
    assert(jv_opt_protocol_enum(e, "protocol"@) == Some(c.protocol)) by {
        lemma_protocol_enum_round_trip(c.protocol->0);
    }
}

proof fn lemma_checks_field_timeout(c: ChecksV)
    ensures
        jv_opt_timeout(checks_jv(c), "timeout"@) == Some(c.timeout),
{
    lemma_checks_chunk_0(c);
    lemma_checks_chunk_1(c);
    let e = checks_jv(c);
    assert(json_member(e, "timeout"@) == (match c.timeout { None => None, Some(x) => Some(timeout_config_jv(x)) }));
    assert(jv_opt_timeout(e, "timeout"@) == Some(c.timeout));
}

proof fn lemma_checks_field_tls_server_name(c: ChecksV)
    ensures
        jv_opt_str(checks_jv(c), "tls_server_name"@) == Some(c.tls_server_name),
{
    lemma_checks_chunk_0(c);
    lemma_checks_chunk_1(c);
    let e = checks_jv(c);
    assert(json_member(e, "tls_server_name"@) == (match c.tls_server_name { None => None, Some(x) => Some(JsonV::Str(x)) }));
    assert(jv_opt_str(e, "tls_server_name"@) == Some(c.tls_server_name));
}

proof fn lemma_checks_field_tls_skip_verify(c: ChecksV)
    ensures
        jv_opt_bool(checks_jv(c), "tls_skip_verify"@) == Some(c.tls_skip_verify),
{
    lemma_checks_chunk_0(c);
    lemma_checks_chunk_1(c);
    let e = checks_jv(c);
    assert(json_member(e, "tls_skip_verify"@) == (match c.tls_skip_verify { None => None, Some(x) => Some(JsonV::Bool(x)) }));
    assert(jv_opt_bool(e, "tls_skip_verify"@) == Some(c.tls_skip_verify));
}

proof fn lemma_checks_field_check_type(c: ChecksV)
    ensures
        jv_opt_check_type_enum(checks_jv(c), "type"@) == Some(c.check_type),
{
    lemma_checks_chunk_0(c);
    lemma_checks_chunk_1(c);
    let e = checks_jv(c);
    assert(json_member(e, "type"@) == (match c.check_type { None => None, Some(x) => Some(check_type_enum_jv(x)) }));
    assert(jv_opt_check_type_enum(e, "type"@) == Some(c.check_type)) by {
        lemma_check_type_enum_round_trip(c.check_type->0);
    }
}

/// Encoding this record and decoding it yields the original value.
pub proof fn lemma_checks_round_trip(c: ChecksV)
    ensures
        checks_of_jv(checks_jv(c)) == Some(c),
{
    lemma_checks_field_grace_period(c);
    lemma_checks_field_headers(c);
    lemma_checks_field_interval(c);
    lemma_checks_field_kind(c);
    lemma_checks_field_method(c);
    lemma_checks_field_path(c);
    lemma_checks_field_port(c);
    lemma_checks_field_protocol(c);
    lemma_checks_field_timeout(c);
    lemma_checks_field_tls_server_name(c);
    lemma_checks_field_tls_skip_verify(c);
    lemma_checks_field_check_type(c);
    let e = checks_jv(c);
    assert(checks_of_jv(e)->0 =~= c);
    assert(checks_of_jv(e) == Some(c));
}

pub open spec fn jv_opt_checks(j: JsonV, key: Seq<char>) -> Option<Option<ChecksV>> {
    match json_member(j, key) {
        None => Some(None),
        Some(JsonV::Null) => Some(None),
        Some(v) => match checks_of_jv(v) {
            Some(x) => Some(Some(x)),
            None => None,
        },
    }
}

pub fn opt_checks_field(j: &Json, key: &str) -> (r: Option<Option<Checks>>)
    ensures
        r.deep_view() == jv_opt_checks(j.deep_view(), key@),
{
    let k = key.to_owned();
    match j.get(&k) {
        None => Some(None),
        Some(Json::Null) => Some(None),
        Some(v) => match Checks::from_json(v) {
            Some(x) => Some(Some(x)),
            None => None,
        },
    }
}

impl Checks {
    /// A check with every field unset.
    pub fn new() -> (r: Self)
        ensures
            r.grace_period is None,
            r.headers is None,
            r.interval is None,
            r.kind is None,
            r.method is None,
            r.path is None,
            r.port is None,
            r.protocol is None,
            r.timeout is None,
            r.tls_server_name is None,
            r.tls_skip_verify is None,
            r.check_type is None,
    {
        Checks {
            grace_period: None,
            headers: None,
            interval: None,
            kind: None,
            method: None,
            path: None,
            port: None,
            protocol: None,
            timeout: None,
            tls_server_name: None,
            tls_skip_verify: None,
            check_type: None,
        }
    }

    /// Starts a builder with every field unset.
    pub fn builder() -> (r: CheckBuilder)
        ensures
            r.grace_period is None,
            r.headers is None,
            r.interval is None,
            r.kind is None,
            r.method is None,
            r.path is None,
            r.port is None,
            r.protocol is None,
            r.timeout is None,
            r.tls_server_name is None,
            r.tls_skip_verify is None,
            r.check_type is None,
    {
        CheckBuilder::new()
    }
}

/// Assembles a health check one field at a time.
pub struct CheckBuilder {
    pub grace_period: Option<TimeoutConfig>,
    pub headers: Option<Vec<Header>>,
    pub interval: Option<TimeoutConfig>,
    pub kind: Option<CheckKind>,
    pub method: Option<String>,
    pub path: Option<String>,
    pub port: Option<u16>,
    pub protocol: Option<Protocol>,
    pub timeout: Option<TimeoutConfig>,
    pub tls_server_name: Option<String>,
    pub tls_skip_verify: Option<bool>,
    pub check_type: Option<CheckType>,
}

impl CheckBuilder {
    pub fn new() -> (r: Self)
        ensures
            r.grace_period is None,
            r.headers is None,
            r.interval is None,
            r.kind is None,
            r.method is None,
            r.path is None,
            r.port is None,
            r.protocol is None,
            r.timeout is None,
            r.tls_server_name is None,
            r.tls_skip_verify is None,
            r.check_type is None,
    {
        CheckBuilder {
            grace_period: None,
            headers: None,
            interval: None,
            kind: None,
            method: None,
            path: None,
            port: None,
            protocol: None,
            timeout: None,
            tls_server_name: None,
            tls_skip_verify: None,
            check_type: None,
        }
    }

    /// Time to wait before the first probe.
    pub fn grace_period(self, seconds: u64) -> (r: Self)
        ensures
            r.grace_period == Some((TimeoutConfig { duration: seconds })),
            r.headers == self.headers,
            r.interval == self.interval,
            r.kind == self.kind,
            r.method == self.method,
            r.path == self.path,
            r.port == self.port,
            r.protocol == self.protocol,
            r.timeout == self.timeout,
            r.tls_server_name == self.tls_server_name,
            r.tls_skip_verify == self.tls_skip_verify,
            r.check_type == self.check_type,
    {
        CheckBuilder { grace_period: Some(TimeoutConfig { duration: seconds }), ..self }
    }

    /// Time between probes.
    pub fn interval(self, seconds: u64) -> (r: Self)
        ensures
            r.interval == Some((TimeoutConfig { duration: seconds })),
            r.grace_period == self.grace_period,
            r.headers == self.headers,
            r.kind == self.kind,
            r.method == self.method,
            r.path == self.path,
            r.port == self.port,
            r.protocol == self.protocol,
            r.timeout == self.timeout,
            r.tls_server_name == self.tls_server_name,
            r.tls_skip_verify == self.tls_skip_verify,
            r.check_type == self.check_type,
    {
        CheckBuilder { interval: Some(TimeoutConfig { duration: seconds }), ..self }
    }

    /// Whether the check gates deployment.
    pub fn kind(self, kind: CheckKind) -> (r: Self)
        ensures
            r.kind == Some(kind),
            r.grace_period == self.grace_period,
            r.headers == self.headers,
            r.interval == self.interval,
            r.method == self.method,
            r.path == self.path,
            r.port == self.port,
            r.protocol == self.protocol,
            r.timeout == self.timeout,
            r.tls_server_name == self.tls_server_name,
            r.tls_skip_verify == self.tls_skip_verify,
            r.check_type == self.check_type,
    {
        CheckBuilder { kind: Some(kind), ..self }
    }

    /// The HTTP method used to probe.
    pub fn method(self, method: &str) -> (r: Self)
        ensures
            r.method matches Some(s) && s@ == method@,
            r.grace_period == self.grace_period,
            r.headers == self.headers,
            r.interval == self.interval,
            r.kind == self.kind,
            r.path == self.path,
            r.port == self.port,
            r.protocol == self.protocol,
            r.timeout == self.timeout,
            r.tls_server_name == self.tls_server_name,
            r.tls_skip_verify == self.tls_skip_verify,
            r.check_type == self.check_type,
    {
        CheckBuilder { method: Some(method.to_owned()), ..self }
    }

    /// The path probed by an HTTP check.
    pub fn path(self, path: &str) -> (r: Self)
        ensures
            r.path matches Some(s) && s@ == path@,
            r.grace_period == self.grace_period,
            r.headers == self.headers,
            r.interval == self.interval,
            r.kind == self.kind,
            r.method == self.method,
            r.port == self.port,
            r.protocol == self.protocol,
            r.timeout == self.timeout,
            r.tls_server_name == self.tls_server_name,
            r.tls_skip_verify == self.tls_skip_verify,
            r.check_type == self.check_type,
    {
        CheckBuilder { path: Some(path.to_owned()), ..self }
    }

    /// The port probed.
    pub fn port(self, port: u16) -> (r: Self)
        ensures
            r.port == Some(port),
            r.grace_period == self.grace_period,
            r.headers == self.headers,
            r.interval == self.interval,
            r.kind == self.kind,
            r.method == self.method,
            r.path == self.path,
            r.protocol == self.protocol,
            r.timeout == self.timeout,
            r.tls_server_name == self.tls_server_name,
            r.tls_skip_verify == self.tls_skip_verify,
            r.check_type == self.check_type,
    {
        CheckBuilder { port: Some(port), ..self }
    }

    /// The protocol an HTTP check speaks.
    pub fn protocol(self, protocol: Protocol) -> (r: Self)
        ensures
            r.protocol == Some(protocol),
            r.grace_period == self.grace_period,
            r.headers == self.headers,
            r.interval == self.interval,
            r.kind == self.kind,
            r.method == self.method,
            r.path == self.path,
            r.port == self.port,
            r.timeout == self.timeout,
            r.tls_server_name == self.tls_server_name,
            r.tls_skip_verify == self.tls_skip_verify,
            r.check_type == self.check_type,
    {
        CheckBuilder { protocol: Some(protocol), ..self }
    }

    /// Time to wait for one probe.
    pub fn timeout(self, seconds: u64) -> (r: Self)
        ensures
            r.timeout == Some((TimeoutConfig { duration: seconds })),
            r.grace_period == self.grace_period,
            r.headers == self.headers,
            r.interval == self.interval,
            r.kind == self.kind,
            r.method == self.method,
            r.path == self.path,
            r.port == self.port,
            r.protocol == self.protocol,
            r.tls_server_name == self.tls_server_name,
            r.tls_skip_verify == self.tls_skip_verify,
            r.check_type == self.check_type,
    {
        CheckBuilder { timeout: Some(TimeoutConfig { duration: seconds }), ..self }
    }

    /// The server name checked against the TLS certificate.
    pub fn tls_server_name(self, tls_server_name: &str) -> (r: Self)
        ensures
            r.tls_server_name matches Some(s) && s@ == tls_server_name@,
            r.grace_period == self.grace_period,
            r.headers == self.headers,
            r.interval == self.interval,
            r.kind == self.kind,
            r.method == self.method,
            r.path == self.path,
            r.port == self.port,
            r.protocol == self.protocol,
            r.timeout == self.timeout,
            r.tls_skip_verify == self.tls_skip_verify,
            r.check_type == self.check_type,
    {
        CheckBuilder { tls_server_name: Some(tls_server_name.to_owned()), ..self }
    }

    /// Whether certificate verification is skipped.
    pub fn tls_skip_verify(self, tls_skip_verify: bool) -> (r: Self)
        ensures
            r.tls_skip_verify == Some(tls_skip_verify),
            r.grace_period == self.grace_period,
            r.headers == self.headers,
            r.interval == self.interval,
            r.kind == self.kind,
            r.method == self.method,
            r.path == self.path,
            r.port == self.port,
            r.protocol == self.protocol,
            r.timeout == self.timeout,
            r.tls_server_name == self.tls_server_name,
            r.check_type == self.check_type,
    {
        CheckBuilder { tls_skip_verify: Some(tls_skip_verify), ..self }
    }

    /// How the check probes.
    pub fn check_type(self, check_type: CheckType) -> (r: Self)
        ensures
            r.check_type == Some(check_type),
            r.grace_period == self.grace_period,
            r.headers == self.headers,
            r.interval == self.interval,
            r.kind == self.kind,
            r.method == self.method,
            r.path == self.path,
            r.port == self.port,
            r.protocol == self.protocol,
            r.timeout == self.timeout,
            r.tls_server_name == self.tls_server_name,
            r.tls_skip_verify == self.tls_skip_verify,
    {
        CheckBuilder { check_type: Some(check_type), ..self }
    }

    /// Appends a header sent with HTTP probes.
    pub fn add_header(self, name: &str, values: Vec<String>) -> (r: Self)
        ensures
            r.headers matches Some(hs) && hs.deep_view() == (match self.headers {
                None => Seq::<HeaderV>::empty(),
                Some(old_hs) => old_hs.deep_view(),
            }).push((HeaderV { name: name@, values: values.deep_view() })),
            r.grace_period == self.grace_period,
            r.interval == self.interval,
            r.kind == self.kind,
            r.method == self.method,
            r.path == self.path,
            r.port == self.port,
            r.protocol == self.protocol,
            r.timeout == self.timeout,
            r.tls_server_name == self.tls_server_name,
            r.tls_skip_verify == self.tls_skip_verify,
            r.check_type == self.check_type,
    {
        let header = Header { name: name.to_owned(), values };
        let mut headers = match self.headers {
            Some(hs) => hs,
            None => Vec::new(),
        };
        headers.push(header);
        proof {
            assert(headers.deep_view() =~= (match self.headers {
                None => Seq::<HeaderV>::empty(),
                Some(old_hs) => old_hs.deep_view(),
            }).push(HeaderV { name: name@, values: values.deep_view() }));
        }
        CheckBuilder { headers: Some(headers), ..self }
    }

    /// The assembled check.
    pub fn build(self) -> (r: Checks)
        ensures
            r.grace_period == self.grace_period,
            r.headers == self.headers,
            r.interval == self.interval,
            r.kind == self.kind,
            r.method == self.method,
            r.path == self.path,
            r.port == self.port,
            r.protocol == self.protocol,
            r.timeout == self.timeout,
            r.tls_server_name == self.tls_server_name,
            r.tls_skip_verify == self.tls_skip_verify,
            r.check_type == self.check_type,
    {
        Checks {
            grace_period: self.grace_period,
            headers: self.headers,
            interval: self.interval,
            kind: self.kind,
            method: self.method,
            path: self.path,
            port: self.port,
            protocol: self.protocol,
            timeout: self.timeout,
            tls_server_name: self.tls_server_name,
            tls_skip_verify: self.tls_skip_verify,
            check_type: self.check_type,
        }
    }
}

} // verus!
