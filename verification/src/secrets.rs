//! Secrets: write-only named credentials of an application.  The remote
//! system never returns a secret's plaintext value after it is written, and
//! the data model offers no accessor for one.

use crate::http::{
    interpreted, result_matches, unit_result_matches, ApiError, FetchResult, FetchResultV,
    Method, Request,
};
use crate::json::{json_member, json_seq_view, jv_req_str, Json, JsonV};
use vstd::prelude::*;

verus! {

broadcast use vstd::string::group_string_axioms, vstd::seq::group_seq_axioms, vstd::std_specs::vec::group_vec_axioms;

/// A single signed 32-bit value of key material.
pub open spec fn i32_of_jv(j: JsonV) -> Option<i32> {
    match j {
        JsonV::UInt(n) => if n <= i32::MAX {
            Some(n as i32)
        } else {
            None
        },
        JsonV::Int(n) => if i32::MIN <= n <= i32::MAX {
            Some(n as i32)
        } else {
            None
        },
        _ => None,
    }
}

/// Every element is a signed 32-bit value.
pub open spec fn i32_seq_of(items: Seq<JsonV>) -> Option<Seq<i32>> {
    if forall|k: int| 0 <= k < items.len() ==> i32_of_jv(#[trigger] items[k]) is Some {
        Some(Seq::new(items.len(), |k: int| i32_of_jv(items[k])->0))
    } else {
        None
    }
}

/// A required member holding an array of signed 32-bit values.
pub open spec fn jv_req_i32_arr(j: JsonV, key: Seq<char>) -> Option<Seq<i32>> {
    match json_member(j, key) {
        Some(JsonV::Arr(items)) => i32_seq_of(items),
        _ => None,
    }
}

/// Signed 32-bit values as a JSON array model.
pub open spec fn i32_seq_jv(s: Seq<i32>) -> Seq<JsonV> {
    Seq::new(s.len(), |i: int| JsonV::Int(s[i] as i64))
}

/// Reads a required member holding an array of signed 32-bit values.
fn req_i32_arr_field(j: &Json, key: &str) -> (r: Option<Vec<i32>>)
    ensures
        r.deep_view() == jv_req_i32_arr(j.deep_view(), key@),
{
    let k = key.to_owned();
    match j.get(&k) {
        Some(v) => match v {
            Json::Arr(items) => {
                let ghost iv = json_seq_view(items@);
                let mut out: Vec<i32> = Vec::new();
                let n = items.len();
                for i in 0..n
                    invariant
                        n == items.len(),
                        iv == json_seq_view(items@),
                        json_member(j.deep_view(), key@) == Some(JsonV::Arr(iv)),
                        iv.len() == n,
                        out@.len() == i,
                        forall|p: int| 0 <= p < i ==> i32_of_jv(#[trigger] iv[p]) is Some,
                        forall|p: int| 0 <= p < i ==> (#[trigger] out@[p]) == i32_of_jv(iv[p])->0,
                {
                    match &items[i] {
                        Json::UInt(n2) => {
                            if *n2 <= i32::MAX as u64 {
                                out.push(*n2 as i32);
                            } else {
                                proof {
                                    assert(i32_of_jv(iv[i as int]) is None);
                                }
                                return None;
                            }
                        },
                        Json::Int(n2) => {
                            if i32::MIN as i64 <= *n2 && *n2 <= i32::MAX as i64 {
                                out.push(*n2 as i32);
                            } else {
                                proof {
                                    assert(i32_of_jv(iv[i as int]) is None);
                                }
                                return None;
                            }
                        },
                        _ => {
                            proof {
                                assert(i32_of_jv(iv[i as int]) is None);
                            }
                            return None;
                        },
                    }
                }
                proof {
                    assert(out.deep_view() =~= i32_seq_of(iv)->0);
                }
                Some(out)
            },
            _ => None,
        },
        None => None,
    }
}

/// A secret as listed: its label, its type, and public key material.  No
/// plaintext value is ever part of this record.
#[derive(Clone, Debug)]
pub struct Secret {
    pub label: String,
    pub publickey: Vec<i32>,
    pub stype: String,
}

#[verifier::ext_equal]
pub struct SecretV {
    pub label: Seq<char>,
    pub publickey: Seq<i32>,
    pub stype: Seq<char>,
}

impl DeepView for Secret {
    type V = SecretV;

    open spec fn deep_view(&self) -> SecretV {
        SecretV {
            label: self.label@,
            publickey: self.publickey.deep_view(),
            stype: self.stype@,
        }
    }
}

/// A secret decoded from an object: the label, the key material under
/// `publickey`, and the type under `type`.
pub open spec fn secret_of_jv(j: JsonV) -> Option<SecretV> {
    if !(j is Obj) {
        None
    } else if jv_req_str(j, "label"@) is None || jv_req_i32_arr(j, "publickey"@) is None
        || jv_req_str(j, "type"@) is None {
        None
    } else {
        Some(SecretV {
            label: jv_req_str(j, "label"@)->0,
            publickey: jv_req_i32_arr(j, "publickey"@)->0,
            stype: jv_req_str(j, "type"@)->0,
        })
    }
}

impl Secret {
    pub fn from_json(j: &Json) -> (r: Option<Self>)
        ensures
            r.deep_view() == secret_of_jv(j.deep_view()),
    {
        match j {
            Json::Obj(_) => {},
            _ => { return None; },
        }
        let label = match j.req_str("label") {
            Some(v) => v,
            None => { return None; },
        };
        let publickey = match req_i32_arr_field(j, "publickey") {
            Some(v) => v,
            None => { return None; },
        };
        let stype = match j.req_str("type") {
            Some(v) => v,
            None => { return None; },
        };
        Some(Secret { label, publickey, stype })
    }
}

/// Every element decodes as a secret.
pub open spec fn secret_seq_of(items: Seq<JsonV>) -> Option<Seq<SecretV>> {
    if forall|k: int| 0 <= k < items.len() ==> secret_of_jv(#[trigger] items[k]) is Some {
        Some(Seq::new(items.len(), |k: int| secret_of_jv(items[k])->0))
    } else {
        None
    }
}

/// Decodes an array of secrets.
fn secrets_from_json(j: &Json) -> (r: Option<Vec<Secret>>)
    ensures
        r.deep_view() == (match j.deep_view() {
            JsonV::Arr(items) => secret_seq_of(items),
            _ => None,
        }),
{
    match j {
        Json::Arr(items) => {
            let ghost iv = json_seq_view(items@);
            let mut out: Vec<Secret> = Vec::new();
            let n = items.len();
            for i in 0..n
                invariant
                    n == items.len(),
                    iv == json_seq_view(items@),
                    j.deep_view() == JsonV::Arr(iv),
                    iv.len() == n,
                    out@.len() == i,
                    forall|p: int| 0 <= p < i ==> secret_of_jv(#[trigger] iv[p]) is Some,
                    forall|p: int| 0 <= p < i ==> (#[trigger] out@[p]).deep_view()
                        == secret_of_jv(iv[p])->0,
            {
                match Secret::from_json(&items[i]) {
                    Some(x) => { out.push(x); },
                    None => {
                        proof {
                            assert(secret_of_jv(iv[i as int]) is None);
                        }
                        return None;
                    },
                }
            }
            proof {
                assert(out.deep_view() =~= secret_seq_of(iv)->0);
            }
            Some(out)
        },
        _ => None,
    }
}

/// The value written when creating a secret.  It is sent and never read
/// back.
#[derive(Clone, Debug)]
pub struct SecretValue {
    pub value: Vec<i32>,
}

#[verifier::ext_equal]
pub struct SecretValueV {
    pub value: Seq<i32>,
}

impl DeepView for SecretValue {
    type V = SecretValueV;

    open spec fn deep_view(&self) -> SecretValueV {
        SecretValueV { value: self.value.deep_view() }
    }
}

/// The body carrying a secret value.
pub open spec fn secret_value_jv(v: SecretValueV) -> JsonV {
    JsonV::Obj(seq![("value"@, JsonV::Arr(i32_seq_jv(v.value)))])
}

impl SecretValue {
    pub fn new(value: Vec<i32>) -> (r: Self)
        ensures
            r.value == value,
    {
        Self { value }
    }

    pub fn to_json(&self) -> (j: Json)
        ensures
            j.deep_view() == secret_value_jv(self.deep_view()),
    {
        let mut arr: Vec<Json> = Vec::new();
        let n = self.value.len();
        for i in 0..n
            invariant
                n == self.value.len(),
                arr@.len() == i,
                forall|p: int| 0 <= p < i ==> (#[trigger] arr@[p]) == Json::Int(
                    self.value@[p] as i64,
                ),
        {
            arr.push(Json::Int(self.value[i] as i64));
        }
        proof {
            assert(json_seq_view(arr@) =~= i32_seq_jv(self.value.deep_view()));
        }
        let mut m: Vec<(String, Json)> = Vec::new();
        m.push(("value".to_owned(), Json::Arr(arr)));
        let j = Json::Obj(m);
        proof {
            assert(crate::json::json_pairs_view(m@) =~= seq![
                ("value"@, JsonV::Arr(i32_seq_jv(self.deep_view().value))),
            ]);
        }
        j
    }
}

/// The secrets carried by a successful response body.
pub open spec fn secret_list_payload(rv: FetchResultV) -> Option<Seq<SecretV>> {
    match rv {
        FetchResultV::Response(resp) => match resp.json {
            Some(JsonV::Arr(items)) => secret_seq_of(items),
            _ => None,
        },
        _ => None,
    }
}

/// The secret carried by a successful response body.
pub open spec fn secret_payload(rv: FetchResultV) -> Option<SecretV> {
    match rv {
        FetchResultV::Response(resp) => match resp.json {
            Some(j) => secret_of_jv(j),
            None => None,
        },
        _ => None,
    }
}

/// The secrets collection of an application.
pub open spec fn secrets_url_text(endpoint: Seq<char>, app: Seq<char>) -> Seq<char> {
    endpoint + "/apps/"@ + app + "/secrets"@
}

/// Manages the secrets of an application: list, create, generate, destroy.
pub struct SecretsManager {
    /// The base URL every secret route is built on.
    pub endpoint: String,
    /// The bearer token attached to every request.
    pub api_token: String,
}

impl SecretsManager {
    /// A manager sending bearer-authenticated requests against an endpoint.
    pub fn new(endpoint: String, api_token: String) -> (r: Self)
        ensures
            r.endpoint == endpoint,
            r.api_token == api_token,
    {
        Self { endpoint, api_token }
    }

    /// `{endpoint}/apps/{app}/secrets`.
    fn secrets_url(&self, app_name: &str) -> (s: String)
        ensures
            s@ == secrets_url_text(self.endpoint@, app_name@),
    {
        let mut s = self.endpoint.clone();
        s.append("/apps/");
        s.append(app_name);
        s.append("/secrets");
        s
    }

    /// The request listing the secrets of an application.
    pub fn list_secrets(&self, app_name: &str) -> (r: Request)
        ensures
            r.method == Method::Get,
            r.url@ == secrets_url_text(self.endpoint@, app_name@),
            r.query.deep_view() == Seq::<(Seq<char>, Seq<char>)>::empty(),
            r.body is None,
            r.bearer@ == self.api_token@,
    {
        let r = Request {
            method: Method::Get,
            url: self.secrets_url(app_name),
            query: Vec::new(),
            body: None,
            bearer: self.api_token.clone(),
        };
        proof {
            assert(r.query.deep_view() =~= Seq::<(Seq<char>, Seq<char>)>::empty());
        }
        r
    }

    /// The secrets listed, for each outcome of the list request.
    pub fn list_secrets_response(r: &FetchResult) -> (out: Result<Vec<Secret>, ApiError>)
        ensures
            result_matches(
                out,
                interpreted(r.deep_view(), None, secret_list_payload(r.deep_view())),
            ),
    {
        match r {
            FetchResult::Failed(m) => Err(ApiError::Transport(m.clone())),
            FetchResult::TimedOut => Err(ApiError::TimedOut),
            FetchResult::Response(resp) => {
                if !(200 <= resp.status && resp.status < 300) {
                    Err(ApiError::Status(resp.status, resp.body.clone()))
                } else {
                    let decoded = match &resp.json {
                        Some(j) => secrets_from_json(j),
                        None => None,
                    };
                    match decoded {
                        Some(ss) => Ok(ss),
                        None => Err(ApiError::Decode(resp.body.clone())),
                    }
                }
            },
        }
    }

    /// The request creating a secret under a label and type, carrying the
    /// value to write.
    pub fn create_secret(
        &self,
        app_name: &str,
        secret_label: &str,
        secret_type: &str,
        value_request: &SecretValue,
    ) -> (r: Request)
        ensures
            r.method == Method::Post,
            r.url@ == secrets_url_text(self.endpoint@, app_name@) + "/"@ + secret_label@
                + "/type/"@ + secret_type@,
            r.query.deep_view() == Seq::<(Seq<char>, Seq<char>)>::empty(),
            r.body matches Some(b) && b.deep_view() == secret_value_jv(
                value_request.deep_view(),
            ),
            r.bearer@ == self.api_token@,
    {
        let mut url = self.secrets_url(app_name);
        url.append("/");
        url.append(secret_label);
        url.append("/type/");
        url.append(secret_type);
        let r = Request {
            method: Method::Post,
            url,
            query: Vec::new(),
            body: Some(value_request.to_json()),
            bearer: self.api_token.clone(),
        };
        proof {
            assert(r.query.deep_view() =~= Seq::<(Seq<char>, Seq<char>)>::empty());
        }
        r
    }

    /// The secret created, for each outcome of the create request.
    pub fn create_secret_response(r: &FetchResult) -> (out: Result<Secret, ApiError>)
        ensures
            result_matches(out, interpreted(r.deep_view(), None, secret_payload(r.deep_view()))),
    {
        match r {
            FetchResult::Failed(m) => Err(ApiError::Transport(m.clone())),
            FetchResult::TimedOut => Err(ApiError::TimedOut),
            FetchResult::Response(resp) => {
                if !(200 <= resp.status && resp.status < 300) {
                    Err(ApiError::Status(resp.status, resp.body.clone()))
                } else {
                    let decoded = match &resp.json {
                        Some(j) => Secret::from_json(j),
                        None => None,
                    };
                    match decoded {
                        Some(s) => Ok(s),
                        None => Err(ApiError::Decode(resp.body.clone())),
                    }
                }
            },
        }
    }

    /// The request asking the remote system to generate a secret's value
    /// itself; no value is sent and none is returned.
    pub fn generate_secret(&self, app_name: &str, secret_label: &str, secret_type: &str) -> (r:
        Request)
        ensures
            r.method == Method::Post,
            r.url@ == secrets_url_text(self.endpoint@, app_name@) + "/"@ + secret_label@
                + "/type/"@ + secret_type@ + "/generate"@,
            r.query.deep_view() == Seq::<(Seq<char>, Seq<char>)>::empty(),
            r.body is None,
            r.bearer@ == self.api_token@,
    {
        let mut url = self.secrets_url(app_name);
        url.append("/");
        url.append(secret_label);
        url.append("/type/");
        url.append(secret_type);
        url.append("/generate");
        let r = Request {
            method: Method::Post,
            url,
            query: Vec::new(),
            body: None,
            bearer: self.api_token.clone(),
        };
        proof {
            assert(r.query.deep_view() =~= Seq::<(Seq<char>, Seq<char>)>::empty());
        }
        r
    }

    /// The generation outcome: any 2xx status succeeds.
    pub fn generate_secret_response(r: &FetchResult) -> (out: Result<(), ApiError>)
        ensures
            unit_result_matches(out, interpreted(r.deep_view(), None, Some(()))),
    {
        match r {
            FetchResult::Failed(m) => Err(ApiError::Transport(m.clone())),
            FetchResult::TimedOut => Err(ApiError::TimedOut),
            FetchResult::Response(resp) => {
                if !(200 <= resp.status && resp.status < 300) {
                    Err(ApiError::Status(resp.status, resp.body.clone()))
                } else {
                    Ok(())
                }
            },
        }
    }

    /// The request destroying a secret by its label.
    pub fn destroy_secret(&self, app_name: &str, secret_label: &str) -> (r: Request)
        ensures
            r.method == Method::Delete,
            r.url@ == secrets_url_text(self.endpoint@, app_name@) + "/"@ + secret_label@,
            r.query.deep_view() == Seq::<(Seq<char>, Seq<char>)>::empty(),
            r.body is None,
            r.bearer@ == self.api_token@,
    {
        let mut url = self.secrets_url(app_name);
        url.append("/");
        url.append(secret_label);
        let r = Request {
            method: Method::Delete,
            url,
            query: Vec::new(),
            body: None,
            bearer: self.api_token.clone(),
        };
        proof {
            assert(r.query.deep_view() =~= Seq::<(Seq<char>, Seq<char>)>::empty());
        }
        r
    }

    /// The destruction outcome: any 2xx status succeeds.
    pub fn destroy_secret_response(r: &FetchResult) -> (out: Result<(), ApiError>)
        ensures
            unit_result_matches(out, interpreted(r.deep_view(), None, Some(()))),
    {
        Self::generate_secret_response(r)
    }
}

} // verus!
