//! Applications: the shapes of the app endpoints and the manager that
//! builds and interprets their requests.

use crate::http::{
    interpreted, result_matches, unit_result_matches, ApiError, FetchResult, FetchResultV,
    Method, Request,
};
use crate::json::{json_member, json_seq_view, jv_req_str, jv_req_uint, Json, JsonV};
use vstd::prelude::*;

verus! {

broadcast use crate::json::lemma_lookup_push, crate::json::lemma_lookup_append, crate::json::lemma_pairs_view_append, vstd::string::group_string_axioms, vstd::seq::group_seq_axioms, vstd::std_specs::vec::group_vec_axioms;


/// What creating an application returns.
#[derive(Clone, Debug)]
pub struct AppResponse {
    pub id: String,
    pub created_at: u64,
}

#[verifier::ext_equal]
pub struct AppResponseV {
    pub id: Seq<char>,
    pub created_at: u64,
}

impl DeepView for AppResponse {
    type V = AppResponseV;

    open spec fn deep_view(&self) -> AppResponseV {
        AppResponseV {
            id: self.id@,
            created_at: self.created_at,
        }
    }
}

pub open spec fn app_response_of_jv(j: JsonV) -> Option<AppResponseV> {
    if !(j is Obj) {
        None
    } else if jv_req_str(j, "id"@) is None || jv_req_uint(j, "created_at"@) is None {
        None
    } else {
        Some(AppResponseV {
            id: jv_req_str(j, "id"@)->0,
            created_at: jv_req_uint(j, "created_at"@)->0,
        })
    }
}

impl AppResponse {
    pub fn from_json(j: &Json) -> (r: Option<Self>)
        ensures
            r.deep_view() == app_response_of_jv(j.deep_view()),
    {
        match j {
            Json::Obj(_) => {},
            _ => { return None; },
        }
        let id = match j.req_str("id") {
            Some(v) => v,
            None => { return None; },
        };
        let created_at = match j.req_uint("created_at") {
            Some(v) => v,
            None => { return None; },
        };
        Some(AppResponse { id, created_at })
    }
}

/// One application of an organization.
#[derive(Clone, Debug)]
pub struct App {
    pub id: String,
    pub name: String,
    pub machine_count: u64,
    pub network: String,
}

#[verifier::ext_equal]
pub struct AppV {
    pub id: Seq<char>,
    pub name: Seq<char>,
    pub machine_count: u64,
    pub network: Seq<char>,
}

impl DeepView for App {
    type V = AppV;

    open spec fn deep_view(&self) -> AppV {
        AppV {
            id: self.id@,
            name: self.name@,
            machine_count: self.machine_count,
            network: self.network@,
        }
    }
}

pub open spec fn app_of_jv(j: JsonV) -> Option<AppV> {
    if !(j is Obj) {
        None
    } else if jv_req_str(j, "id"@) is None || jv_req_str(j, "name"@) is None || jv_req_uint(j, "machine_count"@) is None || jv_req_str(j, "network"@) is None {
        None
    } else {
        Some(AppV {
            id: jv_req_str(j, "id"@)->0,
            name: jv_req_str(j, "name"@)->0,
            machine_count: jv_req_uint(j, "machine_count"@)->0,
            network: jv_req_str(j, "network"@)->0,
        })
    }
}

impl App {
    pub fn from_json(j: &Json) -> (r: Option<Self>)
        ensures
            r.deep_view() == app_of_jv(j.deep_view()),
    {
        match j {
            Json::Obj(_) => {},
            _ => { return None; },
        }
        let id = match j.req_str("id") {
            Some(v) => v,
            None => { return None; },
        };
        let name = match j.req_str("name") {
            Some(v) => v,
            None => { return None; },
        };
        let machine_count = match j.req_uint("machine_count") {
            Some(v) => v,
            None => { return None; },
        };
        let network = match j.req_str("network") {
            Some(v) => v,
            None => { return None; },
        };
        Some(App { id, name, machine_count, network })
    }
}

pub open spec fn app_seq_of(items: Seq<JsonV>) -> Option<Seq<AppV>> {
    if forall|k: int| 0 <= k < items.len() ==> app_of_jv(#[trigger] items[k]) is Some {
        Some(Seq::new(items.len(), |k: int| app_of_jv(items[k])->0))
    } else {
        None
    }
}

pub open spec fn jv_opt_app_arr(j: JsonV, key: Seq<char>) -> Option<
    Option<Seq<AppV>>,
> {
    match json_member(j, key) {
        None => Some(None),
        Some(JsonV::Null) => Some(None),
        Some(JsonV::Arr(items)) => match app_seq_of(items) {
            None => None,
            Some(xs) => Some(Some(xs)),
        },
        Some(_) => None,
    }
}

/// Reads an optional member holding an array of these records.
pub fn opt_app_arr_field(j: &Json, key: &str) -> (r: Option<Option<Vec<App>>>)
    ensures
        r.deep_view() == jv_opt_app_arr(j.deep_view(), key@),
{
    let k = key.to_owned();
    match j.get(&k) {
        None => Some(None),
        Some(Json::Null) => Some(None),
        Some(v) => match v {
            Json::Arr(items) => {
                let ghost iv = json_seq_view(items@);
                let mut out: Vec<App> = Vec::new();
                let n = items.len();
                for i in 0..n
                    invariant
                        n == items.len(),
                        iv == json_seq_view(items@),
                        json_member(j.deep_view(), key@) == Some(JsonV::Arr(iv)),
                        iv.len() == n,
                        out@.len() == i,
                        forall|p: int| 0 <= p < i
                            ==> app_of_jv(#[trigger] iv[p]) is Some,
                        forall|p: int| 0 <= p < i
                            ==> (#[trigger] out@[p]).deep_view() == app_of_jv(iv[p])->0,
                {
                    match App::from_json(&items[i]) {
                        Some(x) => { out.push(x); },
                        None => {
                            proof {
                                assert(app_of_jv(iv[i as int]) is None);
                            }
                            return None;
                        },
                    }
                }
                proof {
                    assert(out.deep_view() =~= app_seq_of(iv)->0);
                }
                Some(Some(out))
            },
            _ => None,
        },
    }
}

/// An organization that owns applications.
#[derive(Clone, Debug)]
pub struct Organization {
    pub name: String,
    pub slug: String,
}

#[verifier::ext_equal]
pub struct OrganizationV {
    pub name: Seq<char>,
    pub slug: Seq<char>,
}

impl DeepView for Organization {
    type V = OrganizationV;

    open spec fn deep_view(&self) -> OrganizationV {
        OrganizationV {
            name: self.name@,
            slug: self.slug@,
        }
    }
}

pub open spec fn organization_of_jv(j: JsonV) -> Option<OrganizationV> {
    if !(j is Obj) {
        None
    } else if jv_req_str(j, "name"@) is None || jv_req_str(j, "slug"@) is None {
        None
    } else {
        Some(OrganizationV {
            name: jv_req_str(j, "name"@)->0,
            slug: jv_req_str(j, "slug"@)->0,
        })
    }
}

impl Organization {
    pub fn from_json(j: &Json) -> (r: Option<Self>)
        ensures
            r.deep_view() == organization_of_jv(j.deep_view()),
    {
        match j {
            Json::Obj(_) => {},
            _ => { return None; },
        }
        let name = match j.req_str("name") {
            Some(v) => v,
            None => { return None; },
        };
        let slug = match j.req_str("slug") {
            Some(v) => v,
            None => { return None; },
        };
        Some(Organization { name, slug })
    }
}

/// The body creating an application.
#[derive(Clone, Debug)]
pub struct CreateAppRequest {
    pub app_name: String,
    pub org_slug: String,
}

#[verifier::ext_equal]
pub struct CreateAppRequestV {
    pub app_name: Seq<char>,
    pub org_slug: Seq<char>,
}

impl DeepView for CreateAppRequest {
    type V = CreateAppRequestV;

    open spec fn deep_view(&self) -> CreateAppRequestV {
        CreateAppRequestV {
            app_name: self.app_name@,
            org_slug: self.org_slug@,
        }
    }
}

pub open spec fn create_app_request_jv(c: CreateAppRequestV) -> JsonV {
    let m = Seq::<(Seq<char>, JsonV)>::empty();
    let m = m.push(("app_name"@, JsonV::Str(c.app_name)));
    let m = m.push(("org_slug"@, JsonV::Str(c.org_slug)));
    JsonV::Obj(m)
}

impl CreateAppRequest {
    pub fn to_json(&self) -> (j: Json)
        ensures
            j.deep_view() == create_app_request_jv(self.deep_view()),
    {
        let mut m: Vec<(String, Json)> = Vec::new();
        m.push(("app_name".to_owned(), Json::Str(self.app_name.clone())));
        m.push(("org_slug".to_owned(), Json::Str(self.org_slug.clone())));
        let j = Json::Obj(m);
        proof {
            let ghost mv = m@;
            let ghost sv = create_app_request_jv(self.deep_view())->Obj_0;
            assert(crate::json::json_pairs_view(mv).len() == sv.len());
            assert(crate::json::json_pairs_view(mv) =~= sv);
        }
        j
    }

}


/// The application collection.
pub open spec fn apps_url_text(endpoint: Seq<char>) -> Seq<char> {
    endpoint + "/apps"@
}

/// One application.
pub open spec fn app_url_text(endpoint: Seq<char>, name: Seq<char>) -> Seq<char> {
    apps_url_text(endpoint) + "/"@ + name
}

/// The application carried by a successful response body.
pub open spec fn app_create_payload(rv: FetchResultV) -> Option<AppResponseV> {
    match rv {
        FetchResultV::Response(resp) => match resp.json {
            Some(j) => app_response_of_jv(j),
            None => None,
        },
        _ => None,
    }
}

/// The applications under the `apps` member of a successful response body.
pub open spec fn app_list_payload(rv: FetchResultV) -> Option<Seq<AppV>> {
    match rv {
        FetchResultV::Response(resp) => match resp.json {
            Some(j) => match jv_opt_app_arr(j, "apps"@) {
                Some(Some(apps)) => Some(apps),
                _ => None,
            },
            None => None,
        },
        _ => None,
    }
}

/// Manages applications: create, list, delete.
pub struct AppManager {
    /// The base URL every app route is built on.
    pub endpoint: String,
    /// The bearer token attached to every request.
    pub api_token: String,
}

impl AppManager {
    /// A manager sending bearer-authenticated requests against an endpoint.
    pub fn new(endpoint: String, api_token: String) -> (r: Self)
        ensures
            r.endpoint == endpoint,
            r.api_token == api_token,
    {
        Self { endpoint, api_token }
    }

    /// `{endpoint}/apps`.
    fn apps_url(&self) -> (s: String)
        ensures
            s@ == apps_url_text(self.endpoint@),
    {
        let mut s = self.endpoint.clone();
        s.append("/apps");
        s
    }

    /// The request creating an application in an organization.
    pub fn create(&self, app_name: &str, org_slug: &str) -> (r: Request)
        ensures
            r.method == Method::Post,
            r.url@ == apps_url_text(self.endpoint@),
            r.query.deep_view() == Seq::<(Seq<char>, Seq<char>)>::empty(),
            r.body matches Some(b) && b.deep_view() == create_app_request_jv(
                (CreateAppRequestV { app_name: app_name@, org_slug: org_slug@ }),
            ),
            r.bearer@ == self.api_token@,
    {
        let body = CreateAppRequest {
            app_name: app_name.to_owned(),
            org_slug: org_slug.to_owned(),
        };
        let r = Request {
            method: Method::Post,
            url: self.apps_url(),
            query: Vec::new(),
            body: Some(body.to_json()),
            bearer: self.api_token.clone(),
        };
        proof {
            assert(r.query.deep_view() =~= Seq::<(Seq<char>, Seq<char>)>::empty());
        }
        r
    }

    /// The application created, for each outcome of the create request:
    /// exactly status 201 with an application body succeeds; any other
    /// status, a name conflict included, carries the status code and the
    /// response body verbatim.
    pub fn create_response(r: &FetchResult) -> (out: Result<AppResponse, ApiError>)
        ensures
            result_matches(
                out,
                interpreted(r.deep_view(), Some(201), app_create_payload(r.deep_view())),
            ),
    {
        match r {
            FetchResult::Failed(m) => Err(ApiError::Transport(m.clone())),
            FetchResult::TimedOut => Err(ApiError::TimedOut),
            FetchResult::Response(resp) => {
                if resp.status != 201 {
                    Err(ApiError::Status(resp.status, resp.body.clone()))
                } else {
                    let decoded = match &resp.json {
                        Some(j) => AppResponse::from_json(j),
                        None => None,
                    };
                    match decoded {
                        Some(a) => Ok(a),
                        None => Err(ApiError::Decode(resp.body.clone())),
                    }
                }
            },
        }
    }

    /// The request deleting an application; `force=true` is the only query
    /// parameter exactly when forcing.  Without force, an application that
    /// still has live machines is refused by the remote system, and that
    /// refusal comes back as a status error.
    pub fn delete(&self, app_name: &str, force: bool) -> (r: Request)
        ensures
            r.method == Method::Delete,
            r.url@ == app_url_text(self.endpoint@, app_name@),
            r.query.deep_view() == (if force {
                seq![("force"@, "true"@)]
            } else {
                Seq::<(Seq<char>, Seq<char>)>::empty()
            }),
            r.body is None,
            r.bearer@ == self.api_token@,
    {
        let mut url = self.apps_url();
        url.append("/");
        url.append(app_name);
        let mut query: Vec<(String, String)> = Vec::new();
        if force {
            query.push(("force".to_owned(), "true".to_owned()));
        }
        proof {
            if force {
                assert(query.deep_view() =~= seq![("force"@, "true"@)]);
            } else {
                assert(query.deep_view() =~= Seq::<(Seq<char>, Seq<char>)>::empty());
            }
        }
        Request { method: Method::Delete, url, query, body: None, bearer: self.api_token.clone() }
    }

    /// The deletion outcome: exactly status 202 succeeds.
    pub fn delete_response(r: &FetchResult) -> (out: Result<(), ApiError>)
        ensures
            unit_result_matches(out, interpreted(r.deep_view(), Some(202), Some(()))),
    {
        match r {
            FetchResult::Failed(m) => Err(ApiError::Transport(m.clone())),
            FetchResult::TimedOut => Err(ApiError::TimedOut),
            FetchResult::Response(resp) => {
                if resp.status != 202 {
                    Err(ApiError::Status(resp.status, resp.body.clone()))
                } else {
                    Ok(())
                }
            },
        }
    }

    /// The request listing the applications of an organization.
    pub fn list(&self, org_slug: &str) -> (r: Request)
        ensures
            r.method == Method::Get,
            r.url@ == apps_url_text(self.endpoint@),
            r.query.deep_view() == seq![("org_slug"@, org_slug@)],
            r.body is None,
            r.bearer@ == self.api_token@,
    {
        let mut query: Vec<(String, String)> = Vec::new();
        query.push(("org_slug".to_owned(), org_slug.to_owned()));
        proof {
            assert(query.deep_view() =~= seq![("org_slug"@, org_slug@)]);
        }
        Request {
            method: Method::Get,
            url: self.apps_url(),
            query,
            body: None,
            bearer: self.api_token.clone(),
        }
    }

    /// The applications listed, for each outcome of the list request:
    /// exactly status 200 with a body carrying an `apps` array succeeds.
    pub fn list_response(r: &FetchResult) -> (out: Result<Vec<App>, ApiError>)
        ensures
            result_matches(
                out,
                interpreted(r.deep_view(), Some(200), app_list_payload(r.deep_view())),
            ),
    {
        match r {
            FetchResult::Failed(m) => Err(ApiError::Transport(m.clone())),
            FetchResult::TimedOut => Err(ApiError::TimedOut),
            FetchResult::Response(resp) => {
                if resp.status != 200 {
                    Err(ApiError::Status(resp.status, resp.body.clone()))
                } else {
                    let decoded = match &resp.json {
                        Some(j) => match opt_app_arr_field(j, "apps") {
                            Some(Some(apps)) => Some(apps),
                            _ => None,
                        },
                        None => None,
                    };
                    match decoded {
                        Some(apps) => Ok(apps),
                        None => Err(ApiError::Decode(resp.body.clone())),
                    }
                }
            },
        }
    }
}

} // verus!
