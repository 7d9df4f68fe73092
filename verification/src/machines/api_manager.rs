//! The machine manager: builds each machine request, interprets each
//! response, and sequences the lifecycle operations that follow a mutating
//! call with a wait for the resulting state.

use super::endpoints::{
    event_response_seq_of, machine_request_jv, machine_response_of_jv, EventResponse,
    EventResponseV, MachineRequest, MachineResponse, MachineResponseV,
};
use super::machine::{machine_state_name, MachineState};
use super::process::{
    command_response_of_jv, process_response_of_jv, CommandResponse, ProcessResponse,
    ProcessResponseV,
};
use crate::http::{
    interpreted, is_success, result_matches, ApiError, ApiErrorV, FetchResult, FetchResultV,
    Method, Request,
};
use crate::json::{json_seq_view, str_seq_jv, Json, JsonV};
use crate::text::{dec_str, u64_text};
use vstd::prelude::*;

verus! {

broadcast use vstd::string::group_string_axioms, vstd::seq::group_seq_axioms, vstd::std_specs::vec::group_vec_axioms;

/// The machines collection of an application.
pub open spec fn machines_url_text(endpoint: Seq<char>, app: Seq<char>) -> Seq<char> {
    endpoint + "/apps/"@ + app + "/machines"@
}

/// One machine of an application.
pub open spec fn machine_url_text(endpoint: Seq<char>, app: Seq<char>, id: Seq<char>) -> Seq<
    char,
> {
    machines_url_text(endpoint, app) + "/"@ + id
}

/// The query of the wait endpoint: the state always, the timeout and the
/// instance pin only when supplied.
pub open spec fn wait_query(
    state: MachineState,
    timeout: Option<u64>,
    instance_id: Option<Seq<char>>,
) -> Seq<(Seq<char>, Seq<char>)> {
    seq![("state"@, machine_state_name(state))] + (match timeout {
        None => Seq::<(Seq<char>, Seq<char>)>::empty(),
        Some(t) => seq![("timeout"@, dec_str(t as int))],
    }) + (match instance_id {
        None => Seq::<(Seq<char>, Seq<char>)>::empty(),
        Some(s) => seq![("instance_id"@, s)],
    })
}

/// Every element decodes as a machine.
pub open spec fn machine_response_seq_of(items: Seq<JsonV>) -> Option<Seq<MachineResponseV>> {
    if forall|k: int| 0 <= k < items.len() ==> machine_response_of_jv(
        #[trigger] items[k],
    ) is Some {
        Some(Seq::new(items.len(), |k: int| machine_response_of_jv(items[k])->0))
    } else {
        None
    }
}

/// Every element decodes as a process listing entry.
pub open spec fn process_response_seq_of(items: Seq<JsonV>) -> Option<Seq<ProcessResponseV>> {
    if forall|k: int| 0 <= k < items.len() ==> process_response_of_jv(
        #[trigger] items[k],
    ) is Some {
        Some(Seq::new(items.len(), |k: int| process_response_of_jv(items[k])->0))
    } else {
        None
    }
}

/// The machine carried by a successful response body.
pub open spec fn machine_payload(rv: FetchResultV) -> Option<MachineResponseV> {
    match rv {
        FetchResultV::Response(resp) => match resp.json {
            Some(j) => machine_response_of_jv(j),
            None => None,
        },
        _ => None,
    }
}

/// The array of machines carried by a successful response body.
pub open spec fn machine_list_payload(rv: FetchResultV) -> Option<Seq<MachineResponseV>> {
    match rv {
        FetchResultV::Response(resp) => match resp.json {
            Some(JsonV::Arr(items)) => machine_response_seq_of(items),
            _ => None,
        },
        _ => None,
    }
}

/// The array of events carried by a successful response body.
pub open spec fn event_list_payload(rv: FetchResultV) -> Option<Seq<EventResponseV>> {
    match rv {
        FetchResultV::Response(resp) => match resp.json {
            Some(JsonV::Arr(items)) => event_response_seq_of(items),
            _ => None,
        },
        _ => None,
    }
}

/// The array of processes carried by a successful response body.
pub open spec fn process_list_payload(rv: FetchResultV) -> Option<Seq<ProcessResponseV>> {
    match rv {
        FetchResultV::Response(resp) => match resp.json {
            Some(JsonV::Arr(items)) => process_response_seq_of(items),
            _ => None,
        },
        _ => None,
    }
}

/// The command result carried by a successful response body.
pub open spec fn command_payload(rv: FetchResultV) -> Option<
    crate::machines::process::CommandResponseV,
> {
    match rv {
        FetchResultV::Response(resp) => match resp.json {
            Some(j) => command_response_of_jv(j),
            None => None,
        },
        _ => None,
    }
}

/// Decodes an array of machines.
fn machine_responses_from_json(j: &Json) -> (r: Option<Vec<MachineResponse>>)
    ensures
        r.deep_view() == (match j.deep_view() {
            JsonV::Arr(items) => machine_response_seq_of(items),
            _ => None,
        }),
{
    match j {
        Json::Arr(items) => {
            let ghost iv = json_seq_view(items@);
            let mut out: Vec<MachineResponse> = Vec::new();
            let n = items.len();
            for i in 0..n
                invariant
                    n == items.len(),
                    iv == json_seq_view(items@),
                    j.deep_view() == JsonV::Arr(iv),
                    iv.len() == n,
                    out@.len() == i,
                    forall|p: int| 0 <= p < i ==> machine_response_of_jv(
                        #[trigger] iv[p],
                    ) is Some,
                    forall|p: int| 0 <= p < i ==> (#[trigger] out@[p]).deep_view()
                        == machine_response_of_jv(iv[p])->0,
            {
                match MachineResponse::from_json(&items[i]) {
                    Some(x) => { out.push(x); },
                    None => {
                        proof {
                            assert(machine_response_of_jv(iv[i as int]) is None);
                        }
                        return None;
                    },
                }
            }
            proof {
                assert(out.deep_view() =~= machine_response_seq_of(iv)->0);
            }
            Some(out)
        },
        _ => None,
    }
}

/// Decodes an array of processes.
fn process_responses_from_json(j: &Json) -> (r: Option<Vec<ProcessResponse>>)
    ensures
        r.deep_view() == (match j.deep_view() {
            JsonV::Arr(items) => process_response_seq_of(items),
            _ => None,
        }),
{
    match j {
        Json::Arr(items) => {
            let ghost iv = json_seq_view(items@);
            let mut out: Vec<ProcessResponse> = Vec::new();
            let n = items.len();
            for i in 0..n
                invariant
                    n == items.len(),
                    iv == json_seq_view(items@),
                    j.deep_view() == JsonV::Arr(iv),
                    iv.len() == n,
                    out@.len() == i,
                    forall|p: int| 0 <= p < i ==> process_response_of_jv(
                        #[trigger] iv[p],
                    ) is Some,
                    forall|p: int| 0 <= p < i ==> (#[trigger] out@[p]).deep_view()
                        == process_response_of_jv(iv[p])->0,
            {
                match ProcessResponse::from_json(&items[i]) {
                    Some(x) => { out.push(x); },
                    None => {
                        proof {
                            assert(process_response_of_jv(iv[i as int]) is None);
                        }
                        return None;
                    },
                }
            }
            proof {
                assert(out.deep_view() =~= process_response_seq_of(iv)->0);
            }
            Some(out)
        },
        _ => None,
    }
}

/// Manages the machines of an application: create, list, lifecycle
/// operations with their waits, events, processes, and command execution.
pub struct MachineManager {
    /// The base URL every machine route is built on.
    pub endpoint: String,
    /// The bearer token attached to every request.
    pub api_token: String,
}

/// A two-step lifecycle operation: a mutating request, then a wait for the
/// state the operation is after.
#[derive(Debug)]
pub struct MachineFlow {
    /// The mutating request sent first.
    pub action: Request,
    /// The wait request sent after the action is accepted.
    pub wait: Request,
    /// The status the action must answer with exactly; any 2xx when absent.
    pub action_status: Option<u16>,
    /// Whether the operation's machine is decoded from the action response
    /// (otherwise from the wait response).
    pub result_from_action: bool,
    /// Whether the flow finishes on the action, sending no wait.
    pub skip_wait: bool,
}

/// What follows the action response of a flow.
#[derive(Debug)]
pub enum ActionStep {
    /// The action was accepted: send the carried wait request and hand its
    /// outcome to `on_wait`, together with the carried machine.
    Wait(Option<MachineResponse>, Request),
    /// The operation is complete.
    Done(Result<MachineResponse, ApiError>),
}

impl MachineFlow {
    /// Whether a status satisfies the action's expectation.
    pub open spec fn action_accepted(self, status: u16) -> bool {
        match self.action_status {
            Some(code) => status == code,
            None => is_success(status),
        }
    }

    /// Interprets the outcome of the action request.  Any outcome other
    /// than an accepted status ends the operation with the matching error;
    /// an accepted status continues with the wait request, except that a
    /// flow that skips its wait finishes at once.
    pub fn on_action(&self, r: &FetchResult) -> (step: ActionStep)
        ensures
            ({
                let rv = r.deep_view();
                match rv {
                    FetchResultV::Failed(m) => step matches ActionStep::Done(Err(e))
                        && e.deep_view() == ApiErrorV::Transport(m),
                    FetchResultV::TimedOut => step matches ActionStep::Done(Err(e))
                        && e.deep_view() == ApiErrorV::TimedOut,
                    FetchResultV::Response(resp) => {
                        if !self.action_accepted(resp.status) {
                            step matches ActionStep::Done(Err(e)) && e.deep_view()
                                == ApiErrorV::Status(resp.status, resp.body)
                        } else if self.result_from_action {
                            match machine_payload(rv) {
                                None => step matches ActionStep::Done(Err(e)) && e.deep_view()
                                    == ApiErrorV::Decode(resp.body),
                                Some(m) => {
                                    if self.skip_wait {
                                        step matches ActionStep::Done(Ok(mr)) && mr.deep_view()
                                            == m
                                    } else {
                                        step matches ActionStep::Wait(Some(mr), req)
                                            && mr.deep_view() == m && req.deep_view()
                                            == self.wait.deep_view()
                                    }
                                },
                            }
                        } else {
                            step matches ActionStep::Wait(None, req) && req.deep_view()
                                == self.wait.deep_view()
                        }
                    },
                }
            }),
    {
        match r {
            FetchResult::Failed(m) => ActionStep::Done(Err(ApiError::Transport(m.clone()))),
            FetchResult::TimedOut => ActionStep::Done(Err(ApiError::TimedOut)),
            FetchResult::Response(resp) => {
                let accepted = match self.action_status {
                    Some(code) => resp.status == code,
                    None => 200 <= resp.status && resp.status < 300,
                };
                if !accepted {
                    ActionStep::Done(Err(ApiError::Status(resp.status, resp.body.clone())))
                } else if self.result_from_action {
                    let decoded = match &resp.json {
                        Some(j) => MachineResponse::from_json(j),
                        None => None,
                    };
                    match decoded {
                        None => ActionStep::Done(Err(ApiError::Decode(resp.body.clone()))),
                        Some(m) => {
                            if self.skip_wait {
                                ActionStep::Done(Ok(m))
                            } else {
                                ActionStep::Wait(Some(m), self.wait.clone())
                            }
                        },
                    }
                } else {
                    ActionStep::Wait(None, self.wait.clone())
                }
            },
        }
    }

    /// Interprets the outcome of the wait request.  A transport timeout is
    /// reported as the timeout error, never as success of the earlier
    /// action.  On success the operation's machine is the one carried over
    /// from the action where the flow asked for that, else the one the wait
    /// reported.
    pub fn on_wait(&self, action_machine: Option<MachineResponse>, r: &FetchResult) -> (out:
        Result<MachineResponse, ApiError>)
        ensures
            ({
                let rv = r.deep_view();
                match interpreted(rv, None, machine_payload(rv)) {
                    Err(e) => out matches Err(e2) && e2.deep_view() == e,
                    Ok(m) => match action_machine {
                        Some(am) => self.result_from_action ==> (out matches Ok(mr)
                            && mr.deep_view() == am.deep_view()),
                        None => out matches Ok(mr) && mr.deep_view() == m,
                    },
                }
            }),
    {
        match r {
            FetchResult::Failed(m) => Err(ApiError::Transport(m.clone())),
            FetchResult::TimedOut => Err(ApiError::TimedOut),
            FetchResult::Response(resp) => {
                if !(200 <= resp.status && resp.status < 300) {
                    Err(ApiError::Status(resp.status, resp.body.clone()))
                } else {
                    let decoded = match &resp.json {
                        Some(j) => MachineResponse::from_json(j),
                        None => None,
                    };
                    match decoded {
                        None => Err(ApiError::Decode(resp.body.clone())),
                        Some(m) => match action_machine {
                            Some(am) => Ok(am),
                            None => Ok(m),
                        },
                    }
                }
            },
        }
    }
}

impl Clone for Request {
    /// An equal request.
    fn clone(&self) -> (res: Self)
        ensures
            res.deep_view() == self.deep_view(),
    {
        let mut query: Vec<(String, String)> = Vec::new();
        let n = self.query.len();
        for i in 0..n
            invariant
                n == self.query.len(),
                query@.len() == i,
                forall|p: int| 0 <= p < i ==> (#[trigger] query@[p]).0@ == self.query@[p].0@
                    && query@[p].1@ == self.query@[p].1@,
        {
            query.push((self.query[i].0.clone(), self.query[i].1.clone()));
        }
        let body = match &self.body {
            Some(b) => Some(b.clone()),
            None => None,
        };
        let res = Request {
            method: self.method,
            url: self.url.clone(),
            query,
            body,
            bearer: self.bearer.clone(),
        };
        proof {
            assert(res.deep_view().query =~= self.deep_view().query);
            assert(res.deep_view() =~= self.deep_view());
        }
        res
    }
}

impl MachineManager {
    /// A manager sending bearer-authenticated requests against an endpoint.
    pub fn new(endpoint: String, api_token: String) -> (r: Self)
        ensures
            r.endpoint == endpoint,
            r.api_token == api_token,
    {
        Self { endpoint, api_token }
    }

    /// `{endpoint}/apps/{app}/machines`.
    fn machines_url(&self, app_name: &str) -> (s: String)
        ensures
            s@ == machines_url_text(self.endpoint@, app_name@),
    {
        let mut s = self.endpoint.clone();
        s.append("/apps/");
        s.append(app_name);
        s.append("/machines");
        s
    }

    /// `{endpoint}/apps/{app}/machines/{id}`.
    fn machine_url(&self, app_name: &str, machine_id: &str) -> (s: String)
        ensures
            s@ == machine_url_text(self.endpoint@, app_name@, machine_id@),
    {
        let mut s = self.machines_url(app_name);
        s.append("/");
        s.append(machine_id);
        s
    }

    /// The request creating a machine: a single POST of the configuration.
    /// Creation does not itself wait for a running state; a caller that
    /// needs the machine started follows with `wait_for_machine_state`.
    pub fn create(&self, app_name: &str, request_data: &MachineRequest) -> (r: Request)
        ensures
            r.method == Method::Post,
            r.url@ == machines_url_text(self.endpoint@, app_name@),
            r.query.deep_view() == Seq::<(Seq<char>, Seq<char>)>::empty(),
            r.body matches Some(b) && b.deep_view() == machine_request_jv(
                request_data.deep_view(),
            ),
            r.bearer@ == self.api_token@,
    {
        let r = Request {
            method: Method::Post,
            url: self.machines_url(app_name),
            query: Vec::new(),
            body: Some(request_data.to_json()),
            bearer: self.api_token.clone(),
        };
        proof {
            assert(r.query.deep_view() =~= Seq::<(Seq<char>, Seq<char>)>::empty());
        }
        r
    }

    /// The machine created, for each outcome of the create request: any 2xx
    /// status with a machine body succeeds, and every other outcome carries
    /// its own error.
    pub fn create_response(r: &FetchResult) -> (out: Result<MachineResponse, ApiError>)
        ensures
            result_matches(out, interpreted(r.deep_view(), None, machine_payload(r.deep_view()))),
    {
        match r {
            FetchResult::Failed(m) => Err(ApiError::Transport(m.clone())),
            FetchResult::TimedOut => Err(ApiError::TimedOut),
            FetchResult::Response(resp) => {
                if !(200 <= resp.status && resp.status < 300) {
                    Err(ApiError::Status(resp.status, resp.body.clone()))
                } else {
                    let decoded = match &resp.json {
                        Some(j) => MachineResponse::from_json(j),
                        None => None,
                    };
                    match decoded {
                        Some(m) => Ok(m),
                        None => Err(ApiError::Decode(resp.body.clone())),
                    }
                }
            },
        }
    }

    /// The request listing the machines of an application.
    pub fn list(&self, app_name: &str) -> (r: Request)
        ensures
            r.method == Method::Get,
            r.url@ == machines_url_text(self.endpoint@, app_name@),
            r.query.deep_view() == Seq::<(Seq<char>, Seq<char>)>::empty(),
            r.body is None,
            r.bearer@ == self.api_token@,
    {
        let r = Request {
            method: Method::Get,
            url: self.machines_url(app_name),
            query: Vec::new(),
            body: None,
            bearer: self.api_token.clone(),
        };
        proof {
            assert(r.query.deep_view() =~= Seq::<(Seq<char>, Seq<char>)>::empty());
        }
        r
    }

    /// The machines listed, for each outcome of the list request: exactly
    /// status 200 with an array of machines succeeds.
    pub fn list_response(r: &FetchResult) -> (out: Result<Vec<MachineResponse>, ApiError>)
        ensures
            result_matches(
                out,
                interpreted(r.deep_view(), Some(200), machine_list_payload(r.deep_view())),
            ),
    {
        match r {
            FetchResult::Failed(m) => Err(ApiError::Transport(m.clone())),
            FetchResult::TimedOut => Err(ApiError::TimedOut),
            FetchResult::Response(resp) => {
                if resp.status != 200 {
                    Err(ApiError::Status(resp.status, resp.body.clone()))
                } else {
                    let decoded = match &resp.json {
                        Some(j) => machine_responses_from_json(j),
                        None => None,
                    };
                    match decoded {
                        Some(ms) => Ok(ms),
                        None => Err(ApiError::Decode(resp.body.clone())),
                    }
                }
            },
        }
    }

    /// The long-poll request that returns once the machine reaches the
    /// desired state or the server-side timeout elapses.  The query carries
    /// the state always, the timeout only when supplied, and the instance
    /// pin only when supplied.
    pub fn wait_for_machine_state(
        &self,
        app_name: &str,
        machine_id: &str,
        desired_state: MachineState,
        timeout: Option<u64>,
        instance_id: Option<&str>,
    ) -> (r: Request)
        ensures
            r.method == Method::Get,
            r.url@ == machine_url_text(self.endpoint@, app_name@, machine_id@) + "/wait"@,
            r.query.deep_view() == wait_query(desired_state, timeout, instance_id.deep_view()),
            r.body is None,
            r.bearer@ == self.api_token@,
    {
        let mut url = self.machine_url(app_name, machine_id);
        url.append("/wait");
        let mut query: Vec<(String, String)> = Vec::new();
        query.push(("state".to_owned(), desired_state.code()));
        if let Some(t) = timeout {
            query.push(("timeout".to_owned(), u64_text(t)));
        }
        if let Some(iid) = instance_id {
            query.push(("instance_id".to_owned(), iid.to_owned()));
        }
        proof {
            assert(query.deep_view() =~= wait_query(
                desired_state,
                timeout,
                instance_id.deep_view(),
            ));
        }
        Request {
            method: Method::Get,
            url,
            query,
            body: None,
            bearer: self.api_token.clone(),
        }
    }

    /// The machine reported, for each outcome of the wait request: any 2xx
    /// status with a machine body succeeds; a timeout is its own error,
    /// distinct from a reported error status.
    pub fn wait_response(r: &FetchResult) -> (out: Result<MachineResponse, ApiError>)
        ensures
            result_matches(out, interpreted(r.deep_view(), None, machine_payload(r.deep_view()))),
    {
        Self::create_response(r)
    }

    /// The stop operation: POST to the stop route, expecting exactly 200,
    /// then wait for `Stopped`, pinned to the given instance so that a
    /// replacement instance under the same machine id cannot satisfy the
    /// wait.
    pub fn stop(
        &self,
        app_name: &str,
        machine_id: &str,
        instance_id: &str,
        timeout: Option<u64>,
    ) -> (flow: MachineFlow)
        ensures
            flow.action.method == Method::Post,
            flow.action.url@ == machine_url_text(self.endpoint@, app_name@, machine_id@)
                + "/stop"@,
            flow.action.query.deep_view() == Seq::<(Seq<char>, Seq<char>)>::empty(),
            flow.action.body is None,
            flow.action.bearer@ == self.api_token@,
            flow.action_status == Some(200u16),
            flow.wait.method == Method::Get,
            flow.wait.url@ == machine_url_text(self.endpoint@, app_name@, machine_id@) + "/wait"@,
            flow.wait.query.deep_view() == wait_query(
                MachineState::Stopped,
                timeout,
                Some(instance_id@),
            ),
            flow.wait.bearer@ == self.api_token@,
            !flow.result_from_action,
            !flow.skip_wait,
    {
        let mut url = self.machine_url(app_name, machine_id);
        url.append("/stop");
        let action = Request {
            method: Method::Post,
            url,
            query: Vec::new(),
            body: None,
            bearer: self.api_token.clone(),
        };
        proof {
            assert(action.query.deep_view() =~= Seq::<(Seq<char>, Seq<char>)>::empty());
        }
        let wait = self.wait_for_machine_state(
            app_name,
            machine_id,
            MachineState::Stopped,
            timeout,
            Some(instance_id),
        );
        MachineFlow {
            action,
            wait,
            action_status: Some(200),
            result_from_action: false,
            skip_wait: false,
        }
    }

    /// The start operation: POST to the start route, expecting exactly 200,
    /// then wait for `Started`.  The wait may be pinned to an instance.
    pub fn start(
        &self,
        app_name: &str,
        machine_id: &str,
        timeout: Option<u64>,
        instance_id: Option<&str>,
    ) -> (flow: MachineFlow)
        ensures
            flow.action.method == Method::Post,
            flow.action.url@ == machine_url_text(self.endpoint@, app_name@, machine_id@)
                + "/start"@,
            flow.action.query.deep_view() == Seq::<(Seq<char>, Seq<char>)>::empty(),
            flow.action.body is None,
            flow.action.bearer@ == self.api_token@,
            flow.action_status == Some(200u16),
            flow.wait.method == Method::Get,
            flow.wait.url@ == machine_url_text(self.endpoint@, app_name@, machine_id@) + "/wait"@,
            flow.wait.query.deep_view() == wait_query(
                MachineState::Started,
                timeout,
                instance_id.deep_view(),
            ),
            flow.wait.bearer@ == self.api_token@,
            !flow.result_from_action,
            !flow.skip_wait,
    {
        let mut url = self.machine_url(app_name, machine_id);
        url.append("/start");
        let action = Request {
            method: Method::Post,
            url,
            query: Vec::new(),
            body: None,
            bearer: self.api_token.clone(),
        };
        proof {
            assert(action.query.deep_view() =~= Seq::<(Seq<char>, Seq<char>)>::empty());
        }
        let wait = self.wait_for_machine_state(
            app_name,
            machine_id,
            MachineState::Started,
            timeout,
            instance_id,
        );
        MachineFlow {
            action,
            wait,
            action_status: Some(200),
            result_from_action: false,
            skip_wait: false,
        }
    }

    /// The delete operation: DELETE the machine, with `force=true` as the
    /// only query parameter exactly when forcing, expecting exactly 200,
    /// then wait for `Destroyed`.
    pub fn delete(
        &self,
        app_name: &str,
        machine_id: &str,
        force: bool,
        timeout: Option<u64>,
    ) -> (flow: MachineFlow)
        ensures
            flow.action.method == Method::Delete,
            flow.action.url@ == machine_url_text(self.endpoint@, app_name@, machine_id@),
            flow.action.query.deep_view() == (if force {
                seq![("force"@, "true"@)]
            } else {
                Seq::<(Seq<char>, Seq<char>)>::empty()
            }),
            flow.action.body is None,
            flow.action.bearer@ == self.api_token@,
            flow.action_status == Some(200u16),
            flow.wait.method == Method::Get,
            flow.wait.url@ == machine_url_text(self.endpoint@, app_name@, machine_id@) + "/wait"@,
            flow.wait.query.deep_view() == wait_query(MachineState::Destroyed, timeout, None),
            flow.wait.bearer@ == self.api_token@,
            !flow.result_from_action,
            !flow.skip_wait,
    {
        let url = self.machine_url(app_name, machine_id);
        let mut query: Vec<(String, String)> = Vec::new();
        if force {
            query.push(("force".to_owned(), "true".to_owned()));
        }
        proof {
            if force {
                assert(query.deep_view() =~= seq![("force"@, "true"@)]);
            } else {
                assert(query.deep_view() =~= Seq::<(Seq<char>, Seq<char>)>::empty());
            }
        }
        let action = Request {
            method: Method::Delete,
            url,
            query,
            body: None,
            bearer: self.api_token.clone(),
        };
        let wait = self.wait_for_machine_state(
            app_name,
            machine_id,
            MachineState::Destroyed,
            timeout,
            None,
        );
        MachineFlow {
            action,
            wait,
            action_status: Some(200),
            result_from_action: false,
            skip_wait: false,
        }
    }

    /// The restart operation: POST to the restart route, expecting any 2xx,
    /// then wait for `Started` pinned to the instance that existed before
    /// the restart.  The operation's machine is the one the restart call
    /// reported.
    pub fn restart_machine(
        &self,
        app_name: &str,
        machine_id: &str,
        instance_id: &str,
        timeout: Option<u64>,
    ) -> (flow: MachineFlow)
        ensures
            flow.action.method == Method::Post,
            flow.action.url@ == machine_url_text(self.endpoint@, app_name@, machine_id@)
                + "/restart"@,
            flow.action.query.deep_view() == Seq::<(Seq<char>, Seq<char>)>::empty(),
            flow.action.body is None,
            flow.action.bearer@ == self.api_token@,
            flow.action_status is None,
            flow.wait.method == Method::Get,
            flow.wait.url@ == machine_url_text(self.endpoint@, app_name@, machine_id@) + "/wait"@,
            flow.wait.query.deep_view() == wait_query(
                MachineState::Started,
                timeout,
                Some(instance_id@),
            ),
            flow.wait.bearer@ == self.api_token@,
            flow.result_from_action,
            !flow.skip_wait,
    {
        let mut url = self.machine_url(app_name, machine_id);
        url.append("/restart");
        let action = Request {
            method: Method::Post,
            url,
            query: Vec::new(),
            body: None,
            bearer: self.api_token.clone(),
        };
        proof {
            assert(action.query.deep_view() =~= Seq::<(Seq<char>, Seq<char>)>::empty());
        }
        let wait = self.wait_for_machine_state(
            app_name,
            machine_id,
            MachineState::Started,
            timeout,
            Some(instance_id),
        );
        MachineFlow {
            action,
            wait,
            action_status: None,
            result_from_action: true,
            skip_wait: false,
        }
    }

    /// The update operation: POST the new configuration to the machine
    /// route, expecting any 2xx.  Waiting for convergence is an explicit
    /// opt-in: with `wait_for_started` the flow follows with a wait for
    /// `Started` pinned to the given instance, else it finishes on the
    /// update response.  Either way the operation's machine is the one the
    /// update call reported.
    pub fn update_machine(
        &self,
        app_name: &str,
        machine_id: &str,
        instance_id: &str,
        machine_request: &MachineRequest,
        wait_for_started: bool,
        timeout: Option<u64>,
    ) -> (flow: MachineFlow)
        ensures
            flow.action.method == Method::Post,
            flow.action.url@ == machine_url_text(self.endpoint@, app_name@, machine_id@),
            flow.action.query.deep_view() == Seq::<(Seq<char>, Seq<char>)>::empty(),
            flow.action.body matches Some(b) && b.deep_view() == machine_request_jv(
                machine_request.deep_view(),
            ),
            flow.action.bearer@ == self.api_token@,
            flow.action_status is None,
            flow.wait.query.deep_view() == wait_query(
                MachineState::Started,
                timeout,
                Some(instance_id@),
            ),
            flow.result_from_action,
            flow.skip_wait == !wait_for_started,
    {
        let action = Request {
            method: Method::Post,
            url: self.machine_url(app_name, machine_id),
            query: Vec::new(),
            body: Some(machine_request.to_json()),
            bearer: self.api_token.clone(),
        };
        proof {
            assert(action.query.deep_view() =~= Seq::<(Seq<char>, Seq<char>)>::empty());
        }
        let wait = self.wait_for_machine_state(
            app_name,
            machine_id,
            MachineState::Started,
            timeout,
            Some(instance_id),
        );
        MachineFlow {
            action,
            wait,
            action_status: None,
            result_from_action: true,
            skip_wait: !wait_for_started,
        }
    }

    /// The request listing a machine's event history.
    pub fn list_events(&self, app_name: &str, machine_id: &str) -> (r: Request)
        ensures
            r.method == Method::Get,
            r.url@ == machine_url_text(self.endpoint@, app_name@, machine_id@) + "/events"@,
            r.query.deep_view() == Seq::<(Seq<char>, Seq<char>)>::empty(),
            r.body is None,
            r.bearer@ == self.api_token@,
    {
        let mut url = self.machine_url(app_name, machine_id);
        url.append("/events");
        let r = Request {
            method: Method::Get,
            url,
            query: Vec::new(),
            body: None,
            bearer: self.api_token.clone(),
        };
        proof {
            assert(r.query.deep_view() =~= Seq::<(Seq<char>, Seq<char>)>::empty());
        }
        r
    }

    /// The events listed, for each outcome of the events request.
    pub fn list_events_response(r: &FetchResult) -> (out: Result<Vec<EventResponse>, ApiError>)
        ensures
            result_matches(
                out,
                interpreted(r.deep_view(), None, event_list_payload(r.deep_view())),
            ),
    {
        match r {
            FetchResult::Failed(m) => Err(ApiError::Transport(m.clone())),
            FetchResult::TimedOut => Err(ApiError::TimedOut),
            FetchResult::Response(resp) => {
                if !(200 <= resp.status && resp.status < 300) {
                    Err(ApiError::Status(resp.status, resp.body.clone()))
                } else {
                    let decoded = match &resp.json {
                        Some(j) => super::endpoints::event_responses_from_json(j),
                        None => None,
                    };
                    match decoded {
                        Some(es) => Ok(es),
                        None => Err(ApiError::Decode(resp.body.clone())),
                    }
                }
            },
        }
    }

    /// The request listing the processes running in a machine.
    pub fn list_processes(&self, app_name: &str, machine_id: &str) -> (r: Request)
        ensures
            r.method == Method::Get,
            r.url@ == machine_url_text(self.endpoint@, app_name@, machine_id@) + "/ps"@,
            r.query.deep_view() == Seq::<(Seq<char>, Seq<char>)>::empty(),
            r.body is None,
            r.bearer@ == self.api_token@,
    {
        let mut url = self.machine_url(app_name, machine_id);
        url.append("/ps");
        let r = Request {
            method: Method::Get,
            url,
            query: Vec::new(),
            body: None,
            bearer: self.api_token.clone(),
        };
        proof {
            assert(r.query.deep_view() =~= Seq::<(Seq<char>, Seq<char>)>::empty());
        }
        r
    }

    /// The processes listed, for each outcome of the process request.
    pub fn list_processes_response(r: &FetchResult) -> (out: Result<
        Vec<ProcessResponse>,
        ApiError,
    >)
        ensures
            result_matches(
                out,
                interpreted(r.deep_view(), None, process_list_payload(r.deep_view())),
            ),
    {
        match r {
            FetchResult::Failed(m) => Err(ApiError::Transport(m.clone())),
            FetchResult::TimedOut => Err(ApiError::TimedOut),
            FetchResult::Response(resp) => {
                if !(200 <= resp.status && resp.status < 300) {
                    Err(ApiError::Status(resp.status, resp.body.clone()))
                } else {
                    let decoded = match &resp.json {
                        Some(j) => process_responses_from_json(j),
                        None => None,
                    };
                    match decoded {
                        Some(ps) => Ok(ps),
                        None => Err(ApiError::Decode(resp.body.clone())),
                    }
                }
            },
        }
    }

    /// The request running a command inside a machine.  The body carries
    /// the command always and the timeout only when supplied; that timeout
    /// bounds the remote command, not the HTTP exchange.
    pub fn execute_command(
        &self,
        app_name: &str,
        machine_id: &str,
        command: &Vec<String>,
        timeout: Option<u64>,
    ) -> (r: Request)
        ensures
            r.method == Method::Post,
            r.url@ == machine_url_text(self.endpoint@, app_name@, machine_id@) + "/exec"@,
            r.query.deep_view() == Seq::<(Seq<char>, Seq<char>)>::empty(),
            r.body matches Some(b) && b.deep_view() == JsonV::Obj(
                seq![("command"@, JsonV::Arr(str_seq_jv(command.deep_view())))] + (match timeout {
                    None => Seq::<(Seq<char>, JsonV)>::empty(),
                    Some(t) => seq![("timeout"@, JsonV::UInt(t))],
                }),
            ),
            r.bearer@ == self.api_token@,
    {
        let mut url = self.machine_url(app_name, machine_id);
        url.append("/exec");
        let mut body: Vec<(String, Json)> = Vec::new();
        body.push(("command".to_owned(), Json::from_strings(command)));
        if let Some(t) = timeout {
            body.push(("timeout".to_owned(), Json::UInt(t)));
        }
        let b = Json::Obj(body);
        proof {
            assert(crate::json::json_pairs_view(body@) =~= seq![
                ("command"@, JsonV::Arr(str_seq_jv(command.deep_view()))),
            ] + (match timeout {
                None => Seq::<(Seq<char>, JsonV)>::empty(),
                Some(t) => seq![("timeout"@, JsonV::UInt(t))],
            }));
        }
        let r = Request {
            method: Method::Post,
            url,
            query: Vec::new(),
            body: Some(b),
            bearer: self.api_token.clone(),
        };
        proof {
            assert(r.query.deep_view() =~= Seq::<(Seq<char>, Seq<char>)>::empty());
        }
        r
    }

    /// The command outcome, for each outcome of the exec request.
    pub fn execute_command_response(r: &FetchResult) -> (out: Result<CommandResponse, ApiError>)
        ensures
            result_matches(out, interpreted(r.deep_view(), None, command_payload(r.deep_view()))),
    {
        match r {
            FetchResult::Failed(m) => Err(ApiError::Transport(m.clone())),
            FetchResult::TimedOut => Err(ApiError::TimedOut),
            FetchResult::Response(resp) => {
                if !(200 <= resp.status && resp.status < 300) {
                    Err(ApiError::Status(resp.status, resp.body.clone()))
                } else {
                    let decoded = match &resp.json {
                        Some(j) => CommandResponse::from_json(j),
                        None => None,
                    };
                    match decoded {
                        Some(c) => Ok(c),
                        None => Err(ApiError::Decode(resp.body.clone())),
                    }
                }
            },
        }
    }
}

} // verus!
