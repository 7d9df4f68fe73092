//! Response interpretation and lifecycle sequencing against a mocked
//! transport: outcomes are handed to the interpreters as plain values.

use fly_sdk::apps::AppManager;
use fly_sdk::http::{ApiError, FetchResult, HttpResponse};
use fly_sdk::json::Json;
use fly_sdk::machines::api_manager::ActionStep;
use fly_sdk::machines::{MachineManager, MachineState};
use fly_sdk::secrets::SecretsManager;
use fly_sdk::volumes::VolumeManager;

fn response(status: u16, body: &str, json: Option<Json>) -> FetchResult {
    FetchResult::Response(HttpResponse { status, body: body.to_string(), json })
}

fn obj(members: Vec<(&str, Json)>) -> Json {
    Json::Obj(members.into_iter().map(|(k, v)| (k.to_string(), v)).collect())
}

fn machine_json(id: &str, state: &str) -> Json {
    obj(vec![
        ("id", Json::Str(id.to_string())),
        ("instance_id", Json::Str("inst1".to_string())),
        ("state", Json::Str(state.to_string())),
    ])
}

#[test]
fn app_create_201_returns_matching_id() {
    let body = obj(vec![
        ("id", Json::Str("app1-id".to_string())),
        ("created_at", Json::UInt(1700000000)),
    ]);
    let out = AppManager::create_response(&response(201, "{}", Some(body)));
    let app = out.expect("creation succeeds on 201");
    assert_eq!(app.id, "app1-id");
    assert_eq!(app.created_at, 1700000000);
}

#[test]
fn app_create_422_carries_body_verbatim() {
    let out = AppManager::create_response(&response(422, "name already taken", None));
    match out {
        Err(ApiError::Status(422, body)) => assert_eq!(body, "name already taken"),
        other => panic!("expected a status error: {:?}", other),
    }
}

#[test]
fn app_create_200_is_not_created() {
    // Creation expects exactly 201; a plain 200 is surfaced as a status error.
    let out = AppManager::create_response(&response(200, "ok", None));
    assert!(matches!(out, Err(ApiError::Status(200, _))));
}

#[test]
fn stop_succeeds_when_wait_reports_stopped() {
    let m = MachineManager::new("http://e".to_string(), "t".to_string());
    let flow = m.stop("a", "m1", "inst1", None);
    let step = flow.on_action(&response(200, "", None));
    let wait_req = match step {
        ActionStep::Wait(carried, req) => {
            assert!(carried.is_none());
            req
        }
        ActionStep::Done(other) => panic!("stop ended early: {:?}", other),
    };
    assert_eq!(wait_req.url, "http://e/apps/a/machines/m1/wait");
    let out = flow.on_wait(None, &response(200, "", Some(machine_json("m1", "stopped"))));
    let machine = out.expect("stop completes when the wait reports the state");
    assert_eq!(machine.state.as_deref(), Some("stopped"));
}

#[test]
fn stop_propagates_a_wait_timeout_as_timeout() {
    let m = MachineManager::new("http://e".to_string(), "t".to_string());
    let flow = m.stop("a", "m1", "inst1", None);
    match flow.on_action(&response(200, "", None)) {
        ActionStep::Wait(_, _) => {}
        ActionStep::Done(other) => panic!("stop ended early: {:?}", other),
    }
    let out = flow.on_wait(None, &FetchResult::TimedOut);
    assert!(matches!(out, Err(ApiError::TimedOut)));
}

#[test]
fn stop_rejected_status_ends_the_flow() {
    let m = MachineManager::new("http://e".to_string(), "t".to_string());
    let flow = m.stop("a", "m1", "inst1", None);
    match flow.on_action(&response(404, "no such machine", None)) {
        ActionStep::Done(Err(ApiError::Status(404, body))) => {
            assert_eq!(body, "no such machine");
        }
        other => panic!("expected a status error: {:?}", other),
    }
}

#[test]
fn stop_transport_failure_is_not_a_timeout() {
    let m = MachineManager::new("http://e".to_string(), "t".to_string());
    let flow = m.stop("a", "m1", "inst1", None);
    match flow.on_action(&FetchResult::Failed("connection refused".to_string())) {
        ActionStep::Done(Err(ApiError::Transport(msg))) => {
            assert_eq!(msg, "connection refused");
        }
        other => panic!("expected a transport error: {:?}", other),
    }
}

#[test]
fn restart_returns_the_machine_of_the_restart_call() {
    let m = MachineManager::new("http://e".to_string(), "t".to_string());
    let flow = m.restart_machine("a", "m1", "inst1", None);
    let (carried, _req) = match flow.on_action(&response(
        200,
        "",
        Some(machine_json("m1", "starting")),
    )) {
        ActionStep::Wait(c, r) => (c, r),
        ActionStep::Done(other) => panic!("restart ended early: {:?}", other),
    };
    let out = flow.on_wait(carried, &response(200, "", Some(machine_json("m1", "started"))));
    let machine = out.expect("restart completes");
    // The operation reports the machine from the restart response itself.
    assert_eq!(machine.state.as_deref(), Some("starting"));
}

#[test]
fn update_without_wait_finishes_on_the_update_response() {
    let m = MachineManager::new("http://e".to_string(), "t".to_string());
    let config = fly_sdk::machines::MachineConfig::builder().image("nginx:latest").build();
    let req = fly_sdk::machines::MachineRequest::new(config, None, None);
    let flow = m.update_machine("a", "m1", "inst1", &req, false, None);
    assert!(flow.skip_wait);
    match flow.on_action(&response(200, "", Some(machine_json("m1", "started")))) {
        ActionStep::Done(Ok(machine)) => assert_eq!(machine.id.as_deref(), Some("m1")),
        other => panic!("update should finish at once: {:?}", other),
    }
}

#[test]
fn wait_decode_failure_is_a_decode_error() {
    let out = MachineManager::wait_response(&response(200, "not json", None));
    match out {
        Err(ApiError::Decode(body)) => assert_eq!(body, "not json"),
        other => panic!("expected a decode error: {:?}", other),
    }
}

#[test]
fn list_decodes_machines() {
    let body = Json::Arr(vec![machine_json("m1", "started"), machine_json("m2", "stopped")]);
    let out = MachineManager::list_response(&response(200, "", Some(body)));
    let machines = out.expect("listing succeeds");
    assert_eq!(machines.len(), 2);
    assert_eq!(machines[0].id.as_deref(), Some("m1"));
    assert_eq!(machines[1].state.as_deref(), Some("stopped"));
}

#[test]
fn wait_state_names() {
    assert_eq!(MachineState::Started.code(), "started");
    assert_eq!(MachineState::Stopped.code(), "stopped");
    assert_eq!(MachineState::Suspended.code(), "suspended");
    assert_eq!(MachineState::Destroyed.code(), "destroyed");
}

#[test]
fn app_list_reads_the_apps_member() {
    let body = obj(vec![
        ("total_apps", Json::UInt(1)),
        (
            "apps",
            Json::Arr(vec![obj(vec![
                ("id", Json::Str("a1".to_string())),
                ("name", Json::Str("demo".to_string())),
                ("machine_count", Json::UInt(2)),
                ("network", Json::Str("default".to_string())),
            ])]),
        ),
    ]);
    let out = AppManager::list_response(&response(200, "", Some(body)));
    let apps = out.expect("listing succeeds");
    assert_eq!(apps.len(), 1);
    assert_eq!(apps[0].name, "demo");
    assert_eq!(apps[0].machine_count, 2);
}

#[test]
fn volume_create_decodes_the_volume() {
    let body = obj(vec![
        ("id", Json::Str("vol_1".to_string())),
        ("name", Json::Str("data".to_string())),
        ("size_gb", Json::UInt(10)),
        ("encrypted", Json::Bool(false)),
    ]);
    let out = VolumeManager::create_volume_response(&response(201, "", Some(body)));
    let vol = out.expect("creation succeeds");
    assert_eq!(vol.id.as_deref(), Some("vol_1"));
    assert_eq!(vol.size_gb, Some(10));
}

#[test]
fn volume_error_carries_status_and_body() {
    let out = VolumeManager::create_volume_response(&response(500, "boom", None));
    assert!(matches!(out, Err(ApiError::Status(500, ref b)) if b == "boom"));
}

#[test]
fn secrets_list_decodes() {
    let body = Json::Arr(vec![obj(vec![
        ("label", Json::Str("db_url".to_string())),
        ("publickey", Json::Arr(vec![Json::UInt(1), Json::UInt(2)])),
        ("type", Json::Str("shared".to_string())),
    ])]);
    let out = SecretsManager::list_secrets_response(&response(200, "", Some(body)));
    let secrets = out.expect("listing succeeds");
    assert_eq!(secrets.len(), 1);
    assert_eq!(secrets[0].label, "db_url");
    assert_eq!(secrets[0].stype, "shared");
    assert_eq!(secrets[0].publickey, vec![1, 2]);
}

#[test]
fn machine_response_decodes_nested_config() {
    let body = obj(vec![
        ("id", Json::Str("m1".to_string())),
        (
            "config",
            obj(vec![
                ("image", Json::Str("nginx:latest".to_string())),
                ("auto_destroy", Json::Bool(true)),
            ]),
        ),
        ("host_status", Json::Str("ok".to_string())),
    ]);
    let out = MachineManager::wait_response(&response(200, "", Some(body)));
    let machine = out.expect("decodes");
    let config = machine.config.expect("config survives");
    assert_eq!(config.image, "nginx:latest");
    assert_eq!(config.auto_destroy, Some(true));
}
