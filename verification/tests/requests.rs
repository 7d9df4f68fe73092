//! Request construction: URLs, query parameters, and bodies.

use fly_sdk::http::Method;
use fly_sdk::machines::{MachineManager, MachineState};
use fly_sdk::text::{i64_text, u64_text};
use fly_sdk::volumes::VolumeManager;
use fly_sdk::FlyControl;

fn manager() -> MachineManager {
    MachineManager::new("https://api.test/v1".to_string(), "tok".to_string())
}

fn pairs(q: &[(&str, &str)]) -> Vec<(String, String)> {
    q.iter().map(|(k, v)| (k.to_string(), v.to_string())).collect()
}

#[test]
fn wait_query_state_only() {
    let m = manager();
    let r = m.wait_for_machine_state("a", "m1", MachineState::Started, None, None);
    assert_eq!(r.method, Method::Get);
    assert_eq!(r.url, "https://api.test/v1/apps/a/machines/m1/wait");
    assert_eq!(r.query, pairs(&[("state", "started")]));
    assert!(r.body.is_none());
    assert_eq!(r.bearer, "tok");
}

#[test]
fn wait_query_with_timeout() {
    let m = manager();
    let r = m.wait_for_machine_state("a", "m1", MachineState::Stopped, Some(60), None);
    assert_eq!(r.query, pairs(&[("state", "stopped"), ("timeout", "60")]));
}

#[test]
fn wait_query_with_instance() {
    let m = manager();
    let r = m.wait_for_machine_state("a", "m1", MachineState::Destroyed, None, Some("inst9"));
    assert_eq!(r.query, pairs(&[("state", "destroyed"), ("instance_id", "inst9")]));
}

#[test]
fn wait_query_with_timeout_and_instance() {
    let m = manager();
    let r = m.wait_for_machine_state("a", "m1", MachineState::Suspended, Some(5), Some("i1"));
    assert_eq!(
        r.query,
        pairs(&[("state", "suspended"), ("timeout", "5"), ("instance_id", "i1")])
    );
    assert_eq!(
        r.full_url(),
        "https://api.test/v1/apps/a/machines/m1/wait?state=suspended&timeout=5&instance_id=i1"
    );
}

#[test]
fn delete_forced_appends_force_exactly_once() {
    let m = manager();
    let flow = m.delete("a", "m1", true, None);
    let url = flow.action.full_url();
    assert_eq!(url, "https://api.test/v1/apps/a/machines/m1?force=true");
    assert_eq!(url.matches("?force=true").count(), 1);
    assert_eq!(flow.action.query, pairs(&[("force", "true")]));
    assert_eq!(flow.action.method, Method::Delete);
}

#[test]
fn delete_unforced_has_no_force() {
    let m = manager();
    let flow = m.delete("a", "m1", false, None);
    let url = flow.action.full_url();
    assert_eq!(url, "https://api.test/v1/apps/a/machines/m1");
    assert!(!url.contains("force"));
    assert!(flow.action.query.is_empty());
}

#[test]
fn app_delete_force_once() {
    let fly = FlyControl::with_endpoint("http://e".to_string(), "t".to_string());
    let forced = fly.apps.delete("demo", true);
    assert_eq!(forced.full_url(), "http://e/apps/demo?force=true");
    let plain = fly.apps.delete("demo", false);
    assert_eq!(plain.full_url(), "http://e/apps/demo");
}

#[test]
fn app_list_carries_org_slug() {
    let fly = FlyControl::with_endpoint("http://e".to_string(), "t".to_string());
    let r = fly.apps.list("myorg");
    assert_eq!(r.full_url(), "http://e/apps?org_slug=myorg");
    assert_eq!(r.method, Method::Get);
}

#[test]
fn machine_routes() {
    let m = manager();
    assert_eq!(m.list("a").url, "https://api.test/v1/apps/a/machines");
    let stop = m.stop("a", "m1", "i1", None);
    assert_eq!(stop.action.url, "https://api.test/v1/apps/a/machines/m1/stop");
    assert_eq!(stop.action_status, Some(200));
    let start = m.start("a", "m1", None, None);
    assert_eq!(start.action.url, "https://api.test/v1/apps/a/machines/m1/start");
    let restart = m.restart_machine("a", "m1", "i1", None);
    assert_eq!(restart.action.url, "https://api.test/v1/apps/a/machines/m1/restart");
    assert!(restart.result_from_action);
    assert_eq!(m.list_events("a", "m1").url, "https://api.test/v1/apps/a/machines/m1/events");
    assert_eq!(m.list_processes("a", "m1").url, "https://api.test/v1/apps/a/machines/m1/ps");
}

#[test]
fn exec_body_carries_command_and_optional_timeout() {
    let m = manager();
    let cmd = vec!["ls".to_string(), "-l".to_string()];
    let r = m.execute_command("a", "m1", &cmd, Some(7));
    assert_eq!(r.url, "https://api.test/v1/apps/a/machines/m1/exec");
    let body = r.body.expect("exec request has a body");
    let command = body.get(&"command".to_string()).expect("command member");
    match command {
        fly_sdk::json::Json::Arr(items) => assert_eq!(items.len(), 2),
        other => panic!("command is not an array: {:?}", other),
    }
    match body.get(&"timeout".to_string()) {
        Some(fly_sdk::json::Json::UInt(7)) => {}
        other => panic!("unexpected timeout member: {:?}", other),
    }
    let r2 = m.execute_command("a", "m1", &cmd, None);
    assert!(r2.body.expect("body").get(&"timeout".to_string()).is_none());
}

#[test]
fn volume_routes_and_summary_flag() {
    let v = VolumeManager::new("http://e".to_string(), "t".to_string());
    assert_eq!(
        v.list_volumes("a", true).full_url(),
        "http://e/apps/a/volumes?summary=true"
    );
    assert_eq!(
        v.list_volumes("a", false).full_url(),
        "http://e/apps/a/volumes?summary=false"
    );
    assert_eq!(v.get_volume("a", "v1").url, "http://e/apps/a/volumes/v1");
    assert_eq!(
        v.list_snapshots("a", "v1").url,
        "http://e/apps/a/volumes/v1/snapshots"
    );
    assert_eq!(
        v.extend_volume("a", "v1", &fly_sdk::volumes::ExtendVolumeRequest { size_gb: 5 }).url,
        "http://e/apps/a/volumes/v1/extend"
    );
}

#[test]
fn secret_routes() {
    let fly = FlyControl::with_endpoint("http://e".to_string(), "t".to_string());
    assert_eq!(fly.secrets.list_secrets("a").url, "http://e/apps/a/secrets");
    let sv = fly_sdk::secrets::SecretValue::new(vec![1, 2, 3]);
    assert_eq!(
        fly.secrets.create_secret("a", "db", "shared", &sv).url,
        "http://e/apps/a/secrets/db/type/shared"
    );
    assert_eq!(
        fly.secrets.generate_secret("a", "db", "shared").url,
        "http://e/apps/a/secrets/db/type/shared/generate"
    );
    assert_eq!(
        fly.secrets.destroy_secret("a", "db").url,
        "http://e/apps/a/secrets/db"
    );
}

#[test]
fn decimal_rendering() {
    assert_eq!(u64_text(0), "0");
    assert_eq!(u64_text(90210), "90210");
    assert_eq!(u64_text(u64::MAX), "18446744073709551615");
    assert_eq!(i64_text(-42), "-42");
    assert_eq!(i64_text(i64::MIN), "-9223372036854775808");
    assert_eq!(i64_text(7), "7");
}
