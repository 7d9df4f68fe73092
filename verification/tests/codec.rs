//! Encoding and decoding of configuration records, and the builders'
//! documented defaults.

use fly_sdk::json::Json;
use fly_sdk::machines::resources::{CpuKind, GuestConfig, RestartPolicy, RestartPolicyEnum};
use fly_sdk::machines::{Checks, MachineConfig, MachineRegions};
use fly_sdk::machines::networking::{DnsConfig, DnsForwardRule};
use fly_sdk::machines::process::{EnvVarConfig, FieldRefEnum, ProcessConfig, SecretConfig};
use fly_sdk::machines::services::{ConcurrencyConfig, MachinePort, ServiceConfig};
use fly_sdk::machines::system::{MetricsConfig, MountConfig};
use fly_sdk::volumes::{Compute, CreateVolumeRequest};

fn member<'a>(j: &'a Json, key: &str) -> Option<&'a Json> {
    j.get(&key.to_string())
}

#[test]
fn volume_builder_defaults() {
    let req = CreateVolumeRequest::builder("data", MachineRegions::Fra, 10).build();
    assert_eq!(req.fstype, "ext4");
    assert!(req.require_unique_zone);
    assert!(!req.encrypted);
    assert_eq!(req.name, "data");
    assert_eq!(req.size_gb, 10);
    let compute = req.compute.expect("stock compute sizing is attached");
    assert_eq!(compute.cpu_kind.as_deref(), Some("shared"));
    assert_eq!(compute.cpus, Some(1));
    assert_eq!(compute.memory_mb, Some(512));
    assert!(req.snapshot_id.is_none());
    assert!(req.snapshot_retention.is_none());
    assert!(req.source_volume_id.is_none());
}

#[test]
fn volume_builder_overrides() {
    let req = CreateVolumeRequest::builder("data", MachineRegions::Ams, 3)
        .encrypted(true)
        .fstype("raw".to_string())
        .require_unique_zone(false)
        .snapshot_retention(Some(14))
        .build();
    assert!(req.encrypted);
    assert_eq!(req.fstype, "raw");
    assert!(!req.require_unique_zone);
    assert_eq!(req.snapshot_retention, Some(14));
}

#[test]
fn volume_request_encodes_region_name() {
    let req = CreateVolumeRequest::builder("data", MachineRegions::Syd, 1).build();
    let j = req.to_json();
    match member(&j, "region") {
        Some(Json::Str(s)) => assert_eq!(s, "syd"),
        other => panic!("region member: {:?}", other),
    }
    match member(&j, "require_unique_zone") {
        Some(Json::Bool(true)) => {}
        other => panic!("require_unique_zone member: {:?}", other),
    }
}

#[test]
fn machine_config_builder_defaults() {
    let config = MachineConfig::builder().build();
    assert_eq!(config.image, "ubuntu:22.04");
    assert_eq!(config.auto_destroy, Some(false));
    let guest = config.guest.expect("stock guest");
    assert_eq!(guest.cpus, Some(1));
    assert_eq!(guest.memory_mb, Some(256));
    assert_eq!(guest.cpu_kind, Some(CpuKind::Shared));
    let restart = config.restart.expect("stock restart policy");
    assert_eq!(restart.policy, RestartPolicyEnum::No);
    assert!(restart.max_retries.is_none());
    assert!(config.env.is_none());
    assert!(config.services.is_none());
}

#[test]
fn machine_config_round_trips_through_json() {
    let config = MachineConfig::builder()
        .image("nginx:latest")
        .cpus(2)
        .memory(512)
        .auto_destroy(true)
        .add_env("PORT", "8080")
        .add_env("MODE", "fast")
        .build();
    let j = config.to_json();
    let back = MachineConfig::from_json(&j).expect("the encoding decodes");
    assert_eq!(back.image, "nginx:latest");
    assert_eq!(back.auto_destroy, Some(true));
    let guest = back.guest.expect("guest survives");
    assert_eq!(guest.cpus, Some(2));
    assert_eq!(guest.memory_mb, Some(512));
    assert_eq!(guest.cpu_kind, Some(CpuKind::Shared));
    let env = back.env.expect("env survives");
    assert_eq!(env, vec![
        ("PORT".to_string(), "8080".to_string()),
        ("MODE".to_string(), "fast".to_string()),
    ]);
    let restart = back.restart.expect("restart survives");
    assert_eq!(restart.policy, RestartPolicyEnum::No);
}

#[test]
fn add_env_replaces_an_earlier_binding() {
    let config = MachineConfig::builder()
        .add_env("PORT", "8080")
        .add_env("PORT", "9090")
        .build();
    let env = config.env.expect("env is set");
    assert_eq!(env, vec![("PORT".to_string(), "9090".to_string())]);
}

#[test]
fn unset_optional_fields_stay_absent_not_null() {
    let config = MachineConfig::builder().build();
    let j = config.to_json();
    assert!(member(&j, "dns").is_none());
    assert!(member(&j, "env").is_none());
    assert!(member(&j, "services").is_none());
    assert!(member(&j, "schedule").is_none());
    // Set fields are present.
    assert!(member(&j, "image").is_some());
    assert!(member(&j, "guest").is_some());
}

#[test]
fn guest_config_round_trips() {
    let guest = GuestConfig {
        cpu_kind: Some(CpuKind::Performance),
        cpus: Some(4),
        gpu_kind: None,
        gpus: None,
        memory_mb: Some(2048),
        kernel_args: Some(vec!["quiet".to_string(), "splash".to_string()]),
    };
    let back = GuestConfig::from_json(&guest.to_json()).expect("decodes");
    assert_eq!(back.cpu_kind, Some(CpuKind::Performance));
    assert_eq!(back.cpus, Some(4));
    assert_eq!(back.memory_mb, Some(2048));
    assert_eq!(back.kernel_args, Some(vec!["quiet".to_string(), "splash".to_string()]));
    assert!(back.gpu_kind.is_none());
}

#[test]
fn restart_policy_round_trips() {
    let p = RestartPolicy { max_retries: Some(3), policy: RestartPolicyEnum::OnFailure };
    let back = RestartPolicy::from_json(&p.to_json()).expect("decodes");
    assert_eq!(back, p);
}

#[test]
fn check_builder_collects_fields() {
    let check = Checks::builder()
        .grace_period(30)
        .interval(15)
        .timeout(2)
        .port(8080)
        .path("/health")
        .method("GET")
        .add_header("X-Probe", vec!["one".to_string()])
        .build();
    assert_eq!(check.grace_period.map(|t| t.duration), Some(30));
    assert_eq!(check.interval.map(|t| t.duration), Some(15));
    assert_eq!(check.timeout.map(|t| t.duration), Some(2));
    assert_eq!(check.port, Some(8080));
    assert_eq!(check.path.as_deref(), Some("/health"));
    assert_eq!(check.method.as_deref(), Some("GET"));
    let headers = check.headers.expect("header was added");
    assert_eq!(headers.len(), 1);
    assert_eq!(headers[0].name, "X-Probe");
    assert_eq!(headers[0].values, vec!["one".to_string()]);
}

#[test]
fn checks_encode_type_under_the_wire_name() {
    let check = Checks::builder().check_type(fly_sdk::machines::CheckType::Http).build();
    let j = check.to_json();
    match member(&j, "type") {
        Some(Json::Str(s)) => assert_eq!(s, "http"),
        other => panic!("type member: {:?}", other),
    }
    assert!(member(&j, "check_type").is_none());
}

#[test]
fn checks_round_trip_keeps_set_fields() {
    let check = Checks::builder().port(9000).tls_skip_verify(true).build();
    let back = Checks::from_json(&check.to_json()).expect("decodes");
    assert_eq!(back.port, Some(9000));
    assert_eq!(back.tls_skip_verify, Some(true));
    assert!(back.grace_period.is_none());
}

#[test]
fn compute_defaults() {
    let c = Compute::default();
    assert_eq!(c.cpu_kind.as_deref(), Some("shared"));
    assert_eq!(c.cpus, Some(1));
    assert_eq!(c.memory_mb, Some(512));
    assert!(c.gpu_kind.is_none());
}

#[test]
fn wrong_typed_member_fails_the_decode() {
    // "cpus" must be a number; a string body is a decode failure, not a
    // silently dropped field.
    let j = Json::Obj(vec![("cpus".to_string(), Json::Str("two".to_string()))]);
    assert!(GuestConfig::from_json(&j).is_none());
}

#[test]
fn secret_value_encodes_under_value() {
    let sv = fly_sdk::secrets::SecretValue::new(vec![-1, 0, 127]);
    let j = sv.to_json();
    match member(&j, "value") {
        Some(Json::Arr(items)) => {
            assert_eq!(items.len(), 3);
            assert!(matches!(items[0], Json::Int(-1)));
        }
        other => panic!("value member: {:?}", other),
    }
}

#[test]
fn process_config_round_trips() {
    let p = ProcessConfig {
        cmd: Some(vec!["run".to_string()]),
        entrypoint: None,
        env: Some(vec![("A".to_string(), "1".to_string())]),
        env_from: Some(vec![EnvVarConfig {
            env_var: "REGION".to_string(),
            field_ref: FieldRefEnum::Region,
        }]),
        exec_cmd: None,
        ignore_app_secrets: Some(true),
        secrets: Some(vec![SecretConfig { env_var: "KEY".to_string(), name: None }]),
        user: Some("root".to_string()),
    };
    let back = ProcessConfig::from_json(&p.to_json()).expect("decodes");
    assert_eq!(back.cmd, Some(vec!["run".to_string()]));
    assert_eq!(back.env, Some(vec![("A".to_string(), "1".to_string())]));
    let from = back.env_from.expect("env_from survives");
    assert_eq!(from[0].env_var, "REGION");
    assert_eq!(from[0].field_ref, FieldRefEnum::Region);
    assert_eq!(back.ignore_app_secrets, Some(true));
    let secrets = back.secrets.expect("secrets survive");
    assert_eq!(secrets[0].env_var, "KEY");
    assert_eq!(back.user.as_deref(), Some("root"));
}

#[test]
fn service_config_round_trips() {
    let svc = ServiceConfig {
        autostart: Some(true),
        autostop: Some("stop".to_string()),
        concurrency: Some(ConcurrencyConfig {
            hard_limit: Some(25),
            soft_limit: Some(20),
            concurrency_type: Some("connections".to_string()),
        }),
        ports: Some(vec![MachinePort {
            end_port: None,
            force_https: Some(true),
            handlers: Some(vec!["http".to_string()]),
            http_options: None,
            proxy_proto_options: None,
            start_port: Some(80),
            tls_options: None,
        }]),
        internal_port: Some(8080),
    };
    let back = ServiceConfig::from_json(&svc.to_json()).expect("decodes");
    assert_eq!(back.internal_port, Some(8080));
    let conc = back.concurrency.expect("concurrency survives");
    assert_eq!(conc.hard_limit, Some(25));
    let ports = back.ports.expect("ports survive");
    assert_eq!(ports[0].start_port, Some(80));
    assert_eq!(ports[0].handlers, Some(vec!["http".to_string()]));
}

#[test]
fn mount_and_dns_round_trip() {
    let mount = MountConfig {
        add_size_gb: None,
        encrypted: Some(true),
        extend_threshold_percent: Some(80),
        name: Some("data".to_string()),
        path: "/data".to_string(),
        size_gb: Some(10),
        size_gb_limit: None,
        volume: "vol_1".to_string(),
    };
    let back = MountConfig::from_json(&mount.to_json()).expect("decodes");
    assert_eq!(back.path, "/data");
    assert_eq!(back.volume, "vol_1");
    assert_eq!(back.size_gb, Some(10));
    let dns = DnsConfig {
        dns_forward_rules: Some(vec![DnsForwardRule {
            source: "internal".to_string(),
            destination: "10.0.0.1".to_string(),
            protocol: None,
        }]),
        hostname: Some("web".to_string()),
        hostname_fqdn: None,
        nameservers: None,
        options: None,
        searches: None,
        skip_registration: None,
    };
    let back = DnsConfig::from_json(&dns.to_json()).expect("decodes");
    let rules = back.dns_forward_rules.expect("rules survive");
    assert_eq!(rules[0].source, "internal");
    assert_eq!(back.hostname.as_deref(), Some("web"));
}

#[test]
fn missing_required_member_fails_the_decode() {
    // A metrics record needs both port and path.
    let j = Json::Obj(vec![("port".to_string(), Json::UInt(9100))]);
    assert!(MetricsConfig::from_json(&j).is_none());
    let whole = Json::Obj(vec![
        ("port".to_string(), Json::UInt(9100)),
        ("path".to_string(), Json::Str("/metrics".to_string())),
    ]);
    let m = MetricsConfig::from_json(&whole).expect("decodes");
    assert_eq!(m.port, 9100);
    assert_eq!(m.path, "/metrics");
}
