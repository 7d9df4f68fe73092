//! A typed client library for the Fly.io Machines API.
//!
//! The library builds every request (URL, query parameters, JSON body) and
//! interprets every response as verified logic; an unverified shell performs
//! the actual network round trips and hands the results back as plain values.
//!
//! [`FlyControl`] is the entry point: it bundles the managers for
//! applications, machines, volumes and secrets behind one credential.

pub mod apps;
pub mod http;
pub mod json;
pub mod machines;
pub mod secrets;
pub mod text;
pub mod volumes;

use vstd::prelude::*;

verus! {

/// The stock API endpoint.
pub fn default_endpoint() -> (s: String)
    ensures
        s@ == "https://api.machines.dev/v1"@,
{
    "https://api.machines.dev/v1".to_owned()
}

/// One handle over all four managers, built from a single credential.
pub struct FlyControl {
    pub apps: apps::AppManager,
    pub machines: machines::MachineManager,
    pub volumes: volumes::VolumeManager,
    pub secrets: secrets::SecretsManager,
}

impl FlyControl {
    /// A handle against the stock endpoint.
    pub fn new(api_token: String) -> (r: Self)
        ensures
            r.apps.endpoint@ == "https://api.machines.dev/v1"@,
            r.machines.endpoint@ == "https://api.machines.dev/v1"@,
            r.volumes.endpoint@ == "https://api.machines.dev/v1"@,
            r.secrets.endpoint@ == "https://api.machines.dev/v1"@,
            r.apps.api_token@ == api_token@,
            r.machines.api_token@ == api_token@,
            r.volumes.api_token@ == api_token@,
            r.secrets.api_token@ == api_token@,
    {
        Self::with_endpoint(default_endpoint(), api_token)
    }

    /// A handle against a caller-chosen endpoint, for test doubles and
    /// environment overrides.
    pub fn with_endpoint(endpoint: String, api_token: String) -> (r: Self)
        ensures
            r.apps.endpoint@ == endpoint@,
            r.machines.endpoint@ == endpoint@,
            r.volumes.endpoint@ == endpoint@,
            r.secrets.endpoint@ == endpoint@,
            r.apps.api_token@ == api_token@,
            r.machines.api_token@ == api_token@,
            r.volumes.api_token@ == api_token@,
            r.secrets.api_token@ == api_token@,
    {
        FlyControl {
            apps: apps::AppManager::new(endpoint.clone(), api_token.clone()),
            machines: machines::MachineManager::new(endpoint.clone(), api_token.clone()),
            volumes: volumes::VolumeManager::new(endpoint.clone(), api_token.clone()),
            secrets: secrets::SecretsManager::new(endpoint, api_token),
        }
    }
}

} // verus!
