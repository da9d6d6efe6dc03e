//! Settings of the service that are plain values: the database, token
//! signing, object storage and health monitoring.

use vstd::prelude::*;

verus! {

/// How to reach the database.
#[derive(Debug, Clone)]
pub struct DatabaseConfig {
    pub url: String,
    pub max_connections: u32,
}

/// How access tokens are signed and how long they last.
#[derive(Debug, Clone)]
pub struct AuthConfig {
    pub paseto_secret: String,
    pub token_expiry_hours: u64,
}

/// Where files are stored.
#[derive(Debug, Clone)]
pub struct StorageConfig {
    pub bucket: String,
    pub endpoint: Option<String>,
}

/// Where the service reports its health.
#[derive(Debug, Clone)]
pub struct MonitoringConfig {
    pub healthcheck_url: Option<String>,
}

} // verus!
