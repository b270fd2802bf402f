//! Service configuration, read from a settings file by the program that
//! hosts the library.
use vstd::prelude::*;

verus! {

/// Top-level settings.
pub struct AppConfig {
    pub rust_log: String,
    pub api: ApiConfig,
    pub loki: Option<LokiConfig>,
    pub metrics: Option<MetricsConfig>,
    pub oidc: OIDCConfig,
}

/// Where the HTTP server listens.
pub struct ApiConfig {
    pub url: String,
    pub port: u16,
}

/// Where logs are shipped, when they are.
pub struct LokiConfig {
    pub url: String,
    pub service_name: String,
}

/// Where the metrics server listens.
pub struct MetricsConfig {
    pub url: String,
    pub port: u16,
}

/// The identity provider: its discovery document and this service's client id.
pub struct OIDCConfig {
    pub discovery_url: String,
    pub client_id: String,
}

/// Database credentials and location.
pub struct DatabaseConfig {
    pub url: String,
    pub port: u16,
    pub username: String,
    pub password: String,
}

/// The database to connect to.
pub enum DatabaseConnection {
    Postgres(DatabaseConfig),
}

} // verus!
