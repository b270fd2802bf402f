//! Device-authorization flow and bearer-token validation against an
//! OpenID Connect identity provider.
pub mod config;
pub mod device_auth;
pub mod errors;
pub mod jwks;
pub mod jwt;
pub mod metrics;
pub mod provider;
pub mod text;
pub mod users;
pub mod validator;

pub use config::{
    ApiConfig, AppConfig, DatabaseConfig, DatabaseConnection, LokiConfig, MetricsConfig,
    OIDCConfig,
};
pub use device_auth::{
    PollDeviceAuthInput, StartAuthInput, StartAuthOutput, TokenSet, LegacyValidateInput,
};
pub use errors::ApiError;
pub use metrics::{Method, Object};
pub use provider::OIDC;
pub use users::{NewModel, NewUser, UpdateModel, UpdateUser};
