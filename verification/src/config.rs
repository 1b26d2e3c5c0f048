//! The application's configuration and its defaults.

use vstd::prelude::*;

verus! {

/// How session tokens are signed and how long they last.
#[derive(Debug, Clone)]
pub struct JwtConfig {
    /// The key that tokens are signed with.
    pub secret: String,
    /// How long a token is valid, in hours.
    pub expiration_hours: i64,
}

impl Default for JwtConfig {
    fn default() -> (config: Self)
        ensures
            config.secret@ == "zeromqtt-super-secret-key-change-in-production"@,
            config.expiration_hours == 24,
    {
        Self {
            secret: "zeromqtt-super-secret-key-change-in-production".to_string(),
            expiration_hours: 24,
        }
    }
}

/// The credentials of the built-in user.
#[derive(Debug, Clone)]
pub struct DefaultCredentials {
    pub username: String,
    pub password: String,
}

impl Default for DefaultCredentials {
    fn default() -> (credentials: Self)
        ensures
            credentials.username@ == "zeromqtt"@,
            credentials.password@ == "zeromqtt"@,
    {
        Self { username: "zeromqtt".to_string(), password: "zeromqtt".to_string() }
    }
}

/// Where the management interface listens.
#[derive(Debug, Clone)]
pub struct ServerConfig {
    pub host: String,
    pub port: u16,
}

impl Default for ServerConfig {
    fn default() -> (config: Self)
        ensures
            config.host@ == "0.0.0.0"@,
            config.port == 3000,
    {
        Self { host: "0.0.0.0".to_string(), port: 3000 }
    }
}

/// The application's configuration.
#[derive(Debug, Clone)]
pub struct AppConfig {
    pub server: ServerConfig,
    pub jwt: JwtConfig,
    pub credentials: DefaultCredentials,
}

/// Whether a configuration holds the defaults.
pub open spec fn is_default_config(config: AppConfig) -> bool {
    &&& config.server.host@ == "0.0.0.0"@
    &&& config.server.port == 3000
    &&& config.jwt.secret@ == "zeromqtt-super-secret-key-change-in-production"@
    &&& config.jwt.expiration_hours == 24
    &&& config.credentials.username@ == "zeromqtt"@
    &&& config.credentials.password@ == "zeromqtt"@
}

impl Default for AppConfig {
    fn default() -> (config: Self)
        ensures
            is_default_config(config),
    {
        Self {
            server: ServerConfig::default(),
            jwt: JwtConfig::default(),
            credentials: DefaultCredentials::default(),
        }
    }
}

impl AppConfig {
    /// The default configuration.
    pub fn new() -> (config: Self)
        ensures
            is_default_config(config),
    {
        Self::default()
    }
}

} // verus!
