//! The configuration: the remote service's credentials, the database, the
//! sync period and the server address.

use vstd::prelude::*;

verus! {

/// Credentials and address of the remote service.
pub struct SalesforceConfig {
    pub uri: String,
    pub client_id: String,
    pub client_secret: String,
    pub username: String,
    pub password: String,
    pub sec_token: String,
    pub api_version: String,
}

/// The database connection string.
pub struct DbConfig {
    pub url: String,
}

/// The supervisor's tick period, in milliseconds.
pub struct SyncConfig {
    pub timeout: u64,
}

/// The `host:port` the control plane listens on.
pub struct ServerConfig {
    pub url: String,
}

/// The whole configuration.
pub struct Config {
    pub salesforce: SalesforceConfig,
    pub sync: SyncConfig,
    pub db: DbConfig,
    pub server: ServerConfig,
}

} // verus!
