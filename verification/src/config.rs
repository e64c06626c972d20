//! Process configuration consumed by the core: a database connection
//! string and a listen port. Both are required; assembling a configuration
//! fails fast when either is absent. Reading the environment itself is the
//! caller's concern — the values arrive here as plain optional strings.

use vstd::prelude::*;

verus! {

/// Why a configuration could not be assembled: the environment variable
/// that was missing.
#[derive(Clone, Copy, Debug, PartialEq, Eq, Structural)]
pub enum ConfigError {
    MissingServerPort,
    MissingDatabaseUrl,
}

/// The two settings the core needs at startup.
#[derive(Debug, Clone, PartialEq, Eq)]
pub struct Config {
    pub server_port: String,
    pub database_url: String,
}

impl Config {
    /// Assembles the configuration from the environment's values, the
    /// listen port first: the first absent value decides the error.
    pub fn from_env(server_port: Option<String>, database_url: Option<String>) -> (r: Result<
        Config,
        ConfigError,
    >)
        ensures
            match r {
                Ok(c) => {
                    &&& server_port matches Some(p) && c.server_port == p
                    &&& database_url matches Some(d) && c.database_url == d
                },
                Err(e) => {
                    &&& (e == ConfigError::MissingServerPort <==> server_port is None)
                    &&& (e == ConfigError::MissingDatabaseUrl <==> (server_port is Some
                        && database_url is None))
                },
            },
    {
        let server_port = match server_port {
            Some(p) => p,
            None => {
                return Err(ConfigError::MissingServerPort);
            },
        };
        let database_url = match database_url {
            Some(d) => d,
            None => {
                return Err(ConfigError::MissingDatabaseUrl);
            },
        };
        Ok(Config { server_port, database_url })
    }
}

} // verus!
