//! Process configuration as plain values: the environment name, server
//! address and logging level, with their defaults. Reading the actual
//! process environment happens outside the library; this module holds the
//! decisions made on what was read.

use vstd::prelude::*;

verus! {

/// The deployment flavor the process runs as.
#[derive(Clone, Copy, Debug, PartialEq, Eq, Structural)]
pub enum EnvironmentType {
    Development,
    Production,
    Testing,
}

impl EnvironmentType {
    /// Maps the configured environment name to its type; any unrecognized
    /// name means development.
    pub fn from_name(name: &str) -> (t: EnvironmentType)
        ensures
            name@ == "production"@ ==> t == EnvironmentType::Production,
            name@ == "testing"@ ==> t == EnvironmentType::Testing,
            name@ != "production"@ && name@ != "testing"@ ==> t == EnvironmentType::Development,
    {
        proof {
            reveal_strlit("production");
            reveal_strlit("testing");
            assert("production"@.len() == 10);
            assert("testing"@.len() == 7);
        }
        let owned = name.to_owned();
        if owned == "production".to_owned() {
            EnvironmentType::Production
        } else if owned == "testing".to_owned() {
            EnvironmentType::Testing
        } else {
            EnvironmentType::Development
        }
    }
}

/// The process-wide configuration, built once at startup from the values
/// the process environment supplied.
#[derive(Debug)]
pub struct Environment {
    pub database_url: String,
    pub server_host: String,
    pub server_port: u16,
    pub rust_log: String,
    pub environment: EnvironmentType,
}

impl Environment {
    /// Combines the supplied settings with the documented defaults: host
    /// `127.0.0.1`, port `8080`, log level `debug`. The database URL has
    /// no default; a process without one cannot start.
    pub fn build(
        database_url: String,
        server_host: Option<String>,
        server_port: Option<u16>,
        rust_log: Option<String>,
        environment: EnvironmentType,
    ) -> (e: Environment)
        ensures
            e.database_url == database_url,
            server_host matches Some(h) ==> e.server_host == h,
            server_host is None ==> e.server_host@ == "127.0.0.1"@,
            server_port matches Some(p) ==> e.server_port == p,
            server_port is None ==> e.server_port == 8080,
            rust_log matches Some(l) ==> e.rust_log == l,
            rust_log is None ==> e.rust_log@ == "debug"@,
            e.environment == environment,
    {
        Environment {
            database_url,
            server_host: match server_host {
                Some(h) => h,
                None => "127.0.0.1".to_owned(),
            },
            server_port: match server_port {
                Some(p) => p,
                None => 8080,
            },
            rust_log: match rust_log {
                Some(l) => l,
                None => "debug".to_owned(),
            },
            environment,
        }
    }

    pub fn is_production(&self) -> (r: bool)
        ensures
            r == (self.environment is Production),
    {
        matches!(self.environment, EnvironmentType::Production)
    }
}

} // verus!
