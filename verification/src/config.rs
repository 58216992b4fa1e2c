//! Service configuration and its validation rules. Loading and saving the
//! configuration are I/O concerns that live outside; the rules on the
//! values themselves are here.

use vstd::prelude::*;

use crate::strutil::str_eq;

verus! {

/// The failures of configuration handling.
#[derive(Debug, Clone, PartialEq)]
pub enum ConfigError {
    FileRead(String),
    FileWrite(String),
    Parse(String),
    Serialize(String),
    InvalidValue(String),
}

/// The service configuration.
#[derive(Debug, Clone)]
pub struct Config {
    pub http_port: u16,
    pub otel_port: u16,
    pub database_path: String,
    pub cors_origins: Vec<String>,
    pub log_level: String,
    pub max_connections: u32,
}

/// What lowercasing text yields; validation compares the lowercased log
/// level against the accepted level names.
pub uninterp spec fn lower_of(s: Seq<char>) -> Seq<char>;

/// Relies on str::to_lowercase: the Unicode lowercase mapping, a function
/// of the characters alone; the empty string stays empty.
#[verifier::external_body]
fn to_lowercase_str(s: &str) -> (r: String)
    ensures
        r@ == lower_of(s@),
        s@.len() == 0 ==> r@.len() == 0,
{
    s.to_lowercase()
}

/// The accepted log level names.
pub open spec fn spec_level_ok(level: Seq<char>) -> bool {
    level == "trace"@ || level == "debug"@ || level == "info"@ || level == "warn"@ || level
        == "error"@
}

/// The first validation failure of a configuration, if any, with its
/// message; checks run in a fixed order and the first failing one names
/// the error.
pub open spec fn spec_validate_err(c: Config) -> Option<Seq<char>> {
    if c.http_port == 0 {
        Some("HTTP port cannot be 0"@)
    } else if c.otel_port == 0 {
        Some("OpenTelemetry port cannot be 0"@)
    } else if c.http_port == c.otel_port {
        Some("HTTP and OpenTelemetry ports must be different"@)
    } else if c.database_path@.len() == 0 {
        Some("Database path cannot be empty"@)
    } else if c.max_connections == 0 {
        Some("Max connections cannot be 0"@)
    } else if !spec_level_ok(lower_of(c.log_level@)) {
        Some("Invalid log level: "@ + c.log_level@)
    } else {
        None
    }
}

impl Config {
    /// Checks the configuration values: ports must be non-zero and
    /// distinct, the database path non-empty, the connection limit
    /// positive, and the log level one of the accepted names after
    /// lowercasing. Returns the first failure in check order.
    pub fn validate(&self) -> (r: Result<(), ConfigError>)
        ensures
            match r {
                Ok(_) => spec_validate_err(*self) is None,
                Err(e) => e matches ConfigError::InvalidValue(m) && spec_validate_err(*self)
                    == Some(m@),
            },
    {
        if self.http_port == 0 {
            return Err(ConfigError::InvalidValue(String::from_str("HTTP port cannot be 0")));
        }
        if self.otel_port == 0 {
            return Err(
                ConfigError::InvalidValue(String::from_str("OpenTelemetry port cannot be 0")),
            );
        }
        if self.http_port == self.otel_port {
            return Err(
                ConfigError::InvalidValue(
                    String::from_str("HTTP and OpenTelemetry ports must be different"),
                ),
            );
        }
        if self.database_path.as_str().unicode_len() == 0 {
            return Err(ConfigError::InvalidValue(String::from_str("Database path cannot be empty")));
        }
        if self.max_connections == 0 {
            return Err(ConfigError::InvalidValue(String::from_str("Max connections cannot be 0")));
        }
        let lower = to_lowercase_str(self.log_level.as_str());
        let level_ok = str_eq(lower.as_str(), "trace") || str_eq(lower.as_str(), "debug") || str_eq(
            lower.as_str(),
            "info",
        ) || str_eq(lower.as_str(), "warn") || str_eq(lower.as_str(), "error");
        if level_ok {
            Ok(())
        } else {
            let msg = String::from_str("Invalid log level: ").concat(self.log_level.as_str());
            proof {
                assert(msg@ =~= "Invalid log level: "@ + self.log_level@);
            }
            Err(ConfigError::InvalidValue(msg))
        }
    }
}

impl Default for Config {
    /// The built-in defaults: HTTP on port 3000, telemetry intake on 4317,
    /// a local database file, the two local development origins, `info`
    /// logging and one hundred connections.
    fn default() -> (r: Config)
        ensures
            r.http_port == 3000,
            r.otel_port == 4317,
            r.database_path@ == "./claude_scope.db"@,
            r.cors_origins@.len() == 2,
            r.cors_origins@[0]@ == "http://localhost:3000"@,
            r.cors_origins@[1]@ == "http://127.0.0.1:3000"@,
            r.log_level@ == "info"@,
            r.max_connections == 100,
    {
        let mut cors_origins: Vec<String> = Vec::new();
        cors_origins.push(String::from_str("http://localhost:3000"));
        cors_origins.push(String::from_str("http://127.0.0.1:3000"));
        Config {
            http_port: 3000,
            otel_port: 4317,
            database_path: String::from_str("./claude_scope.db"),
            cors_origins,
            log_level: String::from_str("info"),
            max_connections: 100,
        }
    }
}

} // verus!
