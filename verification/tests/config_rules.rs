use claude_scope::config::{Config, ConfigError};

fn base() -> Config {
    Config::default()
}

fn invalid_message(r: Result<(), ConfigError>) -> String {
    match r {
        Err(ConfigError::InvalidValue(m)) => m,
        other => panic!("expected an invalid-value failure, got {:?}", other),
    }
}

#[test]
fn default_config_is_valid() {
    let c = base();
    assert_eq!(c.http_port, 3000);
    assert_eq!(c.otel_port, 4317);
    assert_eq!(c.database_path, "./claude_scope.db");
    assert_eq!(c.log_level, "info");
    assert_eq!(c.max_connections, 100);
    assert_eq!(
        c.cors_origins,
        vec!["http://localhost:3000".to_string(), "http://127.0.0.1:3000".to_string()]
    );
    assert!(c.validate().is_ok());
}

#[test]
fn zero_http_port_is_rejected() {
    let mut c = base();
    c.http_port = 0;
    assert_eq!(invalid_message(c.validate()), "HTTP port cannot be 0");
}

#[test]
fn zero_otel_port_is_rejected() {
    let mut c = base();
    c.otel_port = 0;
    assert_eq!(invalid_message(c.validate()), "OpenTelemetry port cannot be 0");
}

#[test]
fn equal_ports_are_rejected() {
    let mut c = base();
    c.otel_port = c.http_port;
    assert_eq!(
        invalid_message(c.validate()),
        "HTTP and OpenTelemetry ports must be different"
    );
}

#[test]
fn empty_database_path_is_rejected() {
    let mut c = base();
    c.database_path = String::new();
    assert_eq!(invalid_message(c.validate()), "Database path cannot be empty");
}

#[test]
fn zero_max_connections_is_rejected() {
    let mut c = base();
    c.max_connections = 0;
    assert_eq!(invalid_message(c.validate()), "Max connections cannot be 0");
}

#[test]
fn log_levels_are_checked_case_insensitively() {
    for level in ["trace", "debug", "info", "warn", "error", "INFO", "Warn", "ERROR"] {
        let mut c = base();
        c.log_level = level.to_string();
        assert!(c.validate().is_ok(), "level {} should be accepted", level);
    }
    let mut c = base();
    c.log_level = "verbose".to_string();
    assert_eq!(invalid_message(c.validate()), "Invalid log level: verbose");
}
