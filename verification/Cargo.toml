[package]
name = "claude_scope"
version = "0.1.0"
edition = "2021"
publish = false

[dependencies]
chrono = "*"
uuid = { version = "*", features = ["v4"] }
tokio = { version = "*", features = ["macros", "rt-multi-thread", "signal", "net", "fs"] }
tonic = "*"
opentelemetry-proto = { version = "*", features = ["gen-tonic", "metrics", "logs"] }
axum = "*"
sqlx = { version = "*", default-features = false, features = ["sqlite", "runtime-tokio", "chrono", "uuid"] }
serde = { version = "*", features = ["derive"] }
serde_json = "*"
toml = "*"
thiserror = "*"
async-trait = "*"
tracing = "*"
tracing-subscriber = { version = "*", features = ["env-filter"] }
clap = { version = "*", features = ["derive"] }
tower = "*"
tower-http = { version = "*", features = ["cors", "trace", "fs"] }
