//! Telemetry ingestion pipeline: attribute normalization, timestamp
//! reconstruction, metric and event classification, per-session aggregation,
//! and batched persistence planning for a coding-assistant monitoring service.

pub mod attrmap;
pub mod classify;
pub mod config;
pub mod enhanced;
pub mod flatten;
pub mod ingest;
pub mod persist;
pub mod rawvalue;
pub mod session;
pub mod strutil;
pub mod time;
pub mod value;
