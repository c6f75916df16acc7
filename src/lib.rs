//! Translation of host telemetry records into tracing span events.
pub mod attributes;
pub mod json;
pub mod log_parser;
pub mod record;
pub mod classifier;
pub mod span;
pub mod lifecycle;
pub mod config;
