//! The OpenTelemetry (OTLP/HTTP JSON) ingestion endpoints: what they read
//! from a request and how they answer.

pub mod numbers;
pub mod types;
pub mod tags;
pub mod conversion;
pub mod records;
pub mod http;
pub mod laws;
