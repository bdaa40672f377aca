//! Forwards a JSON telemetry payload to the `/ingest` endpoint of a collector
//! with one blocking HTTP POST, and reports the status and body that came back.
pub mod endpoint;
pub mod push;
mod transport;

pub use push::{perform_push, PushError, PushRequest, PushResult, MAX_TIMEOUT_MS};
pub use transport::is_http_status;
