pub mod metrics;
pub mod pb;
pub mod telemetry;
