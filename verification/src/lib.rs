//! Firmware logic for a networked environmental-monitoring appliance.
//!
//! The crate holds the device's decision logic: a fixed-capacity append-only
//! registry of metric cells, gauge/counter families with Prometheus and JSON
//! renderers, the per-sensor supervisor state machine with exponential
//! backoff, the sensor adapters' bookkeeping, the WiFi coordinator state
//! machine, the HTTP form parsing and response selection, and the particulate
//! packet decoder. Hardware access, async plumbing and HTTP transport live
//! outside the library and feed it plain values.

pub mod actor;
pub mod bme680;
pub mod http;
pub mod metric;
pub mod metrics;
pub mod pmsa003i;
pub mod registry;
pub mod retry;
pub mod scd30;
pub mod sensor;
pub mod sgp30;
pub mod units;
pub mod wifi;
pub mod ws2812;
