//! Availability monitor core: per-endpoint probe classification, failure
//! counting, and notification throttling, with the configuration rules and
//! the URL validation gate that guard a monitor's startup.

pub mod config;
pub mod laws;
pub mod message;
pub mod monitor;
pub mod probe;

pub use config::Config;
pub use config::ConfigError;
pub use monitor::Decision;
pub use monitor::EndpointState;
pub use probe::ProbeResult;
