//! A verified library behind a small configuration-reporting HTTP service.
//!
//! The service loads a numeric `ccu` value and an `env` name at startup,
//! answers a health probe with a JSON payload naming the environment, and
//! publishes one integer gauge in the Prometheus text exposition format.
//! This crate holds the verified logic: configuration resolution, the two
//! request handlers, routing decisions, and the server lifecycle state
//! machine. Listening on the network and signal handling live outside it.

pub mod config;
pub mod format;
pub mod handler;
pub mod lifecycle;
pub mod metrics;
pub mod model;
pub mod prom;
pub mod router;

pub use config::parse_args;
pub use config::parse_i64;
pub use handler::health_checker_handler;
pub use handler::metrics_handler;
pub use metrics::metrics_init;
pub use model::AppState;
pub use model::Config;
pub use model::ConfigError;
pub use model::Metric;
pub use model::MetricsError;
pub use model::Reply;
pub use router::dispatch;
