//! Logic of a small demo web service and of a command-line client for a CI
//! server.
//!
//! The service answers four fixed routes from a snapshot of the process
//! environment and from the clock; the client builds one authenticated request,
//! and turns the server's reply into the lines to print and an exit code.
//! Nothing here touches the network, the environment or the clock: callers hand
//! in what they read and carry out what is returned.

pub mod cli;
pub mod client;
pub mod environment;
pub mod exposition;
pub mod info;
pub mod job_status;
pub mod json;
pub mod literal;
pub mod metrics;
pub mod reply;
pub mod service;
pub mod text;
pub mod timestamp;

pub use environment::{bind_address, get_env_with_default, Environment};
pub use info::AppInfo;
pub use metrics::MetricsInfo;
pub use service::{handle_health, handle_info, handle_metrics, handle_root, Response};
pub use timestamp::Timestamp;
