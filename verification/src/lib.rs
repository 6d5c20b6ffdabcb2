//! Control core of a delivery-robot coordinator: telemetry freshness, a route
//! queue with a single active slot, and a time-limited manual-drive lock, with
//! the dispatch and preemption rules that tie the three together.

pub mod auth;
pub mod cache;
pub mod clock;
pub mod config;
pub mod error;
pub mod ids;
pub mod json;
pub mod robot;
pub mod text;

pub use config::Config;
pub use robot::state::SharedRobotState;
