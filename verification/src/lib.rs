//! Event-selection engine and queue-topology layer for a validator's
//! event stream: per-event accept/reject decisions built from ordered,
//! short-circuiting heuristics, plus the pure mapping from event category
//! and environment to broker topology and redelivery policy.

pub mod account;
pub mod codec;
pub mod config;
pub mod error;
pub mod geyser;
mod heuristic;
pub mod instruction;
pub mod job_runner;
pub mod keys;
pub mod queue_type;
pub mod suffix;

pub use heuristic::Heuristic;
