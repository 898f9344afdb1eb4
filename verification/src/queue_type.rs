//! Broker object descriptors: exchange, queue, binding, capacity bound and
//! redelivery policy, derived purely from an event category and environment.

use vstd::prelude::*;

verus! {

/// How a queue is bound to its exchange.
#[derive(Debug, Clone)]
pub enum Binding {
    /// Broadcast to all consumer replicas.
    Fanout,
    /// Selective binding under a routing key.
    Direct(String),
}

/// Redelivery policy for a queue: exhausting the attempts is a permanent
/// delivery failure handled outside this system.
#[derive(Debug, Clone, Copy, PartialEq, Eq, Structural)]
pub struct RetryProps {
    /// Fixed maximum number of delivery attempts.
    pub max_tries: u64,
    /// Initial delay hint between attempts, in milliseconds.
    pub delay_hint_ms: u64,
    /// Exponential-backoff ceiling, in milliseconds.
    pub max_delay_ms: u64,
}

/// Everything the host needs to declare a queue and its exchange.
#[derive(Debug, Clone)]
pub struct QueueProps {
    /// The exchange to publish to.
    pub exchange: String,
    /// The queue bound to the exchange.
    pub queue: String,
    /// How the queue is bound.
    pub binding: Binding,
    /// The consumer prefetch count.
    pub prefetch: u16,
    /// Maximum retained bytes; once exceeded, the broker evicts the oldest
    /// messages rather than blocking.
    pub max_len_bytes: u64,
    /// True only for ephemeral debug queues.
    pub auto_delete: bool,
    /// The redelivery policy, if any.
    pub retry: Option<RetryProps>,
}

} // verus!
