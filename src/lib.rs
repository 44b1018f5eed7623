//! The client side of an RPC transport over a multiplexed stream protocol:
//! the error taxonomy, the reconnect state machine, the policy layers
//! (origin, user agent, timeout, concurrency and rate limits), the channel
//! that composes them, and the quota-failure error detail.

pub mod connection;
pub mod error;
pub mod layers;
pub mod limit;
pub mod quota_failure;
pub mod reconnect;
