//! A verified model of an outbound-request governor for a trading REST API
//! client: a bounded admission queue, a rolling-window rate limiter, a
//! concurrency limiter and a retry coordinator, together with the request
//! envelopes, endpoint paths and response classification that the client
//! builds on.

pub mod account;
pub mod client;
pub mod error;
pub mod errors;
pub mod governor;
pub mod instrument;
pub mod json;
pub mod policies;
pub mod utils;

