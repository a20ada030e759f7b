pub mod admission;
pub mod concurrency;
pub mod rate_limiter;
pub mod retry_policy;
