//! A verified core for a status-bar aggregator: per-unit scheduling with
//! timeout, backoff and click coalescing; freshness-bounded effect caches;
//! a token-bucket rate limiter per host; and the line-protocol rendering.
pub mod aggregator;
pub mod colors;
pub mod config;
pub mod display;
pub mod machine;
pub mod protocol;
pub mod render;
pub mod rotate;
pub mod strutil;
pub mod units;
