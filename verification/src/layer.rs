//! Layers: what stands between a client and its backend.

pub mod circuit_breaker;
pub mod hooks;
pub mod metrics;
pub mod ratelimit;
pub mod tracing_layer;
