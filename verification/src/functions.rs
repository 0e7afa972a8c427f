//! Calls of the engine's server functions: what is sent, and what comes back.

pub mod budget;
pub mod execution;
pub mod flow;
pub mod lease;
pub mod quota;
pub mod scheduling;
pub mod signal;
pub mod stream;
pub mod suspension;
pub mod worker_registry;
