//! What calls and replies are for: laws that relate what a caller asks to what is sent,
//! and what a server writes to what is read.

pub mod written;
pub mod budget_calls;
pub mod execution_calls;
pub mod flow_calls;
pub mod lease_calls;
pub mod quota_calls;
pub mod scheduling_calls;
pub mod signal_calls;
pub mod stream_calls;
pub mod suspension_calls;
pub mod worker_registry_calls;
pub mod budget_replies;
pub mod execution_replies;
pub mod flow_replies;
pub mod lease_replies;
pub mod quota_replies;
pub mod scheduling_replies;
pub mod signal_replies;
pub mod stream_replies;
pub mod suspension_replies;
pub mod worker_registry_replies;
pub mod usage;
pub mod paths;
pub mod task_replies;
pub mod errors;
pub mod streams;
pub mod workers;
pub mod tasks;
pub mod clients;
pub mod loading;
pub mod running;
pub mod effects;
pub mod edges;
pub mod basics;
pub mod strictness;
pub mod texts;
pub mod agreement;
pub mod words;
pub mod values;
pub mod messages;
pub mod refusals;
pub mod defaults;
