//! Client-side logic of the FlowFabric execution engine.
//!
//! The engine keeps its state in Valkey and changes it through server functions. This
//! library is what a client needs round them: what each call sends ([`functions`],
//! [`keys`], [`suspend`], [`cursor`]), what each reply means ([`result`], [`reply`],
//! [`stream`], [`stream_tail`]), which error it stands for ([`error`],
//! [`engine_error`], [`sdk_error`]), and the decisions between calls: how the function
//! library is loaded ([`loader`]), how a worker connects and polls ([`preamble`],
//! [`worker`], [`claim`]), what its tasks and its handlers do ([`task`], [`runtime`]),
//! and what stands between it and its backend ([`layer`]).
//!
//! Nothing here talks to a server. Whoever does asks the library what to send, and
//! hands it what came back.

pub mod admin;
pub mod assoc;
pub mod claim;
pub mod collect;
pub mod config;
pub mod cursor;
pub mod engine_error;
pub mod engine_text;
pub mod error;
pub mod error_laws;
pub mod field_map;
pub mod fields;
pub mod functions;
pub mod grants;
pub mod hash;
pub mod ids;
pub mod json;
pub mod keys;
pub mod laws;
pub mod layer;
pub mod library;
pub mod loader;
pub mod names;
pub mod numbers;
pub mod partition;
pub mod preamble;
pub mod reply;
pub mod result;
pub mod retry;
pub mod runtime;
pub mod sdk_error;
pub mod shown;
pub mod signal_bridge;
pub mod slots;
pub mod snapshot;
pub mod stream;
pub mod stream_tail;
pub mod suspend;
pub mod task;
pub mod text;
pub mod text_set;
pub mod value;
pub mod wire;
pub mod worker;
