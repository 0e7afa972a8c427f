//! Spans around calls.

use vstd::prelude::*;

use crate::layer::hooks::HookOutcome;

verus! {

/// The level of a span.
#[derive(Clone, Copy, Debug, PartialEq, Eq, Structural)]
pub enum TracingLevel {
    Trace,
    Debug,
    Info,
    Warn,
}

impl Default for TracingLevel {
    fn default() -> (r: TracingLevel)
        ensures
            r == TracingLevel::Info,
    {
        TracingLevel::Info
    }
}

/// A layer that puts a span around every call.
#[derive(Clone, Copy, Debug, PartialEq, Eq, Structural)]
pub struct TracingLayer {
    pub level: TracingLevel,
}

impl Default for TracingLayer {
    fn default() -> (r: TracingLayer)
        ensures
            r.level == TracingLevel::Info,
    {
        TracingLayer { level: TracingLevel::default() }
    }
}

impl TracingLayer {
    /// Spans at the level `INFO`.
    pub fn new() -> (r: TracingLayer)
        ensures
            r.level == TracingLevel::Info,
    {
        TracingLayer::default()
    }

    /// Spans at the level `TRACE`.
    pub fn trace() -> (r: TracingLayer)
        ensures
            r.level == TracingLevel::Trace,
    {
        TracingLayer { level: TracingLevel::Trace }
    }

    /// Spans at the level `DEBUG`.
    pub fn debug() -> (r: TracingLayer)
        ensures
            r.level == TracingLevel::Debug,
    {
        TracingLayer { level: TracingLevel::Debug }
    }

    /// Spans at the level `WARN`.
    pub fn warn() -> (r: TracingLayer)
        ensures
            r.level == TracingLevel::Warn,
    {
        TracingLayer { level: TracingLevel::Warn }
    }

    /// Spans at a level.
    pub fn at_level(level: TracingLevel) -> (r: TracingLayer)
        ensures
            r.level == level,
    {
        TracingLayer { level }
    }
}

/// What a span records of a call.
#[derive(Clone, Copy, Debug, PartialEq, Eq, Structural)]
pub struct SpanRecord {
    pub elapsed_us: u64,
    pub ok: bool,
}

/// What a span records of a call that took this many nanoseconds: whole
/// microseconds, of which the lower 64 bits are kept, and whether it succeeded.
pub fn span_record(elapsed: u128, outcome: &HookOutcome<'_>) -> (r: SpanRecord)
    ensures
        r.elapsed_us == (elapsed / 1000) % 0x1_0000_0000_0000_0000,
        r.ok == (outcome is Success),
{
    let us: u128 = (elapsed / 1000) % 0x1_0000_0000_0000_0000;
    let ok = match outcome {
        HookOutcome::Success => true,
        _ => false,
    };
    SpanRecord { elapsed_us: us as u64, ok }
}

} // verus!
