//! Reports of calls to a sink that the client chooses.

use vstd::prelude::*;

use crate::engine_error::EngineError;
use crate::layer::hooks::{Admit, HookOutcome, LayerHooks};

verus! {

/// What came of a call, as a sink is told.
#[derive(Clone, Copy, Debug, PartialEq, Eq)]
pub enum Outcome {
    Success,
    /// The call failed. The word is the category of the error.
    Failure(&'static str),
}

/// Where reports of calls go.
pub trait MetricsSink: Sized {
    /// The sink after a report.
    spec fn recorded(self, method: &'static str, elapsed: u128, outcome: Outcome) -> Self;

    /// Take a report. The time is in nanoseconds.
    fn record_call(&mut self, method: &'static str, elapsed: u128, outcome: Outcome)
        ensures
            *final(self) == old(self).recorded(method, elapsed, outcome),
    ;
}

/// A sink that drops its reports.
#[derive(Clone, Copy, Debug, PartialEq, Eq, Structural)]
pub struct NoopSink;

impl MetricsSink for NoopSink {
    open spec fn recorded(
        self,
        method: &'static str,
        elapsed: u128,
        outcome: Outcome,
    ) -> NoopSink {
        self
    }

    fn record_call(&mut self, method: &'static str, elapsed: u128, outcome: Outcome) {
    }
}

/// A layer that reports to a sink.
pub struct MetricsLayer<S: MetricsSink = NoopSink> {
    pub sink: S,
}

impl<S: MetricsSink> MetricsLayer<S> {
    /// A layer that reports to this sink.
    pub fn new(sink: S) -> (r: MetricsLayer<S>)
        ensures
            r.sink == sink,
    {
        MetricsLayer { sink }
    }
}

impl MetricsLayer<NoopSink> {
    /// A layer that reports to no one.
    pub fn noop() -> (r: MetricsLayer<NoopSink>)
        ensures
            r.sink == NoopSink,
    {
        MetricsLayer { sink: NoopSink }
    }
}

impl Default for MetricsLayer<NoopSink> {
    fn default() -> (r: MetricsLayer<NoopSink>)
        ensures
            r.sink == NoopSink,
    {
        MetricsLayer::noop()
    }
}

/// The category of an error: that of the error under its labels.
pub open spec fn category_spec<S>(err: EngineError<S>) -> &'static str {
    match err.innermost() {
        EngineError::NotFound { .. } => "not_found",
        EngineError::Validation { .. } => "validation",
        EngineError::Contention(_) => "contention",
        EngineError::Conflict(_) => "conflict",
        EngineError::State(_) => "state",
        EngineError::Bug(_) => "bug",
        EngineError::Transport { .. } => "transport",
        EngineError::Unavailable { .. } => "unavailable",
        _ => "unknown",
    }
}

/// The category of an error.
pub fn engine_error_category(err: &EngineError) -> (r: &'static str)
    ensures
        r == category_spec(*err),
    decreases err,
{
    match err {
        EngineError::NotFound { .. } => "not_found",
        EngineError::Validation { .. } => "validation",
        EngineError::Contention(_) => "contention",
        EngineError::Conflict(_) => "conflict",
        EngineError::State(_) => "state",
        EngineError::Bug(_) => "bug",
        EngineError::Transport { .. } => "transport",
        EngineError::Unavailable { .. } => "unavailable",
        EngineError::Contextual { source, .. } => engine_error_category(source),
        _ => "unknown",
    }
}

/// What a sink is told of a call.
pub open spec fn reported_spec(outcome: HookOutcome<'_>) -> Outcome {
    match outcome {
        HookOutcome::Success => Outcome::Success,
        HookOutcome::Failure(e) => Outcome::Failure(category_spec(*e)),
        HookOutcome::Rejected(e) => Outcome::Failure(category_spec(*e)),
    }
}

/// What a sink is told of a call.
pub fn reported(outcome: &HookOutcome<'_>) -> (r: Outcome)
    ensures
        r == reported_spec(*outcome),
{
    match outcome {
        HookOutcome::Success => Outcome::Success,
        HookOutcome::Failure(e) => Outcome::Failure(engine_error_category(e)),
        HookOutcome::Rejected(e) => Outcome::Failure(engine_error_category(e)),
    }
}

impl<S: MetricsSink> LayerHooks for MetricsLayer<S> {
    open spec fn asked(self, method: &'static str, now: u128) -> MetricsLayer<S> {
        self
    }

    open spec fn told(
        self,
        method: &'static str,
        elapsed: u128,
        now: u128,
        outcome: HookOutcome<'_>,
    ) -> MetricsLayer<S> {
        MetricsLayer { sink: self.sink.recorded(method, elapsed, reported_spec(outcome)) }
    }

    fn before(&mut self, method: &'static str, now: u128) -> (r: Admit)
        ensures
            r is Proceed,
    {
        Admit::Proceed
    }

    fn after(&mut self, method: &'static str, elapsed: u128, now: u128, outcome: HookOutcome<'_>) {
        self.sink.record_call(method, elapsed, reported(&outcome));
    }
}

/// The layer after calls, one after the other.
pub open spec fn after_calls<'a, S: MetricsSink>(
    layer: MetricsLayer<S>,
    calls: Seq<(&'static str, u128, u128, HookOutcome<'a>)>,
) -> MetricsLayer<S>
    decreases calls.len(),
{
    if calls.len() == 0 {
        layer
    } else {
        let c = calls.last();
        after_calls(layer, calls.drop_last()).told(c.0, c.1, c.2, c.3)
    }
}

/// The sink after reports, one after the other.
pub open spec fn after_reports<S: MetricsSink>(
    sink: S,
    reports: Seq<(&'static str, u128, Outcome)>,
) -> S
    decreases reports.len(),
{
    if reports.len() == 0 {
        sink
    } else {
        let p = reports.last();
        after_reports(sink, reports.drop_last()).recorded(p.0, p.1, p.2)
    }
}

/// The sink is told once of each call, in order, with its method, its time and what
/// came of it, and of nothing else.
pub proof fn law_each_call_is_reported_once<'a, S: MetricsSink>(
    layer: MetricsLayer<S>,
    calls: Seq<(&'static str, u128, u128, HookOutcome<'a>)>,
)
    ensures
        after_calls(layer, calls).sink == after_reports(
            layer.sink,
            calls.map_values(
                |c: (&'static str, u128, u128, HookOutcome<'a>)| (c.0, c.1, reported_spec(c.3)),
            ),
        ),
    decreases calls.len(),
{
    if calls.len() > 0 {
        let report = |c: (&'static str, u128, u128, HookOutcome<'a>)| (c.0, c.1, reported_spec(c.3));
        law_each_call_is_reported_once(layer, calls.drop_last());
        assert(calls.map_values(report).drop_last() =~= calls.drop_last().map_values(report));
    }
}

} // verus!
