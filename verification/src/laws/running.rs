//! Running: what becomes of a task, and what stands between a worker and its backend.

use vstd::prelude::*;
use vstd::string::*;

use crate::engine_error::EngineError;
use crate::layer::circuit_breaker::{synthetic_open_error, CircuitBreakerHooks, CircuitBreakerLayer};
use crate::layer::hooks::{Admit, HookOutcome};
use crate::layer::metrics::{engine_error_category, reported, Outcome};
use crate::layer::ratelimit::{verdict, Bucket, RateLimitLayer};
use crate::layer::tracing_layer::{span_record, SpanRecord, TracingLayer, TracingLevel};
use crate::runtime::{
    after_poll, HandlerEnd, HandlerOutcome, PanicPayload, RunStep, RuntimeError, WorkerRuntime,
};
use crate::sdk_error::SdkError;
use crate::text;

verus! {

// ── Handlers ──

/// A task whose handler returned is completed, with what it returned. One whose handler
/// failed or panicked is failed, under a category of its own, and with the words.
pub proof fn law_task_ends_as_its_handler(end: HandlerEnd, r: HandlerOutcome)
    requires
        call_ensures(HandlerOutcome::of_end, (end,), r),
    ensures
        end matches HandlerEnd::Returned(None) ==> r matches HandlerOutcome::Complete(None),
        end matches HandlerEnd::Returned(Some(b)) ==> (r matches HandlerOutcome::Complete(Some(x))
            && x@ == b@),
        end matches HandlerEnd::Failed(chain) ==> (r matches HandlerOutcome::Fail {
            reason,
            category,
        } && category@ == "handler_error"@ && reason@ == text::joined(text::texts(chain@), ": "@)),
        end matches HandlerEnd::Panicked(PanicPayload::Text(s)) ==> (r matches HandlerOutcome::Fail {
            reason,
            category,
        } && category@ == "handler_panic"@ && reason@ == "handler panicked: "@ + s@),
        end matches HandlerEnd::Panicked(PanicPayload::Opaque) ==> (
        r matches HandlerOutcome::Fail { reason, category } && category@ == "handler_panic"@
            && reason@ == "handler panicked: "@ + "<non-string panic payload>"@),
{
}

/// A fault of the loop fails the task under the category of the fault.
pub proof fn law_faults_have_categories(e: &RuntimeError, c: &'static str, r: HandlerOutcome)
    requires
        call_ensures(RuntimeError::<String>::error_category, (e,), c),
        call_ensures(HandlerOutcome::runtime_error, (e,), r),
    ensures
        *e is MissingState ==> c == "extractor_missing_state",
        *e is PayloadDecode ==> c == "extractor_payload_decode",
        *e is NoHandler ==> c == "runtime_no_handler",
        r matches HandlerOutcome::Fail { reason, category } && category@ == c@,
{
}

/// A task goes to the handler of its kind, the last one that was registered; a kind without
/// any is a fault that names it.
pub proof fn law_handler_of_its_kind<H>(
    w: WorkerRuntime<H>,
    kind: &str,
    other: &str,
    h: H,
    v: WorkerRuntime<H>,
    r: Result<&H, RuntimeError>,
    s: Result<&H, RuntimeError>,
    before: Result<&H, RuntimeError>,
)
    requires
        call_ensures(WorkerRuntime::<H>::on, (w, kind, h), v),
        call_ensures(WorkerRuntime::<H>::handler_for, (&v, kind), r),
        call_ensures(WorkerRuntime::<H>::handler_for, (&v, other), s),
        call_ensures(WorkerRuntime::<H>::handler_for, (&w, other), before),
        other@ != kind@,
    ensures
        r matches Ok(x) && *x == h,
        s is Ok <==> before is Ok,
        s matches Ok(x) ==> *x == *before->Ok_0,
        s matches Err(e) ==> (e matches RuntimeError::NoHandler { kind: k } && k@ == other@),
{
}

/// The loop runs what it claimed, pauses where there was nothing, and stops on an error.
pub proof fn law_loop_goes_on(found: Result<bool, SdkError>, r: RunStep)
    requires
        call_ensures(after_poll, (found,), r),
    ensures
        r is Dispatch <==> (found matches Ok(b) && b),
        r is Sleep <==> (found matches Ok(b) && !b),
        found matches Err(e) ==> (r matches RunStep::Stop(x) && x@ == e@),
{
}

// ── Layers ──

/// A call that the breaker turns away fails on the way, as far as its caller can tell, so
/// that it is tried again like any other; the layer is named as the one that failed.
pub proof fn law_turned_away_is_transport(r: EngineError)
    requires
        call_ensures(synthetic_open_error, (), r),
    ensures
        r matches EngineError::Transport { backend, source } && backend == "ff-sdk-layer",
        r.is_transport_spec(),
{
}

/// A breaker starts closed, with no fault counted.
pub proof fn law_breaker_starts_closed(l: &CircuitBreakerLayer, r: CircuitBreakerHooks)
    requires
        call_ensures(CircuitBreakerLayer::hooks, (l,), r),
    ensures
        r.config == l.config,
        r.state matches crate::layer::circuit_breaker::BreakerState::Closed { consecutive_failures }
            && consecutive_failures == 0,
{
}

/// The category of an error is that of its variant, whatever labels are round it.
pub proof fn law_categories(e: &EngineError, r: &'static str)
    requires
        call_ensures(engine_error_category, (e,), r),
    ensures
        *e is NotFound ==> r == "not_found",
        *e is Validation ==> r == "validation",
        *e is Contention ==> r == "contention",
        *e is Conflict ==> r == "conflict",
        *e is State ==> r == "state",
        *e is Bug ==> r == "bug",
        *e is Transport ==> r == "transport",
        *e is Unavailable ==> r == "unavailable",
        (*e is ResourceExhausted || *e is Timeout || *e is StreamDisconnected
            || *e is StreamBackpressure) ==> r == "unknown",
{
}

/// A label does not change the category.
pub proof fn law_labels_keep_the_category(
    e: EngineError,
    context: String,
    r: &'static str,
    s: &'static str,
)
    requires
        call_ensures(engine_error_category, (&e,), r),
        call_ensures(
            engine_error_category,
            (&EngineError::Contextual { source: Box::new(e), context },),
            s,
        ),
    ensures
        r == s,
{
}

/// A sink is told of a success, or of the category of the error, also where the layer itself
/// turned the call away.
pub proof fn law_outcome_is_reported(o: &HookOutcome<'_>, r: Outcome)
    requires
        call_ensures(reported, (o,), r),
    ensures
        *o is Success <==> r is Success,
        *o matches HookOutcome::Failure(e) ==> (r matches Outcome::Failure(c) && (*e is Transport
            ==> c == "transport")),
        *o matches HookOutcome::Rejected(e) ==> (r matches Outcome::Failure(c) && (*e is Validation
            ==> c == "validation")),
{
}

/// A span records whole microseconds, and whether the call succeeded.
pub proof fn law_span_records(elapsed: u128, o: &HookOutcome<'_>, r: SpanRecord)
    requires
        call_ensures(span_record, (elapsed, o), r),
        elapsed < 0x1_0000_0000_0000_0000 * 1000,
    ensures
        1000 * r.elapsed_us <= elapsed < 1000 * (r.elapsed_us + 1),
        r.ok <==> *o is Success,
{
}

/// A call goes through unless its bucket is empty. One without a bucket always does.
pub proof fn law_empty_bucket_turns_away(method: &str, key: &str, permitted: Option<bool>, r: Admit)
    requires
        call_ensures(verdict, (method, key, permitted), r),
    ensures
        r is Reject <==> permitted == Some(false),
        r matches Admit::Reject(e) ==> *e is Validation,
{
}

/// A bucket holds at least one permit a second. A key draws from its own bucket, and where
/// it has none from the one that is shared.
pub proof fn law_buckets(
    l: RateLimitLayer,
    key: &str,
    n: u32,
    m: RateLimitLayer,
    b: Option<Bucket>,
    d: RateLimitLayer,
    c: Option<Bucket>,
    one: RateLimitLayer,
)
    requires
        call_ensures(RateLimitLayer::bucket, (l, key, n), m),
        call_ensures(RateLimitLayer::choose_bucket, (&m, key), b),
        call_ensures(RateLimitLayer::default_bucket, (l, n), d),
        call_ensures(RateLimitLayer::choose_bucket, (&d, key), c),
        call_ensures(RateLimitLayer::single_bucket, (n,), one),
    ensures
        b matches Some(Bucket::Named(i)),
        m.rates()[key@] == (if n == 0 {
            1u32
        } else {
            n
        }),
        c is Some,
        l.rates().contains_key(key@) <==> (c matches Some(Bucket::Named(i))),
        d.fallback() == Some(
            if n == 0 {
                1u32
            } else {
                n
            },
        ),
        one.shares_key(),
        one.fallback() == d.fallback(),
{
}

/// With one bucket every call has the same key, whatever the classifier says; else the key is
/// what it says.
pub proof fn law_keys_of_calls(l: &RateLimitLayer, classified: &str, r: String)
    requires
        call_ensures(RateLimitLayer::key, (l, classified), r),
    ensures
        l.shares_key() ==> r@ == "__default__"@,
        !l.shares_key() ==> r@ == classified@,
{
}

/// Spans have the level that they are made with.
pub proof fn law_span_levels(
    a: TracingLayer,
    b: TracingLayer,
    c: TracingLayer,
    d: TracingLayer,
    level: TracingLevel,
    e: TracingLayer,
)
    requires
        call_ensures(TracingLayer::new, (), a),
        call_ensures(TracingLayer::trace, (), b),
        call_ensures(TracingLayer::debug, (), c),
        call_ensures(TracingLayer::warn, (), d),
        call_ensures(TracingLayer::at_level, (level,), e),
    ensures
        a.level is Info,
        b.level is Trace,
        c.level is Debug,
        d.level is Warn,
        e.level == level,
{
}

} // verus!
