//! What an operation changes, and what it leaves.

use vstd::prelude::*;
use vstd::string::*;

use crate::claim::Window;
use crate::engine_error::EngineError;
use crate::field_map::FieldMap;
use crate::ids::{SuspensionId, WaitpointId};
use crate::layer::circuit_breaker::{BreakerState, CircuitBreakerHooks};
use crate::layer::hooks::{passed, turned_away, Admit, HookOutcome, LayerHooks};
use crate::layer::metrics::{MetricsLayer, MetricsSink};
use crate::names::LaneId;
use crate::reply::SuspendOutcome;
use crate::sdk_error::{BackendError, SdkError, SdkErrorView};
use crate::task::{is_terminal_renewal_error, ClaimedTask, RenewalFailures, RenewalStep};
use crate::text_set::TextSet;
use crate::value::Value;
use crate::worker::FlowFabricWorker;

verus! {

// ── Tasks ──

/// An operation that ends a task stops the renewal of its lease exactly where it reached the
/// engine, whatever the engine answered; one that failed on the way leaves the task as it
/// was. The answer is handed on.
pub proof fn law_settled_once_landed<T>(
    t: &mut ClaimedTask,
    out: Result<T, EngineError>,
    r: Result<T, SdkError>,
)
    requires
        call_ensures(ClaimedTask::settle::<T>, (t, out), r),
    ensures
        (out matches Err(e) && e is Transport) ==> *final(t) == *old(t),
        !(out matches Err(e) && e is Transport) ==> final(t).terminal_op_called,
        final(t).execution_id == old(t).execution_id,
        final(t).lease_id == old(t).lease_id,
        final(t).lease_epoch == old(t).lease_epoch,
        final(t).renewal_failures == old(t).renewal_failures,
        out matches Ok(v) ==> r == Ok::<T, SdkError>(v),
        out matches Err(e) ==> (r matches Err(x) && x@ == SdkErrorView::Engine(Box::new(e@))),
{
}

/// A suspension stops the renewal exactly where a reply came, and is what the reply says.
pub proof fn law_suspended_once_answered(
    t: &mut ClaimedTask,
    reply: Result<Value, BackendError>,
    s: SuspensionId,
    w: WaitpointId,
    k: String,
    r: Result<SuspendOutcome, SdkError>,
)
    requires
        call_ensures(ClaimedTask::suspended, (t, reply, s, w, k), r),
    ensures
        reply is Err ==> *final(t) == *old(t),
        reply matches Err(e) ==> (r matches Err(x) && x@ == SdkErrorView::Backend(e@)),
        reply is Ok ==> final(t).terminal_op_called,
        final(t).lease_id == old(t).lease_id,
        final(t).renewal_failures == old(t).renewal_failures,
        r matches Ok(SuspendOutcome::Suspended {
            suspension_id,
            waitpoint_id,
            waitpoint_key,
            waitpoint_token,
        }) ==> suspension_id@ == s@ && waitpoint_id@ == w@ && waitpoint_key@ == k@,
        r matches Ok(SuspendOutcome::AlreadySatisfied {
            suspension_id,
            waitpoint_id,
            waitpoint_key,
            waitpoint_token,
        }) ==> suspension_id@ == s@ && waitpoint_id@ == w@ && waitpoint_key@ == k@,
{
}

/// A lease is left to expire by a task that nothing has ended.
pub proof fn law_unsettled_task_leaks(t: &ClaimedTask, r: bool)
    requires
        call_ensures(ClaimedTask::leaks_lease, (t,), r),
    ensures
        r <==> !t.terminal_op_called,
{
}

/// A renewal that succeeded clears the count of failures; one that failed adds to it.
/// Renewal stops exactly where the lease is lost.
pub proof fn law_renewals_are_counted(
    f: &mut RenewalFailures,
    outcome: &Result<(), EngineError>,
    lost: bool,
    r: RenewalStep,
)
    requires
        call_ensures(RenewalFailures::record, (f, outcome), r),
        *outcome matches Err(e) ==> call_ensures(is_terminal_renewal_error, (&e,), lost),
    ensures
        *outcome is Ok ==> final(f).0 == 0 && r == RenewalStep::Continue,
        (*outcome is Err && old(f).0 < u32::MAX) ==> final(f).0 == old(f).0 + 1,
        *outcome is Err ==> (r == RenewalStep::Stop <==> lost),
{
}

// ── Workers ──

/// A worker without a free slot does not poll, and is as it was. One that has a slot takes
/// the next lane and the next window of partitions, and nothing else of it changes.
pub proof fn law_poll_moves_on(
    w: &mut FlowFabricWorker,
    permitted: bool,
    r: Option<(LaneId, Window)>,
)
    requires
        call_ensures(FlowFabricWorker::claim_next, (w, permitted), r),
        old(w).cursor() + 32 <= usize::MAX,
        old(w).lane_cursor() < usize::MAX,
    ensures
        final(w).config_spec() == old(w).config_spec(),
        final(w).partitions_spec() == old(w).partitions_spec(),
        final(w).hash_spec() == old(w).hash_spec(),
        !permitted ==> r is None && final(w).cursor() == old(w).cursor() && final(w).lane_cursor()
            == old(w).lane_cursor(),
        permitted ==> final(w).lane_cursor() == old(w).lane_cursor() + 1,
        (permitted && old(w).partitions_spec().num_flow_partitions == 0) ==> r is None,
        (permitted && old(w).partitions_spec().num_flow_partitions > 0) ==> {
            let n = old(w).partitions_spec().num_flow_partitions as int;
            &&& r is Some
            &&& (r->0).1.num_partitions == n
            &&& (r->0).1.step == 0
            &&& (r->0).1.start == old(w).cursor() as int % n
            &&& final(w).cursor() == old(w).cursor() + (if n < 32 {
                n
            } else {
                32
            })
        },
{
}

/// The lanes are taken in the order of the configuration, one after the other and round.
pub proof fn law_next_lane_in_order(w: &mut FlowFabricWorker, r: LaneId)
    requires
        call_ensures(FlowFabricWorker::next_lane, (w,), r),
        old(w).lane_cursor() < usize::MAX,
        old(w).config_spec().lanes@.len() > 0,
    ensures
        r@ == old(w).config_spec().lanes@[old(w).lane_cursor() as int
            % old(w).config_spec().lanes@.len() as int]@,
        final(w).lane_cursor() == old(w).lane_cursor() + 1,
        final(w).cursor() == old(w).cursor(),
{
}

// ── The breaker ──

/// A closed breaker lets every call through and stays closed; one with a call on trial turns
/// every other away; an open one turns calls away until it has cooled down, and then lets one
/// through on trial.
pub proof fn law_breaker_admits(
    h: &mut CircuitBreakerHooks,
    method: &'static str,
    now: u128,
    r: Admit,
)
    requires
        call_ensures(CircuitBreakerHooks::before, (h, method, now), r),
    ensures
        final(h).config == old(h).config,
        old(h).state is Closed ==> r is Proceed && final(h).state == old(h).state,
        old(h).state is HalfOpen ==> r is Reject && final(h).state is HalfOpen,
        (old(h).state matches BreakerState::Open { opened_at } && opened_at <= now && now
            - opened_at < old(h).config.cool_down) ==> r is Reject && final(h).state
            == old(h).state,
        (old(h).state matches BreakerState::Open { opened_at } && opened_at <= now && now
            - opened_at >= old(h).config.cool_down) ==> r is Proceed && final(h).state is HalfOpen,
{
}

/// Calls that fail on the way are counted while the breaker is closed, and open it at the
/// threshold, at the time of the last. A success clears the count; a refusal of the engine
/// leaves it. A call on trial decides. What the breaker itself turned away says nothing.
pub proof fn law_breaker_learns(
    h: &mut CircuitBreakerHooks,
    method: &'static str,
    elapsed: u128,
    now: u128,
    outcome: HookOutcome<'_>,
)
    requires
        call_ensures(CircuitBreakerHooks::after, (h, method, elapsed, now, outcome), ()),
    ensures
        final(h).config == old(h).config,
        outcome is Rejected ==> final(h).state == old(h).state,
        old(h).state is Open ==> final(h).state == old(h).state,
        (old(h).state is Closed && outcome is Success) ==> (
        final(h).state matches BreakerState::Closed { consecutive_failures } && consecutive_failures
            == 0),
        (old(h).state is Closed && (outcome matches HookOutcome::Failure(e)
            && !e.is_transport_spec())) ==> final(h).state == old(h).state,
        (old(h).state matches BreakerState::Closed { consecutive_failures: n } && n < u32::MAX && n
            + 1 < old(h).config.failure_threshold && (outcome matches HookOutcome::Failure(e)
            && e.is_transport_spec())) ==> (final(h).state matches BreakerState::Closed {
            consecutive_failures: m,
        } && m == old(h).state->consecutive_failures + 1),
        (old(h).state matches BreakerState::Closed { consecutive_failures: n } && n < u32::MAX && n
            + 1 >= old(h).config.failure_threshold && (outcome matches HookOutcome::Failure(e)
            && e.is_transport_spec())) ==> (final(h).state matches BreakerState::Open { opened_at }
            && opened_at == now),
        (old(h).state is HalfOpen && (outcome matches HookOutcome::Failure(e)
            && e.is_transport_spec())) ==> (final(h).state matches BreakerState::Open { opened_at }
            && opened_at == now),
        (old(h).state is HalfOpen && (outcome is Success || (outcome matches HookOutcome::Failure(e)
            && !e.is_transport_spec()))) ==> (final(h).state matches BreakerState::Closed {
            consecutive_failures,
        } && consecutive_failures == 0),
{
}

/// A call that went through is handed on as it is, and reported with its method and its
/// time; one that was turned away is its error, and took no time.
pub proof fn law_calls_are_handed_on<S: MetricsSink>(
    l: &mut MetricsLayer<S>,
    method: &'static str,
    elapsed: u128,
    now: u128,
    result: Result<u8, EngineError>,
    r: Result<u8, EngineError>,
)
    requires
        call_ensures(passed::<MetricsLayer<S>, u8>, (l, method, elapsed, now, result), r),
    ensures
        r == result,
        result is Ok ==> final(l).sink == old(l).sink.recorded(
            method,
            elapsed,
            crate::layer::metrics::Outcome::Success,
        ),
        (result matches Err(e) && e is Transport) ==> final(l).sink == old(l).sink.recorded(
            method,
            elapsed,
            crate::layer::metrics::Outcome::Failure("transport"),
        ),
{
}

// ── Collections ──

/// A field that was put in is found, with the value that was put in last; every other field
/// is as it was.
pub proof fn law_put_is_found(
    m: &mut FieldMap,
    key: String,
    value: String,
    after: FieldMap,
    other: &str,
    k: &str,
    r: Option<&String>,
    s: Option<&String>,
)
    requires
        call_ensures(FieldMap::insert, (m, key, value), ()),
        *final(m) == after,
        k@ == key@,
        call_ensures(FieldMap::get, (&after, k), r),
        call_ensures(FieldMap::get, (&after, other), s),
        other@ != key@,
    ensures
        r matches Some(v) && v@ == value@,
        s is Some <==> old(m)@.contains_key(other@),
        s matches Some(v) ==> v@ == old(m)@[other@],
{
}

/// A text that was put into a set is in it, and nothing else came or went.
pub proof fn law_put_is_member(t: &mut TextSet, item: String, x: Seq<char>)
    requires
        call_ensures(TextSet::insert, (t, item), ()),
    ensures
        final(t)@.contains(item@),
        x != item@ ==> (final(t)@.contains(x) <==> old(t)@.contains(x)),
{
}

// ── Layers ──

/// A call that was turned away is its error, and is told of as such, with no time.
pub proof fn law_turned_away_is_told<S: MetricsSink>(
    l: &mut MetricsLayer<S>,
    method: &'static str,
    now: u128,
    err: Box<EngineError>,
    r: EngineError,
)
    requires
        call_ensures(turned_away::<MetricsLayer<S>>, (l, method, now, err), r),
    ensures
        r == *err,
        *err is Validation ==> final(l).sink == old(l).sink.recorded(
            method,
            0,
            crate::layer::metrics::Outcome::Failure("validation"),
        ),
{
}

/// A breaker that turned a call away is not moved by it.
pub proof fn law_turned_away_moves_nothing(
    h: &mut CircuitBreakerHooks,
    method: &'static str,
    now: u128,
    err: Box<EngineError>,
    r: EngineError,
)
    requires
        call_ensures(turned_away::<CircuitBreakerHooks>, (h, method, now, err), r),
    ensures
        r == *err,
        *final(h) == *old(h),
{
}

/// Metrics let every call through, and are as they were until it ends.
pub proof fn law_metrics_admit<S: MetricsSink>(
    l: &mut MetricsLayer<S>,
    method: &'static str,
    now: u128,
    r: Admit,
)
    requires
        call_ensures(MetricsLayer::<S>::before, (l, method, now), r),
    ensures
        r is Proceed,
        *final(l) == *old(l),
{
}

} // verus!
