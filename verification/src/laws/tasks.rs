//! Tasks: how their leases are kept, and what ends them.

use vstd::prelude::*;
use vstd::string::*;

use crate::assoc;
use crate::engine_error::EngineError;
use crate::field_map::FieldMap;
use crate::ids;
use crate::ids::{AttemptIndex, WaitpointId};
use crate::numbers;
use crate::sdk_error::SdkError;
use crate::signal_bridge;
use crate::signal_bridge::SignalBridgeError;
use crate::task;
use crate::task::{
    error_category_to_class, failure, fcall_landed, is_terminal_renewal_error, renewal_interval,
    resume_waitpoint_id_from_suspension, usage_dimensions, ClaimedTask, Failure, FailureClass,
    RenewalFailures, UsageDimensions,
};
use crate::worker::Signal;

verus! {

/// Renewal ends exactly where the lease is lost for good: it is stale, expired or revoked,
/// or its execution is no longer active, or gone. Everything else may pass.
pub proof fn law_renewal_ends_with_the_lease(e: &EngineError, r: bool)
    requires
        call_ensures(is_terminal_renewal_error, (e,), r),
    ensures
        r <==> ((*e matches EngineError::State(k) && (k is StaleLease || k is LeaseExpired
            || k is LeaseRevoked)) || (*e matches EngineError::Contention(k)
            && k is ExecutionNotActive) || (*e matches EngineError::NotFound { entity } && entity@
            == "execution"@)),
        *e is Transport ==> !r,
{
}

/// Three renewals fit into the life of a lease that has three milliseconds, and a fourth
/// would not.
pub proof fn law_three_renewals_per_lease(ttl: u64, r: u64)
    requires
        call_ensures(renewal_interval, (ttl,), r),
    ensures
        r >= 1,
        ttl >= 3 ==> 3 * r <= ttl < 3 * (r + 1),
        ttl < 3 ==> r == 1,
{
}

/// A lease counts as sound while fewer than three renewals failed in a row.
pub proof fn law_lease_is_sound_below_three(f: &RenewalFailures, t: &ClaimedTask, r: bool, s: bool)
    requires
        call_ensures(RenewalFailures::is_lease_healthy, (f,), r),
        call_ensures(ClaimedTask::is_lease_healthy, (t,), s),
    ensures
        r <==> f.0 == 0 || f.0 == 1 || f.0 == 2,
        s <==> t.renewal_failures.0 == 0 || t.renewal_failures.0 == 1 || t.renewal_failures.0 == 2,
{
}

/// An operation has reached the engine unless it failed on the way: every answer of the
/// engine counts, a refusal too.
pub proof fn law_answers_have_landed<T>(out: &Result<T, EngineError>, r: bool)
    requires
        call_ensures(fcall_landed::<T>, (out,), r),
    ensures
        !r <==> (*out matches Err(e) && e is Transport),
{
}

/// The category of a failure is its class, where it has the name of one; any other is
/// taken to pass.
pub proof fn law_failure_classes(s: &str, r: FailureClass)
    requires
        call_ensures(error_category_to_class, (s,), r),
    ensures
        r == FailureClass::Permanent <==> s@ == "permanent"@,
        r == FailureClass::InfraCrash <==> s@ == "infra_crash"@,
        r == FailureClass::Timeout <==> s@ == "timeout"@,
        r == FailureClass::Cancelled <==> s@ == "cancelled"@,
{
    reveal_strlit("permanent");
    reveal_strlit("infra_crash");
    reveal_strlit("timeout");
    reveal_strlit("cancelled");
    assert("permanent"@.len() == 9 && "infra_crash"@.len() == 11 && "timeout"@.len() == 7);
    assert("cancelled"@.len() == 9 && "permanent"@[0] == 'p' && "cancelled"@[0] == 'c');
}

/// A failure is reported with its reason, and with its category in full.
pub proof fn law_failure_is_told(reason: &str, category: &str, r: Failure, c: FailureClass)
    requires
        call_ensures(failure, (reason, category), r),
        call_ensures(error_category_to_class, (category,), c),
    ensures
        r.message@ == reason@,
        r.detail@ == vstd::utf8::encode_utf8(category@),
        r.class == c,
{
}

/// The usage that is reported has each name once, with the last amount that was given for
/// it, and no other. A report without a key, or with an empty one, has none.
pub proof fn law_usage_is_told(
    dimensions: &Vec<(&str, u64)>,
    key: Option<&str>,
    i: int,
    r: UsageDimensions,
)
    requires
        call_ensures(usage_dimensions, (dimensions, key), r),
    ensures
        assoc::distinct(assoc::named(r.custom@)),
        (0 <= i < dimensions@.len() && forall|j: int|
            i < j < dimensions@.len() ==> (#[trigger] dimensions@[j]).0@ != dimensions@[i].0@)
            ==> assoc::map_of(assoc::named(r.custom@)).contains_key(dimensions@[i].0@)
            && assoc::map_of(assoc::named(r.custom@))[dimensions@[i].0@] == dimensions@[i].1,
        (key matches Some(k) && k@.len() > 0) ==> (r.dedup_key matches Some(d) && d@ == key->0@),
        (key matches Some(k) && k@.len() == 0) ==> r.dedup_key is None,
        key is None ==> r.dedup_key is None,
{
    if 0 <= i < dimensions@.len() && forall|j: int|
        i < j < dimensions@.len() ==> (#[trigger] dimensions@[j]).0@ != dimensions@[i].0@ {
        lemma_last_amount(dimensions@, i);
    }
}

proof fn lemma_last_amount(v: Seq<(&str, u64)>, i: int)
    requires
        0 <= i < v.len(),
        forall|j: int| i < j < v.len() ==> (#[trigger] v[j]).0@ != v[i].0@,
    ensures
        assoc::map_of(task::named_refs(v)).contains_key(v[i].0@),
        assoc::map_of(task::named_refs(v))[v[i].0@] == v[i].1,
    decreases v.len(),
{
    let all = task::named_refs(v);
    assert(all.last() == (v.last().0@, v.last().1));
    assert(all.drop_last() =~= task::named_refs(v.drop_last()));
    if i < v.len() - 1 {
        assert(v[v.len() - 1].0@ != v[i].0@);
        assert forall|j: int| i < j < v.drop_last().len() implies (#[trigger] v.drop_last()[j]).0@
            != v.drop_last()[i].0@ by {
            assert(v[j].0@ != v[i].0@);
        }
        lemma_last_amount(v.drop_last(), i);
    }
}

/// The waitpoint that resumed an attempt is the one in the record, exactly where the record
/// is of this attempt and says that it was resumed. A record of another attempt, or one
/// that ended otherwise, names none.
pub proof fn law_resumed_by_its_waitpoint(
    record: &FieldMap,
    attempt: AttemptIndex,
    w: Seq<char>,
    r: Result<Option<WaitpointId>, SdkError>,
)
    requires
        call_ensures(resume_waitpoint_id_from_suspension, (record, attempt), r),
        record.pairs().len() > 0,
    ensures
        (record@.contains_key("attempt_index"@) && record@["attempt_index"@] == numbers::decimal(
            attempt.0 as int,
        ) && record@.contains_key("close_reason"@) && record@["close_reason"@] == "resumed"@
            && record@.contains_key("waitpoint_id"@) && record@["waitpoint_id"@] == w
            && ids::canonical_uuid(w)) ==> (r matches Ok(Some(id)) && id@ == w),
        (record@.contains_key("close_reason"@) && record@["close_reason"@] != "resumed"@)
            ==> r matches Ok(None),
        !record@.contains_key("close_reason"@) ==> r matches Ok(None),
        (record@.contains_key("attempt_index"@) && (numbers::parse_u32_spec(
            record@["attempt_index"@],
        ) matches Ok(n) && n != attempt.0)) ==> r matches Ok(None),
        !record@.contains_key("waitpoint_id"@) ==> r matches Ok(None),
{
    reveal_strlit("");
    reveal_strlit("resumed");
    assert(""@.len() == 0 && "resumed"@.len() == 7);
    numbers::law_u32_round_trip(attempt.0);
}

/// A callback passes exactly where the stored token is the presented one, and the signal
/// then goes on as it was, under that token. Without a stored token the waitpoint is
/// unknown; another token does not match.
pub proof fn law_callback_is_checked(
    stored: Result<Option<String>, EngineError>,
    presented: &str,
    signal: Signal,
    r: Result<Signal, SignalBridgeError>,
)
    requires
        call_ensures(signal_bridge::verify, (stored, presented, signal), r),
    ensures
        r is Ok <==> (stored matches Ok(Some(t)) && t@ == presented@),
        r matches Ok(s) ==> s.waitpoint_token@ == presented@ && s.signal_name == signal.signal_name
            && s.signal_category == signal.signal_category && s.payload == signal.payload
            && s.source_type == signal.source_type && s.source_identity == signal.source_identity
            && s.idempotency_key == signal.idempotency_key,
        (stored matches Ok(None)) ==> (r matches Err(x) && x is UnknownWaitpoint),
        (stored matches Ok(Some(t)) && t@ != presented@) ==> (r matches Err(x) && x is TokenMismatch),
        stored is Err ==> (r matches Err(x) && x is Backend),
{
}

/// The handle of a task is made of its execution, its attempt and its lease, and of where it
/// runs.
pub proof fn law_handle_is_of_the_task(t: &ClaimedTask, r: Vec<u8>)
    requires
        call_ensures(ClaimedTask::synth_handle, (t,), r),
    ensures
        r@ == task::handle_bytes(
            t.execution_id@,
            t.attempt_index.0,
            t.attempt_id@,
            t.lease_id@,
            t.lease_epoch.0,
            t.lease_ttl_ms,
            t.lane_id@,
            t.worker_instance_id@,
        ),
{
}

} // verus!
