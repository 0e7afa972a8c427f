//! Agreement: calls and readers that are about the same thing treat it alike.

use vstd::prelude::*;
use vstd::string::*;

use crate::engine_error::EngineError;
use crate::error::ScriptError;
use crate::fields::FromFcallResult;
use crate::functions::execution::{
    ff_claim_execution, ff_complete_execution, ff_delay_execution, ff_fail_execution,
    ff_move_to_waiting_children, ClaimExecutionArgs, CompleteExecutionArgs, DelayExecutionArgs,
    ExecOpKeys, FailExecutionArgs, FailExecutionResult, MoveToWaitingChildrenArgs,
};
use crate::functions::scheduling::{ff_issue_claim_grant, IssueClaimGrantArgs, SchedOpKeys};
use crate::functions::signal::{
    ff_buffer_signal_for_pending_waitpoint, ff_claim_resumed_execution, ff_deliver_signal,
    BufferSignalArgs, ClaimResumedExecutionArgs, DeliverSignalArgs, DeliverSignalResult,
    SignalOpKeys,
};
use crate::functions::suspension::{ff_suspend_execution, SuspendExecutionArgs, SuspendOpKeys};
use crate::ids;
use crate::laws::task_replies;
use crate::laws::task_replies::spoken;
use crate::laws::written;
use crate::laws::written::written;
use crate::numbers;
use crate::reply::{
    parse_fail_result, parse_report_usage_result, parse_signal_result, FailOutcome,
    ReportUsageResult, SignalOutcome,
};
use crate::sdk_error::SdkError;
use crate::suspend;
use crate::suspend::{SuspendRequest, Suspender};
use crate::value::Value;
use crate::wire::Call;
use crate::worker::signal_outcome;

verus! {

// ── Calls ──

/// The calls by which the holder of a lease ends an attempt name the execution and prove the
/// lease in the same places: they agree there exactly as their callers do.
pub proof fn law_fenced_calls_agree(
    k: &ExecOpKeys<'_>,
    a: &CompleteExecutionArgs,
    b: &FailExecutionArgs,
    c: &DelayExecutionArgs,
    d: &MoveToWaitingChildrenArgs,
    p: Call,
    q: Call,
    r: Call,
    s: Call,
)
    requires
        call_ensures(ff_complete_execution, (k, a), p),
        call_ensures(ff_fail_execution, (k, b), q),
        call_ensures(ff_delay_execution, (k, c), r),
        call_ensures(ff_move_to_waiting_children, (k, d), s),
        a.execution_id@ == b.execution_id@,
        a.execution_id@ == c.execution_id@,
        a.execution_id@ == d.execution_id@,
        a.fence == b.fence,
        a.fence == c.fence,
        a.fence == d.fence,
    ensures
        forall|i: int|
            #![trigger p.argv_spec()[i]]
            #![trigger q.argv_spec()[i]]
            #![trigger r.argv_spec()[i]]
            #![trigger s.argv_spec()[i]]
            0 <= i < 4 ==> p.argv_spec()[i] == q.argv_spec()[i] && p.argv_spec()[i]
                == r.argv_spec()[i] && p.argv_spec()[i] == s.argv_spec()[i],
        p.argv_spec().last() == a.source.text_spec(),
        q.argv_spec().last() == b.source.text_spec(),
        r.argv_spec().last() == c.source.text_spec(),
        s.argv_spec().last() == d.source.text_spec(),
{
}

/// A grant is asked for, and a claim made, by naming the execution, the worker and the lane
/// in the same places; so does the claim of a resumed execution.
pub proof fn law_claims_agree(
    k: &ExecOpKeys<'_>,
    j: &SchedOpKeys<'_>,
    a: &ClaimExecutionArgs,
    b: &ClaimResumedExecutionArgs,
    c: &IssueClaimGrantArgs,
    p: Call,
    q: Call,
    r: Call,
)
    requires
        call_ensures(ff_claim_execution, (k, a), p),
        call_ensures(ff_claim_resumed_execution, (k, b), q),
        call_ensures(ff_issue_claim_grant, (j, c), r),
        a.execution_id@ == b.execution_id@,
        a.execution_id@ == c.execution_id@,
        a.worker_id@ == b.worker_id@,
        a.worker_id@ == c.worker_id@,
        a.worker_instance_id@ == b.worker_instance_id@,
        a.worker_instance_id@ == c.worker_instance_id@,
        a.lane_id@ == b.lane_id@,
        a.lane_id@ == c.lane_id@,
        a.lease_id@ == b.lease_id@,
        a.lease_ttl_ms == b.lease_ttl_ms,
    ensures
        forall|i: int|
            #![trigger p.argv_spec()[i]]
            #![trigger q.argv_spec()[i]]
            0 <= i < 7 ==> p.argv_spec()[i] == q.argv_spec()[i],
        forall|i: int|
            #![trigger p.argv_spec()[i]]
            #![trigger r.argv_spec()[i]]
            0 <= i < 4 ==> p.argv_spec()[i] == r.argv_spec()[i],
{
}

/// A task that suspends itself sends what any other suspension with the same parts sends: the
/// same keys, and the same arguments in the same places.
pub proof fn law_suspensions_agree(
    t: &Suspender<'_>,
    q: &SuspendRequest<'_>,
    k: &SuspendOpKeys<'_>,
    a: &SuspendExecutionArgs,
    r: Call,
    s: Call,
)
    requires
        call_ensures(suspend::suspend, (t, q), r),
        call_ensures(ff_suspend_execution, (k, a), s),
        *k.ctx == *t.ctx,
        *k.idx == *t.idx,
        k.lane_id@ == t.lane_id@,
        k.worker_instance_id@ == t.worker_instance_id@,
        a.execution_id@ == t.execution_id@,
        a.attempt_index == t.attempt_index,
        a.fence matches Some(f) && f.attempt_id@ == t.attempt_id@ && f.lease_id@ == t.lease_id@
            && f.lease_epoch == t.lease_epoch,
        a.suspension_id@ == q.suspension_id@,
        a.waitpoint_id@ == q.waitpoint_id@,
        a.reason_code@ == q.reason_code@,
        a.requested_by@ == "worker"@,
        a.timeout_behavior@ == q.timeout_behavior.name_spec()@,
        a.waitpoint_key@ == "wpk:"@ + q.waitpoint_id@,
        a.continuation_metadata_pointer is None,
        !a.use_pending_waitpoint,
        q.timeout_ms is None,
        a.timeout_at is None,
    ensures
        r.function == s.function,
        r.keys_spec() == s.keys_spec(),
        r.argv_spec().len() == s.argv_spec().len(),
        forall|i: int|
            #![trigger r.argv_spec()[i]]
            #![trigger s.argv_spec()[i]]
            0 <= i < 17 && i != 11 && i != 12 ==> r.argv_spec()[i] == s.argv_spec()[i],
{
    reveal_strlit("");
    assert(r.keys_spec() =~= s.keys_spec());
    assert(""@ =~= Seq::<char>::empty());
}

/// A signal that is buffered is sent as one that is delivered, as far as both carry the same.
pub proof fn law_signals_agree(
    k: &SignalOpKeys<'_>,
    a: &DeliverSignalArgs,
    b: &BufferSignalArgs,
    r: Call,
    s: Call,
)
    requires
        call_ensures(ff_deliver_signal, (k, a), r),
        call_ensures(ff_buffer_signal_for_pending_waitpoint, (k, b), s),
        a.signal_id@ == b.signal_id@,
        a.execution_id@ == b.execution_id@,
        a.waitpoint_id@ == b.waitpoint_id@,
        a.signal_name@ == b.signal_name@,
        a.signal_category@ == b.signal_category@,
        a.source_type@ == b.source_type@,
        a.source_identity@ == b.source_identity@,
    ensures
        r.argv_spec().len() == s.argv_spec().len(),
        forall|i: int|
            #![trigger r.argv_spec()[i]]
            #![trigger s.argv_spec()[i]]
            0 <= i < 7 ==> r.argv_spec()[i] == s.argv_spec()[i],
{
}

// ── Replies ──

/// A signal reply is read alike by a task and by whoever delivers signals for others.
pub proof fn law_signal_readers_agree(
    raw: &Value,
    status: Seq<char>,
    id: Seq<char>,
    effect: Seq<char>,
    a: Result<SignalOutcome, SdkError>,
    b: DeliverSignalResult,
    c: Result<SignalOutcome, SdkError>,
)
    requires
        call_ensures(parse_signal_result, (raw,), a),
        call_ensures(
            DeliverSignalResult::from_fcall_result,
            (raw,),
            Ok::<DeliverSignalResult, ScriptError>(b),
        ),
        call_ensures(signal_outcome, (Ok::<DeliverSignalResult, EngineError>(b),), c),
        ids::canonical_uuid(id),
        spoken(*raw, 1, status, seq![id, effect]),
        status != "DUPLICATE"@,
    ensures
        a is Ok,
        c is Ok,
        a->Ok_0@ == c->Ok_0@,
{
    let f = written::lemma_written(*raw, status, seq![id, effect]);
    assert(f.field(0) == id && f.field(1) == effect);
    task_replies::law_signal_reads_back(raw, status, id, effect, ScriptError::StaleLease, a);
}

/// A failure reply is read alike by a task and by whoever sends the call itself.
pub proof fn law_failure_readers_agree(
    raw: &Value,
    status: Seq<char>,
    t: i64,
    a: Result<FailOutcome, SdkError>,
    b: Result<FailExecutionResult, ScriptError>,
)
    requires
        call_ensures(parse_fail_result, (raw,), a),
        call_ensures(FailExecutionResult::from_fcall_result, (raw,), b),
        spoken(*raw, 1, status, seq!["retry_scheduled"@, numbers::decimal(t as int)]),
    ensures
        a matches Ok(FailOutcome::RetryScheduled { delay_until }) && delay_until.0 == t,
        b matches Ok(FailExecutionResult::RetryScheduled { delay_until, next_attempt_index })
            && delay_until.0 == t,
{
    let two = seq!["retry_scheduled"@, numbers::decimal(t as int)];
    let f = written::lemma_written(*raw, status, two);
    assert(f.field(0) == two[0] && f.field(1) == two[1]);
    numbers::law_i64_round_trip(t);
    let items = raw->Array_0;
    assert(written::says(items@[0int + 2], two[0]));
    assert(written::says(items@[1int + 2], two[1]));
    task_replies::law_retry_reads_back(raw, items, status, t, a);
}

/// A usage reply is read alike by a task and by whoever sends the call itself.
pub proof fn law_usage_readers_agree(
    raw: &Value,
    d: Seq<char>,
    used: u64,
    limit: u64,
    a: Result<ReportUsageResult, SdkError>,
    b: Result<ReportUsageResult, ScriptError>,
)
    requires
        call_ensures(parse_report_usage_result, (raw,), a),
        call_ensures(ReportUsageResult::from_fcall_result, (raw,), b),
        spoken(
            *raw,
            1,
            "HARD_BREACH"@,
            seq![d, numbers::decimal(used as int), numbers::decimal(limit as int)],
        ),
    ensures
        a is Ok,
        b is Ok,
        a->Ok_0@ == b->Ok_0@,
{
    task_replies::law_usage_reads_back(
        raw,
        d,
        used,
        limit,
        "HARD_BREACH"@,
        seq![d, numbers::decimal(used as int), numbers::decimal(limit as int)],
        ScriptError::StaleLease,
        a,
    );
    crate::laws::budget_replies::law_report_hard_breach(raw, d, used, limit, b);
}

} // verus!
