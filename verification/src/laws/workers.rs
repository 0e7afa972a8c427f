//! Workers: what a worker sends is what it was configured with and what it was granted,
//! and how it connects.

use vstd::prelude::*;
use vstd::string::*;

use crate::config::WorkerConfig;
use crate::engine_error::EngineError;
use crate::field_map::FieldMap;
use crate::functions::execution::{ff_claim_execution, ClaimExecutionArgs, ExecOpKeys};
use crate::functions::scheduling::{ff_issue_claim_grant, IssueClaimGrantArgs, SchedOpKeys};
use crate::functions::signal::{
    ff_claim_resumed_execution, ff_deliver_signal, ClaimResumedExecutionArgs, DeliverSignalResult,
    SignalOpKeys,
};
use crate::grants::{ClaimGrant, ResumeGrant};
use crate::ids::{AttemptId, AttemptIndex, ExecutionId, LeaseId, SignalId, TimestampMs, WaitpointId};
use crate::names::LaneId;
use crate::numbers;
use crate::partition;
use crate::partition::{Partition, PartitionConfig};
use crate::preamble;
use crate::preamble::{Advertising, Asking, Claiming, Pinged, PreambleOutput};
use crate::reply::SignalOutcome;
use crate::sdk_error::{BackendError, SdkError, SdkErrorView};
use crate::task::ClaimedTask;
use crate::text;
use crate::text_set;
use crate::wire::Call;
use crate::worker;
use crate::worker::{
    block_route_args, check_dial, deliver_signal, signal_outcome, BlockRouteArgs, ExecutionContext,
    FlowFabricWorker, Lease, Signal, SignalDelivery, Target,
};

verus! {

// ── Claims ──

/// The claim that a poll sends is of the execution that was found, on the lane of the poll,
/// for the worker as it is configured, under the new lease and attempt, with the number
/// that the attempts so far give it.
pub proof fn law_claim_sends_the_worker(
    w: &FlowFabricWorker,
    k: &ExecOpKeys<'_>,
    eid: &ExecutionId,
    lane: &LaneId,
    n: AttemptIndex,
    lease: LeaseId,
    attempt: AttemptId,
    a: ClaimExecutionArgs,
    r: Call,
)
    requires
        call_ensures(
            FlowFabricWorker::claim_args,
            (w, eid, lane, Ok::<AttemptIndex, EngineError>(n), lease, attempt),
            Ok::<ClaimExecutionArgs, SdkError>(a),
        ),
        call_ensures(ff_claim_execution, (k, &a), r),
    ensures
        r.argv_spec()[0] == eid@,
        r.argv_spec()[1] == w.config_spec().worker_id@,
        r.argv_spec()[2] == w.config_spec().worker_instance_id@,
        r.argv_spec()[3] == lane@,
        r.argv_spec()[5] == lease@,
        r.argv_spec()[6] == numbers::decimal(w.config_spec().lease_ttl_ms as int),
        r.argv_spec()[8] == attempt@,
        r.argv_spec()[9] == "{}"@,
        r.argv_spec()[10].len() == 0,
        r.argv_spec()[11].len() == 0,
        r.keys_spec()[5] == k.ctx.attempt_hash_spec(n),
{
}

/// The claim of a resumed execution goes on with the attempt that was running.
pub proof fn law_resumed_claim_sends_the_worker(
    w: &FlowFabricWorker,
    k: &ExecOpKeys<'_>,
    eid: &ExecutionId,
    lane: &LaneId,
    n: AttemptIndex,
    lease: LeaseId,
    a: ClaimResumedExecutionArgs,
    r: Call,
)
    requires
        call_ensures(
            FlowFabricWorker::resume_args,
            (w, eid, lane, Ok::<AttemptIndex, EngineError>(n), lease),
            Ok::<ClaimResumedExecutionArgs, SdkError>(a),
        ),
        call_ensures(ff_claim_resumed_execution, (k, &a), r),
    ensures
        r.argv_spec()[0] == eid@,
        r.argv_spec()[1] == w.config_spec().worker_id@,
        r.argv_spec()[2] == w.config_spec().worker_instance_id@,
        r.argv_spec()[3] == lane@,
        a.lease_id == lease,
        a.lease_ttl_ms == w.config_spec().lease_ttl_ms,
        a.current_attempt_index == n,
{
}

/// A claim is not made where the attempts could not be counted: the error is the engine's.
pub proof fn law_claims_need_the_attempt(
    w: &FlowFabricWorker,
    eid: &ExecutionId,
    lane: &LaneId,
    e: EngineError,
    lease: LeaseId,
    attempt: AttemptId,
    r: Result<ClaimExecutionArgs, SdkError>,
    s: Result<ClaimResumedExecutionArgs, SdkError>,
)
    requires
        call_ensures(
            FlowFabricWorker::claim_args,
            (w, eid, lane, Err::<AttemptIndex, EngineError>(e), lease, attempt),
            r,
        ),
        call_ensures(
            FlowFabricWorker::resume_args,
            (w, eid, lane, Err::<AttemptIndex, EngineError>(e), lease),
            s,
        ),
    ensures
        r matches Err(x) && x@ == SdkErrorView::Engine(Box::new(e@)),
        s matches Err(x) && x@ == SdkErrorView::Engine(Box::new(e@)),
{
}

/// The request for a grant names the worker, and all that it is capable of, sorted and each
/// once.
pub proof fn law_grant_request_sends_the_worker(
    w: &FlowFabricWorker,
    k: &SchedOpKeys<'_>,
    eid: &ExecutionId,
    lane: &LaneId,
    a: IssueClaimGrantArgs,
    r: Call,
)
    requires
        call_ensures(FlowFabricWorker::grant_args, (w, eid, lane), a),
        call_ensures(ff_issue_claim_grant, (k, &a), r),
    ensures
        r.argv_spec()[0] == eid@,
        r.argv_spec()[1] == w.config_spec().worker_id@,
        r.argv_spec()[2] == w.config_spec().worker_instance_id@,
        r.argv_spec()[3] == lane@,
        r.argv_spec()[5] == numbers::decimal(5_000),
        r.argv_spec()[8] == text::joined(
            text_set::sorted(text::texts(w.config_spec().capabilities@).to_set()),
            ","@,
        ),
{
}

/// A task holds what was claimed: the execution and the lane, the lease with its epoch, the
/// attempt with its index, and what the execution works on. It starts with no failed
/// renewal, and nothing has ended it.
pub proof fn law_task_holds_the_claim(
    w: &FlowFabricWorker,
    eid: &ExecutionId,
    lane: &LaneId,
    lease: Lease,
    context: Result<ExecutionContext, EngineError>,
    r: Result<ClaimedTask, SdkError>,
)
    requires
        call_ensures(FlowFabricWorker::claimed_task, (w, eid, lane, lease, context), r),
    ensures
        context is Ok <==> r is Ok,
        context matches Err(e) ==> (r matches Err(x) && x@ == SdkErrorView::Engine(
            Box::new(e@),
        )),
        r matches Ok(t) ==> {
            &&& t.execution_id@ == eid@
            &&& t.lane_id@ == lane@
            &&& t.lease_id == lease.lease_id
            &&& t.lease_epoch == lease.lease_epoch
            &&& t.attempt_id == lease.attempt_id
            &&& t.attempt_index == lease.attempt_index
            &&& t.lease_ttl_ms == w.config_spec().lease_ttl_ms
            &&& t.worker_instance_id@ == w.config_spec().worker_instance_id@
            &&& t.input_payload == context->Ok_0.input_payload
            &&& t.execution_kind == context->Ok_0.execution_kind
            &&& t.tags == context->Ok_0.tags
            &&& t.renewal_failures.0 == 0
            &&& !t.terminal_op_called
        },
{
}

/// A grant is used only by a worker that is free, and then for its own execution, in the
/// partition that its key names.
pub proof fn law_grants_are_kept(
    permitted: bool,
    lane: LaneId,
    grant: ClaimGrant,
    resume: ResumeGrant,
    p: Partition,
    r: Result<Target, SdkError>,
    s: Result<Target, SdkError>,
)
    requires
        call_ensures(FlowFabricWorker::claim_from_grant, (permitted, lane, grant), r),
        call_ensures(FlowFabricWorker::claim_from_resume_grant, (permitted, resume), s),
    ensures
        !permitted ==> (r matches Err(x) && x is WorkerAtCapacity) && (s matches Err(x)
            && x is WorkerAtCapacity),
        (permitted && grant.partition_key@ == p.tag_spec()) ==> (r matches Ok(t) && t.execution_id
            == grant.execution_id && t.lane_id == lane && t.partition.index == p.index),
        (permitted && resume.partition_key@ == p.tag_spec()) ==> (s matches Ok(t) && t.execution_id
            == resume.execution_id && t.lane_id == resume.lane_id && t.partition.index == p.index),
{
    partition::law_tag_names_its_partition(p);
}

/// The block of an execution names it, its lane and its partition, and says that no
/// connected worker is capable of it.
pub proof fn law_block_request(
    eid: &ExecutionId,
    lane: &LaneId,
    p: Partition,
    now: TimestampMs,
    r: BlockRouteArgs,
)
    requires
        call_ensures(block_route_args, (eid, lane, p, now), r),
    ensures
        r.execution_id@ == eid@,
        r.lane_id@ == lane@,
        r.partition == p,
        r.reason_code@ == "waiting_for_capable_worker"@,
        r.reason_detail@ == "no connected worker satisfies required_capabilities"@,
        r.now == now,
{
}

// ── Signals ──

/// The delivery of a signal carries the signal as it is, to the waitpoint of the execution,
/// under the new identity, and the token apart from it.
pub proof fn law_delivery_sends_the_signal(
    k: &SignalOpKeys<'_>,
    eid: &ExecutionId,
    waitpoint: &WaitpointId,
    signal: Signal,
    id: SignalId,
    now: TimestampMs,
    d: SignalDelivery,
    r: Call,
)
    requires
        call_ensures(deliver_signal, (eid, waitpoint, signal, id, now), d),
        call_ensures(ff_deliver_signal, (k, &d.args), r),
    ensures
        d.waitpoint_token == signal.waitpoint_token,
        d.now == now,
        r.argv_spec()[0] == id@,
        r.argv_spec()[1] == eid@,
        r.argv_spec()[2] == waitpoint@,
        r.argv_spec()[3] == signal.signal_name@,
        r.argv_spec()[4] == signal.signal_category@,
        r.argv_spec()[5] == signal.source_type@,
        r.argv_spec()[6] == signal.source_identity@,
        signal.payload matches Some(b) ==> r.argv_spec()[7] == text::lossy_text(b@),
        r.argv_spec()[8] == "json"@,
        signal.idempotency_key matches Some(ik) ==> r.argv_spec()[9] == ik@,
        r.argv_spec()[11] == "waitpoint"@,
        r.argv_spec()[12] == numbers::decimal(now.0 as int),
{
}

/// A signal that met the condition resumes; any other is accepted with its effect; one that
/// came before is the earlier one; an error is the engine's.
pub proof fn law_delivery_outcome(
    out: Result<DeliverSignalResult, EngineError>,
    r: Result<SignalOutcome, SdkError>,
)
    requires
        call_ensures(signal_outcome, (out,), r),
    ensures
        out matches Err(e) ==> (r matches Err(x) && x@ == SdkErrorView::Engine(Box::new(e@))),
        out matches Ok(DeliverSignalResult::Duplicate { existing_signal_id }) ==> (r matches Ok(
            SignalOutcome::Duplicate { existing_signal_id: x },
        ) && x@ == existing_signal_id@),
        out matches Ok(DeliverSignalResult::Accepted { signal_id, effect }) ==> if effect@
            == "resume_condition_satisfied"@ {
            r matches Ok(SignalOutcome::TriggeredResume { signal_id: x }) && x@ == signal_id@
        } else {
            r matches Ok(SignalOutcome::Accepted { signal_id: x, effect: y }) && x@ == signal_id@
                && y@ == effect@
        },
{
}

// ── Connecting ──

/// A worker is connected only with a lane, and where it dials only with a backend; one that
/// is given its backend needs none. It starts with the partitions that were published.
pub proof fn law_connecting(
    config: WorkerConfig,
    output: PreambleOutput,
    c: Result<(), SdkError>,
    r: Result<FlowFabricWorker, SdkError>,
)
    requires
        call_ensures(check_dial, (&config,), c),
        call_ensures(FlowFabricWorker::connect, (config, output), r),
    ensures
        c is Ok <==> config.lanes@.len() > 0 && config.backend is Some,
        r is Ok <==> config.lanes@.len() > 0 && config.backend is Some,
        c matches Err(x) ==> x is Config,
        r matches Err(x) ==> x is Config,
        r matches Ok(w) ==> w.config_spec() == config && w.partitions_spec()
            == output.partition_config && w.hash_spec() == output.capabilities_hash@
            && w.lane_cursor() == 0,
{
}

/// The preamble starts with a ping of the server, and only its answer leads on.
pub proof fn law_ping_is_answered(
    config: &WorkerConfig,
    p: Pinged,
    words: Vec<String>,
    reply: Result<String, BackendError>,
    r: Result<Claiming, SdkError>,
)
    requires
        call_ensures(preamble::run, (config,), p),
        call_ensures(Pinged::command, (&p,), words),
        call_ensures(Pinged::answered, (p, reply), r),
    ensures
        words@.len() == 1 && words@[0]@ == "PING"@,
        r is Ok <==> (reply matches Ok(s) && s@ == "PONG"@),
        r matches Ok(next) ==> next.instance_spec() == config.worker_instance_id@
            && next.ttl_spec() == config.lease_ttl_ms,
{
    assert(text::texts(words@).len() == 1);
    assert(text::texts(words@)[0] == words@[0]@);
}

/// A worker process claims its name by a key that no other holds, and that outlives its
/// leases: twice their life, and never less than a second.
pub proof fn law_name_is_claimed(
    c: Claiming,
    words: Vec<String>,
    reply: Result<Option<String>, BackendError>,
    r: Result<Asking, SdkError>,
)
    requires
        call_ensures(Claiming::command, (&c,), words),
        call_ensures(Claiming::answered, (c, reply), r),
    ensures
        words@.len() == 6,
        words@[0]@ == "SET"@,
        words@[1]@ == "ff:worker:"@ + c.instance_spec() + ":alive"@,
        words@[2]@ == "1"@,
        words@[3]@ == "NX"@,
        words@[4]@ == "PX"@,
        exists|ttl: u64| #[trigger]
            numbers::decimal(ttl as int) == words@[5]@ && ttl >= 1_000 && (ttl == u64::MAX || ttl
                == 2 * c.ttl_spec() || (ttl == 1_000 && c.ttl_spec() < 500)) && (ttl == u64::MAX
                ==> 2 * c.ttl_spec() >= u64::MAX - 1),
        r is Ok <==> (reply matches Ok(Some(_))),
        r matches Ok(next) ==> next.instance_spec() == c.instance_spec(),
        (reply matches Ok(None)) ==> (r matches Err(x) && x is Config),
{
    let t = text::texts(words@);
    assert(t.len() == words@.len());
    assert(t[0] == words@[0]@ && t[1] == words@[1]@ && t[2] == words@[2]@);
    assert(t[3] == words@[3]@ && t[4] == words@[4]@ && t[5] == words@[5]@);
    let ttl = preamble::alive_ttl(c.ttl_spec());
    assert(numbers::decimal(ttl as int) == words@[5]@);
}

/// A worker's capabilities are written before it enters the index, under its own name; one
/// without any is taken out of both.
pub proof fn law_capabilities_are_advertised(a: Advertising, w: Vec<String>, x: Vec<String>)
    requires
        call_ensures(Advertising::capabilities_command, (&a,), w),
        call_ensures(Advertising::index_command, (&a,), x),
    ensures
        a.csv_spec().len() > 0 ==> w@.len() == 3 && w@[0]@ == "SET"@ && w@[2]@ == a.csv_spec()
            && x@[0]@ == "SADD"@,
        a.csv_spec().len() == 0 ==> w@.len() == 2 && w@[0]@ == "DEL"@ && x@[0]@ == "SREM"@,
        w@[1]@ == "ff:worker:"@ + a.instance_spec() + ":caps"@,
        x@.len() == 3,
        x@[1]@ == "ff:idx:workers"@,
        x@[2]@ == a.instance_spec(),
{
    let t = text::texts(w@);
    let u = text::texts(x@);
    assert(t.len() == w@.len() && u.len() == x@.len());
    assert(t[0] == w@[0]@ && t[1] == w@[1]@);
    if a.csv_spec().len() > 0 {
        assert(t[2] == w@[2]@);
    }
    assert(u[0] == x@[0]@ && u[1] == x@[1]@ && u[2] == x@[2]@);
}

/// The number of partitions of each family is the published one under its own name, where
/// it is a number above zero, and else the usual one.
pub proof fn law_partitions_are_read(
    fields: FieldMap,
    n: u16,
    r: Result<PartitionConfig, SdkError>,
)
    requires
        call_ensures(
            preamble::read_partition_config,
            (Ok::<FieldMap, BackendError>(fields),),
            r,
        ),
        fields.pairs().len() > 0,
        n > 0,
    ensures
        r is Ok,
        (fields@.contains_key("num_flow_partitions"@) && numbers::parse_u16_spec(
            fields@["num_flow_partitions"@],
        ) == Ok::<u16, numbers::IntError>(n)) ==> r->Ok_0.num_flow_partitions == n,
        (fields@.contains_key("num_budget_partitions"@) && numbers::parse_u16_spec(
            fields@["num_budget_partitions"@],
        ) == Ok::<u16, numbers::IntError>(n)) ==> r->Ok_0.num_budget_partitions == n,
        (fields@.contains_key("num_quota_partitions"@) && numbers::parse_u16_spec(
            fields@["num_quota_partitions"@],
        ) == Ok::<u16, numbers::IntError>(n)) ==> r->Ok_0.num_quota_partitions == n,
        !fields@.contains_key("num_flow_partitions"@) ==> r->Ok_0.num_flow_partitions == 256,
        !fields@.contains_key("num_budget_partitions"@) ==> r->Ok_0.num_budget_partitions == 32,
        !fields@.contains_key("num_quota_partitions"@) ==> r->Ok_0.num_quota_partitions == 32,
{
}

} // verus!
