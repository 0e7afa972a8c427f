//! What a refusal says: the word that is not known, the field that is wrong, and why.

use vstd::prelude::*;
use vstd::string::*;

use crate::admin;
use crate::admin::{ClaimForWorkerResponse, FlowFabricAdminClient};
use crate::config::WorkerConfig;
use crate::cursor::{
    tail_stream, validate_stream_read_count, validate_tail_cursor, StreamCursor, TailRequest,
};
use crate::engine_error::{
    ConflictKind, EdgeSnapshot, EngineError, TransportSource, ValidationKind,
};
use crate::error;
use crate::error::ScriptError;
use crate::field_map::FieldMap;
use crate::fields::FromFcallResult;
use crate::functions::budget::{
    ff_create_budget, ff_report_usage_and_check, BudgetOpKeys, CreateBudgetArgs,
    CreateBudgetResult, ReportUsageArgs,
};
use crate::functions::execution::{parse_attempt_type, parse_public_state, FailExecutionResult};
use crate::functions::execution::{AttemptType, PublicState};
use crate::functions::flow::{CreateFlowResult, ResolveDependencyResult, SetEdgeGroupPolicyResult};
use crate::functions::lease::{MarkLeaseExpiredResult, RenewLeaseResult, RevokeLeaseResult};
use crate::functions::quota::{CheckAdmissionResult, CreateQuotaPolicyResult};
use crate::functions::suspension::{RotateWaitpointHmacSecretOutcome, WaitpointHmacKids};
use crate::functions::worker_registry::{HeartbeatWorkerReply, RegisterWorkerOutcome};
use crate::grants;
use crate::grants::{ClaimGrant, ReclaimExecutionArgs, ReclaimGrant};
use crate::ids;
use crate::keys::ExecKeyContext;
use crate::laws::messages::unread;
use crate::laws::written;
use crate::laws::written::written;
use crate::layer::circuit_breaker::synthetic_open_error;
use crate::layer::hooks::Admit;
use crate::layer::ratelimit::verdict;
use crate::numbers;
use crate::numbers::IntError;
use crate::partition::{Partition, PartitionConfig};
use crate::preamble;
use crate::preamble::{Asking, Claiming, Pinged};
use crate::reply::{
    parse_fail_result, parse_report_usage_result, parse_signal_result, parse_success_result,
    parse_suspend_result, FailOutcome, ReportUsageResult, SignalOutcome, SuspendOutcome,
};
use crate::result::FcallResult;
use crate::runtime::RuntimeError;
use crate::sdk_error;
use crate::sdk_error::{BackendError, SdkError};
use crate::shown;
use crate::signal_bridge::SignalBridgeError;
use crate::snapshot::{check_co_location, resolve_flow_id};
use crate::stream::{parse_entries, parse_fields_kv, FieldShape, StreamFrame};
use crate::stream_tail::parse_xread_reply;
use crate::suspend::TimeoutBehavior;
use crate::task;
use crate::text;
use crate::value;
use crate::value::Value;
use crate::wire::Call;
use crate::worker;
use crate::worker::check_lanes;

verus! {

/// Whether an error says of an operation that a field of it, or the whole, is wrong.
pub open spec fn wrong(
    x: SdkError,
    place: Seq<char>,
    name: Option<Seq<char>>,
    words: Seq<char>,
) -> bool {
    x matches SdkError::Config { context, field, message } && context@ == place && text::opt_text(
        field,
    ) == name && message@ == words
}

/// Whether a client's error says of a reader that a reply could not be read.
pub open spec fn not_read(x: SdkError, reader: Seq<char>, words: Seq<char>) -> bool {
    x@ == sdk_error::of_script(
        ScriptError::Parse { fcall: reader, execution_id: None, message: words },
    )
}

// ── Words ──

/// A word in the place of an outcome that is none is told.
pub proof fn law_unknown_outcomes_are_told(
    raw: &Value,
    status: Seq<char>,
    w: Seq<char>,
    a: Result<FailExecutionResult, ScriptError>,
    b: Result<ResolveDependencyResult, ScriptError>,
    c: Result<SetEdgeGroupPolicyResult, ScriptError>,
    d: Result<RegisterWorkerOutcome, ScriptError>,
    e: Result<HeartbeatWorkerReply, ScriptError>,
    g: Result<RotateWaitpointHmacSecretOutcome, ScriptError>,
)
    requires
        call_ensures(FailExecutionResult::from_fcall_result, (raw,), a),
        call_ensures(ResolveDependencyResult::from_fcall_result, (raw,), b),
        call_ensures(SetEdgeGroupPolicyResult::from_fcall_result, (raw,), c),
        call_ensures(RegisterWorkerOutcome::from_fcall_result, (raw,), d),
        call_ensures(HeartbeatWorkerReply::from_fcall_result, (raw,), e),
        call_ensures(RotateWaitpointHmacSecretOutcome::from_fcall_result, (raw,), g),
        written(*raw, status, seq![w]),
    ensures
        (w != "retry_scheduled"@ && w != "terminal_failed"@) ==> (a matches Err(x) && unread(
            x,
            "ff_fail_execution"@,
            "unexpected fail sub-status: "@ + w,
        )),
        (w != "satisfied"@ && w != "impossible"@ && w != "already_resolved"@) ==> (b matches Err(x)
            && unread(x, "ff_resolve_dependency"@, "unknown resolve status: "@ + w)),
        (w != "set"@ && w != "already_set"@) ==> (c matches Err(x) && unread(
            x,
            "ff_set_edge_group_policy"@,
            "unexpected status: "@ + w,
        )),
        (w != "registered"@ && w != "refreshed"@) ==> (d matches Err(x) && unread(
            x,
            "ff_register_worker"@,
            "unexpected outcome tag: "@ + text::debug_text(w),
        )),
        (w != "not_registered"@ && w != "refreshed"@) ==> (e matches Err(x) && unread(
            x,
            "ff_heartbeat_worker"@,
            "unexpected outcome tag: "@ + text::debug_text(w),
        )),
        (w != "rotated"@ && w != "noop"@) ==> (g matches Err(x) && unread(
            x,
            "ff_rotate_waitpoint_hmac_secret_outcome"@,
            "unexpected rotation outcome: "@ + w,
        )),
{
    let f = written::lemma_written(*raw, status, seq![w]);
    assert(f.field(0) == seq![w][0]);
}

/// A status that is none is told.
pub proof fn law_unknown_statuses_are_told(
    raw: &Value,
    s: Seq<char>,
    fields: Seq<Seq<char>>,
    a: Result<MarkLeaseExpiredResult, ScriptError>,
    b: Result<RevokeLeaseResult, ScriptError>,
    c: Result<ReportUsageResult, ScriptError>,
    d: Result<CreateFlowResult, ScriptError>,
    e: Result<CreateBudgetResult, ScriptError>,
    g: Result<CreateQuotaPolicyResult, ScriptError>,
)
    requires
        call_ensures(MarkLeaseExpiredResult::from_fcall_result, (raw,), a),
        call_ensures(RevokeLeaseResult::from_fcall_result, (raw,), b),
        call_ensures(ReportUsageResult::from_fcall_result, (raw,), c),
        call_ensures(CreateFlowResult::from_fcall_result, (raw,), d),
        call_ensures(CreateBudgetResult::from_fcall_result, (raw,), e),
        call_ensures(CreateQuotaPolicyResult::from_fcall_result, (raw,), g),
        written(*raw, s, fields),
        fields.len() > 0,
        s != "OK"@,
        s != "ALREADY_SATISFIED"@,
    ensures
        a matches Err(x) && unread(
            x,
            "ff_mark_lease_expired_if_due"@,
            "unexpected status from ff_mark_lease_expired_if_due: "@ + s,
        ),
        b matches Err(x) && unread(
            x,
            "ff_revoke_lease"@,
            "unexpected status from ff_revoke_lease: "@ + s,
        ),
        (s != "ALREADY_APPLIED"@ && s != "SOFT_BREACH"@ && s != "HARD_BREACH"@) ==> (c matches Err(x)
            && unread(x, "ff_report_usage_and_check"@, "unknown budget status: "@ + s)),
        ids::flow_id_of(fields[0]) is Ok ==> (d matches Err(x) && unread(
            x,
            "ff_create_flow"@,
            "unexpected status: "@ + s,
        )),
        ids::budget_id_of(fields[0]) is Ok ==> (e matches Err(x) && unread(
            x,
            "ff_create_budget"@,
            "unexpected status: "@ + s,
        )),
        ids::quota_policy_id_of(fields[0]) is Ok ==> (g matches Err(x) && unread(
            x,
            "ff_create_quota_policy"@,
            "unexpected status: "@ + s,
        )),
{
    let f = written::lemma_written(*raw, s, fields);
    assert(f.field(0) == fields[0]);
}

/// A time that is none is told as it stands in the reply.
pub proof fn law_bad_times_are_told(
    raw: &Value,
    status: Seq<char>,
    w: Seq<char>,
    t: Seq<char>,
    r: Result<RenewLeaseResult, ScriptError>,
    h: Result<HeartbeatWorkerReply, ScriptError>,
)
    requires
        call_ensures(RenewLeaseResult::from_fcall_result, (raw,), r),
        call_ensures(HeartbeatWorkerReply::from_fcall_result, (raw,), h),
        written(*raw, status, seq![w, t]),
    ensures
        numbers::parse_i64_spec(w) is Err ==> (r matches Err(x) && unread(
            x,
            "ff_renew_lease"@,
            "invalid expires_at: "@ + w,
        )),
        (w == "refreshed"@ && numbers::parse_u64_spec(t) is Err) ==> (h matches Err(x) && unread(
            x,
            "ff_heartbeat_worker"@,
            "refreshed: ttl_ms not a u64 ("@ + text::debug_text(t) + "): "@
                + numbers::parse_u64_spec(t)->Err_0.text_spec(),
        )),
{
    let f = written::lemma_written(*raw, status, seq![w, t]);
    assert(f.field(0) == seq![w, t][0]);
    assert(f.field(1) == seq![w, t][1]);
    reveal_strlit("refreshed");
    reveal_strlit("not_registered");
    assert("refreshed"@.len() == 9 && "not_registered"@.len() == 14);
}

/// An admission without a known word is refused, and why is told.
pub proof fn law_admissions_are_refused(raw: &Value, r: Result<CheckAdmissionResult, ScriptError>)
    requires
        call_ensures(CheckAdmissionResult::from_fcall_result, (raw,), r),
    ensures
        !(*raw is Array) ==> (r matches Err(x) && unread(
            x,
            "ff_check_admission_and_record"@,
            "expected Array"@,
        )),
        raw matches Value::Array(items) ==> items@.len() == 0 ==> (r matches Err(x) && unread(
            x,
            "ff_check_admission_and_record"@,
            "expected status string"@,
        )),
        raw matches Value::Array(items) ==> forall|w: String|
            items@.len() > 0 && items@[0] == Ok::<Value, error::ServerError>(
                Value::SimpleString(w),
            ) && w@ != "ADMITTED"@ && w@ != "ALREADY_ADMITTED"@ && w@ != "RATE_EXCEEDED"@ && w@
                != "CONCURRENCY_EXCEEDED"@ ==> (r matches Err(x) && unread(
                x,
                "ff_check_admission_and_record"@,
                #[trigger] ("unknown admission status: "@ + w@),
            )),
{
}

/// A word that is the name of no state, or of no kind of attempt, is told.
pub proof fn law_unknown_names_are_told(
    s: &str,
    r: Result<PublicState, ScriptError>,
    q: Result<AttemptType, ScriptError>,
)
    requires
        call_ensures(parse_public_state, (s,), r),
        call_ensures(parse_attempt_type, (s,), q),
    ensures
        r matches Err(x) ==> unread(x, "parse_public_state"@, "unknown public_state: "@ + s@),
        q matches Err(x) ==> unread(x, "parse_attempt_type"@, "unknown attempt_type: "@ + s@),
{
}

// ── Envelopes ──

/// A reply without its envelope is refused, and what stands there instead is told.
pub proof fn law_envelopes_are_told<'a>(raw: &'a Value, r: Result<FcallResult<'a>, ScriptError>)
    requires
        call_ensures(FcallResult::<'a>::parse, (raw,), r),
    ensures
        !(*raw is Array) ==> (r matches Err(x) && unread(
            x,
            "FcallResult::parse"@,
            "expected Array, got \""@ + value::shape_name(*raw)@ + "\""@,
        )),
        raw matches Value::Array(items) ==> items@.len() == 0 ==> (r matches Err(x) && unread(
            x,
            "FcallResult::parse"@,
            "empty FCALL result array"@,
        )),
        raw matches Value::Array(items) ==> items@.len() > 0 ==> (items@[0] matches Ok(v) ==> !(
        v is Int) ==> (r matches Err(x) && unread(
            x,
            "FcallResult::parse"@,
            "expected Int at index 0, got "@ + ("Some(Ok("@ + shown::shown(v) + "))"@),
        ))),
        raw matches Value::Array(items) ==> items@.len() > 0 ==> (items@[0] matches Err(v) ==> (
        r matches Err(x) && unread(
            x,
            "FcallResult::parse"@,
            "expected Int at index 0, got "@ + ("Some(Err("@ + v.text@ + "))"@),
        ))),
{
}

/// A refusal with a code that is not known is told as such.
pub proof fn law_unknown_codes_are_told<'a>(
    f: FcallResult<'a>,
    r: Result<FcallResult<'a>, ScriptError>,
)
    requires
        call_ensures(FcallResult::<'a>::into_success, (f,), r),
    ensures
        f.success ==> r is Ok,
        (!f.success && error::error_of_code(f.status@) is None) ==> (r matches Err(x) && unread(
            x,
            "FcallResult::into_success"@,
            "unknown error code: "@ + f.status@,
        )),
{
}

/// What a task reads of its calls and cannot make out is told with the call.
pub proof fn law_unread_replies_are_told(
    raw: &Value,
    name: &str,
    sid: ids::SuspensionId,
    wid: ids::WaitpointId,
    key: String,
    a: Result<(), SdkError>,
    b: Result<FailOutcome, SdkError>,
    c: Result<SignalOutcome, SdkError>,
    d: Result<ReportUsageResult, SdkError>,
    e: Result<SuspendOutcome, SdkError>,
)
    requires
        call_ensures(parse_success_result, (raw, name), a),
        call_ensures(parse_fail_result, (raw,), b),
        call_ensures(parse_signal_result, (raw,), c),
        call_ensures(parse_report_usage_result, (raw,), d),
        call_ensures(parse_suspend_result, (raw, sid, wid, key), e),
    ensures
        !(*raw is Array) ==> {
            &&& a matches Err(x) && not_read(
                x,
                "parse_success_result"@,
                name@ + ": expected Array, got non-array"@,
            )
            &&& b matches Err(x) && not_read(
                x,
                "parse_fail_result"@,
                "ff_fail_execution: expected Array"@,
            )
            &&& c matches Err(x) && not_read(
                x,
                "parse_signal_result"@,
                "ff_deliver_signal: expected Array"@,
            )
            &&& d matches Err(x) && not_read(
                x,
                "parse_report_usage_result"@,
                "ff_report_usage_and_check: expected Array"@,
            )
            &&& e matches Err(x) && not_read(
                x,
                "parse_suspend_result"@,
                "ff_suspend_execution: expected Array"@,
            )
        },
        raw matches Value::Array(items) ==> items@.len() == 0 ==> {
            &&& a matches Err(x) && not_read(
                x,
                "parse_success_result"@,
                name@ + ": empty result array"@,
            )
            &&& b matches Err(x) && not_read(
                x,
                "parse_fail_result"@,
                "ff_fail_execution: bad status code"@,
            )
            &&& c matches Err(x) && not_read(
                x,
                "parse_signal_result"@,
                "ff_deliver_signal: bad status code"@,
            )
            &&& d matches Err(x) && not_read(
                x,
                "parse_report_usage_result"@,
                "ff_report_usage_and_check: expected Int status code"@,
            )
            &&& e matches Err(x) && not_read(
                x,
                "parse_suspend_result"@,
                "ff_suspend_execution: bad status code"@,
            )
        },
        raw matches Value::Array(items) ==> (items@.len() > 0 && !(items@[0] matches Ok(
            Value::Int(_),
        ))) ==> (a matches Err(x) && not_read(
            x,
            "parse_success_result"@,
            name@ + ": expected Int at index 0"@,
        )),
{
}

/// A number of a breach that is missing, below zero or none is told with its place.
pub proof fn law_bad_usage_is_told(
    items: &Vec<value::Item>,
    i: usize,
    sub: &str,
    name: &str,
    r: Result<u64, SdkError>,
)
    requires
        call_ensures(crate::reply::parse_usage_u64, (items, i, sub, name), r),
    ensures
        ({
            let place = "ff_report_usage_and_check "@ + sub@ + ": "@ + name@ + " (index "@
                + numbers::decimal(i as int) + ") "@;
            &&& i >= items@.len() ==> (r matches Err(x) && not_read(
                x,
                "parse_usage_u64"@,
                place + "missing from response"@,
            ))
            &&& (i < items@.len() && items@[i as int] is Err) ==> (r matches Err(x) && not_read(
                x,
                "parse_usage_u64"@,
                place + "wrong wire type (expected Int or String)"@,
            ))
            &&& (i < items@.len() && (items@[i as int] matches Ok(Value::Int(n)) && n < 0)) ==> (
            r matches Err(x) && not_read(
                x,
                "parse_usage_u64"@,
                place + ("negative int "@ + numbers::decimal(
                    items@[i as int]->Ok_0->Int_0 as int,
                ) + " cannot be u64"@),
            ))
            &&& (i < items@.len() && (items@[i as int] matches Ok(Value::SimpleString(t))
                && numbers::parse_u64_spec(t@) is Err)) ==> (r matches Err(x) && not_read(
                x,
                "parse_usage_u64"@,
                place + ("not a u64 string: "@ + text::debug_text(
                    items@[i as int]->Ok_0->SimpleString_0@,
                )),
            ))
        }),
{
}

// ── Budgets ──

/// Too many dimensions, and lists of another length, are refused before anything is sent.
pub proof fn law_bad_budgets_are_told(
    k: &BudgetOpKeys,
    args: &ReportUsageArgs,
    r: Result<Call, ScriptError>,
)
    requires
        call_ensures(ff_report_usage_and_check, (k, args), r),
    ensures
        args.dimensions@.len() > 64 ==> (r matches Err(x) && unread(
            x,
            "ff_report_usage_and_check"@,
            "too_many_dimensions: limit="@ + numbers::decimal(64) + ", got="@ + numbers::decimal(
                args.dimensions@.len() as int,
            ),
        )),
        (args.dimensions@.len() <= 64 && args.deltas@.len() != args.dimensions@.len()) ==> (
        r matches Err(x) && unread(
            x,
            "ff_report_usage_and_check"@,
            "dimension_delta_array_mismatch: dimensions="@ + numbers::decimal(
                args.dimensions@.len() as int,
            ) + " deltas="@ + numbers::decimal(args.deltas@.len() as int),
        )),
{
}

// ── Operations ──

/// Why a stream is not read or followed is told with the field.
pub proof fn law_bad_reads_are_told(
    n: u64,
    c: &StreamCursor,
    r: Result<(), SdkError>,
    q: Result<(), SdkError>,
)
    requires
        call_ensures(validate_stream_read_count, (n,), r),
        call_ensures(validate_tail_cursor, (c,), q),
    ensures
        n == 0 ==> (r matches Err(x) && wrong(
            x,
            "read_stream_frames"@,
            Some("count_limit"@),
            "count_limit must be >= 1"@,
        )),
        n > 10_000 ==> (r matches Err(x) && wrong(
            x,
            "read_stream_frames"@,
            Some("count_limit"@),
            "count_limit exceeds STREAM_READ_HARD_CAP (10000)"@,
        )),
        q matches Err(x) ==> wrong(
            x,
            "tail_stream"@,
            Some("after"@),
            "XREAD cursor must be a concrete entry id; pass StreamCursor::from_beginning() to start from the beginning"@,
        ),
{
}

/// A grant that does not fit is told with both sides.
pub proof fn law_bad_grants_are_told(
    g: &ReclaimGrant,
    args: &ReclaimExecutionArgs,
    now: u64,
    r: Result<(), SdkError>,
    context: &str,
    read: Result<Partition, String>,
    p: Result<Partition, SdkError>,
)
    requires
        call_ensures(grants::validate_reclaim_grant_against_args, (g, args, now), r),
        call_ensures(grants::partition_as_read, (context, read), p),
    ensures
        g.execution_id@ != args.execution_id@ ==> (r matches Err(x) && wrong(
            x,
            "claim_from_reclaim_grant"@,
            Some("execution_id"@),
            "grant.execution_id ("@ + g.execution_id@ + ") does not match args.execution_id ("@
                + args.execution_id@ + ")"@,
        )),
        (g.execution_id@ == args.execution_id@ && g.lane_id@ != args.lane_id@) ==> (
        r matches Err(x) && wrong(
            x,
            "claim_from_reclaim_grant"@,
            Some("lane_id"@),
            "grant.lane_id ("@ + g.lane_id@ + ") does not match args.lane_id ("@ + args.lane_id@
                + ")"@,
        )),
        (g.execution_id@ == args.execution_id@ && g.lane_id@ == args.lane_id@ && g.expires_at_ms
            <= now) ==> (r matches Err(x) && wrong(
            x,
            "claim_from_reclaim_grant"@,
            Some("expires_at_ms"@),
            "grant expired: expires_at_ms="@ + numbers::decimal(g.expires_at_ms as int)
                + " now_ms="@ + numbers::decimal(now as int),
        )),
        (g.execution_id@ == args.execution_id@ && g.lane_id@ == args.lane_id@ && g.expires_at_ms
            > now) ==> r is Ok,
        read matches Err(e) ==> (p matches Err(x) && wrong(
            x,
            context@,
            Some("partition_key"@),
            e@,
        )),
        read matches Ok(q) ==> p == Ok::<Partition, SdkError>(q),
{
}

/// Why an address or a token is refused is told.
pub proof fn law_bad_clients_are_told(
    base: &str,
    e: &str,
    r: SdkError,
    q: Result<String, SdkError>,
)
    requires
        call_ensures(admin::invalid_base_url, (base, e), r),
        call_ensures(admin::claim_url_of, (base, None::<String>), q),
    ensures
        wrong(
            r,
            "admin_client"@,
            Some("base_url"@),
            "invalid base_url '"@ + base@ + "': "@ + e@,
        ),
        q matches Err(x) && wrong(
            x,
            "admin_client"@,
            Some("base_url"@),
            "base_url cannot be a base URL: '"@ + base@ + "'"@,
        ),
{
}

/// Why a worker does not start is told: no lane, a capability, or the backend.
pub proof fn law_bad_workers_are_told(
    c: &WorkerConfig,
    one: String,
    caps: &Vec<String>,
    r: Result<(), SdkError>,
    q: Result<(), SdkError>,
)
    requires
        call_ensures(check_lanes, (c,), r),
        call_ensures(preamble::check_capabilities, (caps,), q),
        caps@.len() > 0,
        one == caps@[0],
    ensures
        r matches Err(x) ==> wrong(x, "worker_config"@, None, "at least one lane is required"@),
        one@.len() == 0 ==> (q matches Err(x) && wrong(
            x,
            "worker_config"@,
            Some("capabilities"@),
            "capability token must not be empty"@,
        )),
        one@.contains(',') ==> (q matches Err(x) && wrong(
            x,
            "worker_config"@,
            Some("capabilities"@),
            "capability token may not contain ',' (CSV delimiter): "@ + text::debug_text(one@),
        )),
        (!one@.contains(',') && one@.contains(' ')) ==> (q matches Err(x) && wrong(
            x,
            "worker_config"@,
            Some("capabilities"@),
            "capability token must not contain whitespace or control characters: "@
                + text::debug_text(one@),
        )),
{
    let t = text::texts(caps@);
    assert(t.len() == caps@.len() && t[0] == one@);
    if one@.contains(' ') {
        let i = choose|i: int| 0 <= i < one@.len() && one@[i] == ' ';
        assert(preamble::unfit(one@[i]));
    }
}

/// Why a worker does not come to its start is told, with the stage.
pub proof fn law_bad_starts_are_told(
    a: Pinged,
    pong: Result<String, BackendError>,
    r: Result<Claiming, SdkError>,
    b: Claiming,
    set: Result<Option<String>, BackendError>,
    q: Result<Asking, SdkError>,
    read: Result<FieldMap, BackendError>,
    p: Result<PartitionConfig, SdkError>,
)
    requires
        call_ensures(Pinged::answered, (a, pong), r),
        call_ensures(Claiming::answered, (b, set), q),
        call_ensures(preamble::read_partition_config, (read,), p),
    ensures
        pong matches Err(e) ==> (r matches Err(SdkError::BackendContext { source, context })
            && source@ == e@ && context@ == "PING failed"@),
        (pong matches Ok(w) && w@ != "PONG"@) ==> (r matches Err(x) && wrong(
            x,
            "worker_connect"@,
            None,
            "unexpected PING response: "@ + pong->Ok_0@,
        )),
        set matches Err(e) ==> (q matches Err(SdkError::BackendContext { source, context })
            && source@ == e@ && context@ == "SET NX worker alive key"@),
        set matches Ok(None) ==> (q matches Err(x) && wrong(
            x,
            "worker_connect"@,
            Some("worker_instance_id"@),
            "duplicate worker_instance_id '"@ + b.instance_spec()
                + "': another process already holds "@ + ("ff:worker:"@ + b.instance_spec()
                + ":alive"@),
        )),
        read matches Err(e) ==> (p matches Err(SdkError::BackendContext { source, context })
            && source@ == e@ && context@ == "HGETALL ff:config:partitions"@),
        (read matches Ok(m) && m.pairs().len() == 0) ==> (p matches Err(x) && wrong(
            x,
            "read_partition_config"@,
            None,
            "ff:config:partitions not found in Valkey"@,
        )),
{
}

/// The published configuration is asked for by its key.
pub proof fn law_configuration_is_asked_for(a: &Asking, w: Vec<String>)
    requires
        call_ensures(Asking::command, (a,), w),
    ensures
        w@.len() == 2,
        w@[0]@ == "HGETALL"@,
        w@[1]@ == "ff:config:partitions"@,
{
    let t = text::texts(w@);
    assert(t.len() == w@.len());
    assert(t[0] == w@[0]@ && t[1] == w@[1]@);
}

// ── What errors say ──

/// What is wrong with a number.
pub proof fn law_number_errors_say(e: IntError, r: &'static str)
    requires
        call_ensures(IntError::text, (e,), r),
    ensures
        e is Empty ==> r@ == "cannot parse integer from empty string"@,
        e is InvalidDigit ==> r@ == "invalid digit found in string"@,
        e is PosOverflow ==> r@ == "number too large to fit in target type"@,
        e is NegOverflow ==> r@ == "number too small to fit in target type"@,
{
}

/// What a client's error says: where it comes from, then what it is.
pub proof fn law_client_errors_say(e: &SdkError, r: String)
    requires
        call_ensures(SdkError::<String>::text, (e,), r),
    ensures
        *e matches SdkError::Backend(b) ==> r@ == "backend: "@ + ("valkey backend: "@
            + b.kind.name_spec()@ + ": "@ + b.message@),
        *e matches SdkError::BackendContext { source, context } ==> r@ == "backend: "@ + context@
            + ": "@ + ("valkey backend: "@ + source.kind.name_spec()@ + ": "@ + source.message@),
        *e matches SdkError::Engine(x) ==> r@ == "engine: "@ + (*x)@.text_spec(),
        *e is WorkerAtCapacity ==> r@ == "worker at capacity: max_concurrent_tasks reached"@,
        *e matches SdkError::Http { source, context } ==> r@ == "http: "@ + context@ + ": "@
            + source.text@,
        *e matches SdkError::AdminApi { status, message, kind, retryable, raw_body } ==> r@
            == "admin api: "@ + numbers::decimal(status as int) + ": "@ + message@,
{
}

/// What a fault of the loop says.
pub proof fn law_loop_faults_say(e: &RuntimeError, r: String)
    requires
        call_ensures(RuntimeError::<String>::text, (e,), r),
    ensures
        *e matches RuntimeError::MissingState { state_type } ==> r@
            == "extractor: missing state of type "@ + state_type@,
        *e matches RuntimeError::PayloadDecode(w) ==> r@ == "extractor: payload decode failed: "@
            + w@,
        *e matches RuntimeError::NoHandler { kind } ==> r@
            == "runtime: no handler registered for execution_kind "@ + text::debug_text(kind@),
{
}

/// What a refused callback says.
pub proof fn law_callback_errors_say(e: &SignalBridgeError, r: String)
    requires
        call_ensures(SignalBridgeError::<SdkError>::text, (e,), r),
    ensures
        *e is UnknownWaitpoint ==> r@ == "unknown waitpoint (consumed, expired, or unknown id)"@,
        *e is TokenMismatch ==> r@ == "token mismatch (presented HMAC does not verify)"@,
        *e matches SignalBridgeError::Backend(x) ==> r@ == "backend: "@ + x@.text_spec(),
{
}

/// What a call that a layer turned away says.
pub proof fn law_layers_say(
    method: &'static str,
    key: &str,
    r: Admit,
    e: EngineError,
)
    requires
        call_ensures(verdict, (method, key, Some(false)), r),
        call_ensures(synthetic_open_error, (), e),
    ensures
        r matches Admit::Reject(x) && (*x matches EngineError::Validation { kind, detail }
            && kind is InvalidInput && detail@ == "rate-limit: method "@ + method@ + " bucket "@
            + key@ + " exhausted"@),
        e matches EngineError::Transport { backend, source: TransportSource::Other(t) } && t@
            == "circuit open"@ && backend@ == "ff-sdk-layer"@,
{
}

/// How a value of one part is shown.
pub proof fn law_values_are_shown(v: &Value, r: String)
    requires
        call_ensures(shown::show, (v,), r),
    ensures
        *v is Nil ==> r@ == "nil"@,
        *v is Okay ==> r@ == "ok"@,
        *v matches Value::Int(n) ==> r@ == "int("@ + numbers::decimal(n as int) + ")"@,
        *v matches Value::SimpleString(s) ==> r@ == "simple-string("@ + text::debug_text(s@) + ")"@,
        *v matches Value::Boolean(b) ==> r@ == (if b { "boolean(true)"@ } else {
            "boolean(false)"@
        }),
        *v matches Value::Double(d) ==> r@ == "double("@ + d@ + ")"@,
        *v matches Value::BigNumber(n) ==> r@ == "big-number("@ + n@ + ")"@,
        *v matches Value::Attribute(x) ==> r@ == "attribute("@ + shown::shown(*x) + ")"@,
        *v matches Value::VerbatimString { format, text: t } ==> r@ == "verbatim-string("@
            + format@ + ","@ + text::debug_text(t@) + ")"@,
{
}

// ── More of what is refused ──

/// What an engine error says of a conflict, of contention, of a limit, and of a wait.
pub proof fn law_engine_errors_say_more(e: &EngineError, r: String)
    requires
        call_ensures(EngineError::<String>::text, (e,), r),
    ensures
        *e matches EngineError::Contention(k) ==> r@ == "contention: "@ + k@.text_spec(),
        *e matches EngineError::Conflict(k) ==> r@ == "conflict: "@ + k@.text_spec(),
        *e is Bug ==> r@ == "bug: AttemptNotInCreatedState"@,
        *e matches EngineError::ResourceExhausted { pool, max, retry_after_ms } ==> r@
            == "resource exhausted: pool="@ + pool@ + " max="@ + numbers::decimal(max as int),
        *e matches EngineError::Timeout { op, elapsed } ==> r@ == "timeout: op="@ + op@
            + " elapsed="@ + elapsed@,
        *e is StreamDisconnected ==> r@ == "stream disconnected; reconnect with returned cursor"@,
        *e is StreamBackpressure ==> r@ == "stream backpressure; events dropped"@,
{
}

/// What a conflict says of the key or the edge that is there.
pub proof fn law_conflicts_say(k: &ConflictKind, r: String)
    requires
        call_ensures(ConflictKind::<String>::text, (k,), r),
    ensures
        *k matches ConflictKind::RotationConflict(kid) ==> r@ == "RotationConflict("@
            + text::debug_text(kid@) + ")"@,
        *k matches ConflictKind::DependencyAlreadyExists { existing } ==> r@
            == "DependencyAlreadyExists { existing: "@ + existing@.text_spec() + " }"@,
{
}

/// An edge is told with every field under its name.
pub proof fn law_edges_are_told(e: &EdgeSnapshot, r: String)
    requires
        call_ensures(EdgeSnapshot::<String>::text, (e,), r),
        e.data_passing_ref is None,
    ensures
        r@ == "EdgeSnapshot { edge_id: EdgeId("@ + e.edge_id@ + "), flow_id: FlowId("@ + e.flow_id@
            + "), upstream_execution_id: ExecutionId("@ + text::debug_text(
            e.upstream_execution_id@,
        ) + "), downstream_execution_id: ExecutionId("@ + text::debug_text(
            e.downstream_execution_id@,
        ) + "), dependency_kind: "@ + text::debug_text(e.dependency_kind@)
            + ", satisfaction_condition: "@ + text::debug_text(e.satisfaction_condition@)
            + ", data_passing_ref: "@ + "None"@ + ", edge_state: "@ + text::debug_text(
            e.edge_state@,
        ) + ", created_at: TimestampMs("@ + numbers::decimal(e.created_at as int)
            + "), created_by: "@ + text::debug_text(e.created_by@) + " }"@,
{
}

/// Why a token is refused is told.
pub proof fn law_bad_tokens_are_told(
    base: String,
    token: &str,
    r: Result<FlowFabricAdminClient, SdkError>,
)
    requires
        call_ensures(FlowFabricAdminClient::with_token, (base, token), r),
    ensures
        token@.len() == 0 ==> (r matches Err(x) && wrong(
            x,
            "admin_client"@,
            Some("bearer_token"@),
            "is empty or all-whitespace; use FlowFabricAdminClient::new for unauthenticated access"@,
        )),
        (r is Err && !text::blank(token@)) ==> (r matches Err(x) && wrong(
            x,
            "admin_client"@,
            Some("bearer_token"@),
            "contains characters not valid in an HTTP header"@,
        )),
{
}

/// An answer that is no grant is told as malformed, and is not to be tried again.
pub proof fn law_bad_answers_are_told(
    a: ClaimForWorkerResponse,
    r: Result<ClaimGrant, SdkError>,
)
    requires
        call_ensures(ClaimForWorkerResponse::into_grant, (a,), r),
    ensures
        ids::execution_id_of(a.execution_id@) matches Err(e) ==> (r matches Err(
            SdkError::AdminApi { status, message, kind, retryable, raw_body },
        ) && status == 200 && text::opt_text(kind) == Some("malformed_response"@) && retryable
            == Some(false) && message@
            == "claim_for_worker: server returned malformed execution_id '"@ + a.execution_id@
            + "': "@ + e),
        (ids::execution_id_of(a.execution_id@) is Ok && a.partition_family@ != "flow"@
            && a.partition_family@ != "execution"@ && a.partition_family@ != "budget"@
            && a.partition_family@ != "quota"@) ==> (r matches Err(
            SdkError::AdminApi { status, message, kind, retryable, raw_body },
        ) && status == 200 && text::opt_text(kind) == Some("malformed_response"@) && retryable
            == Some(false) && message@ == "claim_for_worker: unknown partition_family '"@
            + a.partition_family@ + "'"@),
{
}

/// Too long a wait is refused before anything else of a request to follow a stream.
pub proof fn law_long_waits_are_told(
    k: &ExecKeyContext,
    i: ids::AttemptIndex,
    after: &StreamCursor,
    wait: u64,
    n: u64,
    r: Result<TailRequest, SdkError>,
)
    requires
        call_ensures(tail_stream, (k, i, after, wait, n), r),
        wait > 30_000,
    ensures
        r matches Err(x) && wrong(
            x,
            "tail_stream"@,
            Some("block_ms"@),
            "exceeds 30000ms ceiling"@,
        ),
{
}

/// A flow that strayed is told with both partitions.
pub proof fn law_strayed_flows_are_told(
    id: ids::FlowId,
    index: u16,
    at: u16,
    r: Result<ids::FlowId, EngineError>,
)
    requires
        call_ensures(check_co_location, (id, index, at), r),
        index != at,
    ensures
        r matches Err(EngineError::Validation { kind, detail }) && kind is Corruption && detail@
            == "list_edges: exec_core: flow_id: '"@ + id@ + "' partition "@ + numbers::decimal(
            at as int,
        ) + " does not match execution partition "@ + numbers::decimal(index as int)
            + " (co-location violation; key corruption?)"@,
{
}

/// A flow that could not be asked for, or is none, is told.
pub proof fn law_bad_flows_are_told(
    eid: &ids::ExecutionId,
    c: &PartitionConfig,
    reply: Result<Option<String>, BackendError>,
    r: Result<Option<ids::FlowId>, SdkError>,
)
    requires
        c.num_flow_partitions > 0,
        call_ensures(resolve_flow_id, (eid, c, reply), r),
    ensures
        reply matches Err(e) ==> (r matches Err(SdkError::BackendContext { source, context })
            && source@ == e@ && context@ == "list_edges: HGET exec_core.flow_id"@),
        (reply matches Ok(Some(s)) && s@.len() > 0 && ids::flow_id_of(s@) is Err) ==> (
        r matches Err(x) && x@ == sdk_error::of_engine(
            EngineError::Validation {
                kind: ValidationKind::Corruption,
                detail: "list_edges: exec_core: flow_id: '"@ + reply->Ok_0->0@
                    + "' is not a valid UUID (key corruption?): "@ + ids::flow_id_of(
                    reply->Ok_0->0@,
                )->Err_0,
            },
        )),
{
}

/// Lists of limits of another length than the list of dimensions are refused.
pub proof fn law_bad_limits_are_told(
    k: &BudgetOpKeys,
    resets: &str,
    index: &str,
    args: &CreateBudgetArgs,
    r: Result<Call, ScriptError>,
)
    requires
        call_ensures(ff_create_budget, (k, resets, index, args), r),
        args.dimensions@.len() <= 64,
    ensures
        args.hard_limits@.len() != args.dimensions@.len() ==> (r matches Err(x) && unread(
            x,
            "ff_create_budget"@,
            "dimension_limit_array_mismatch: dimensions="@ + numbers::decimal(
                args.dimensions@.len() as int,
            ) + " hard_limits="@ + numbers::decimal(args.hard_limits@.len() as int),
        )),
        (args.hard_limits@.len() == args.dimensions@.len() && args.soft_limits@.len()
            != args.dimensions@.len()) ==> (r matches Err(x) && unread(
            x,
            "ff_create_budget"@,
            "dimension_limit_array_mismatch: dimensions="@ + numbers::decimal(
                args.dimensions@.len() as int,
            ) + " soft_limits="@ + numbers::decimal(args.soft_limits@.len() as int),
        )),
{
}

/// A list of key names without its length is refused.
pub proof fn law_bad_kid_counts_are_told(
    raw: &Value,
    status: Seq<char>,
    w: Seq<char>,
    n: Seq<char>,
    r: Result<WaitpointHmacKids, ScriptError>,
)
    requires
        call_ensures(WaitpointHmacKids::from_fcall_result, (raw,), r),
        written(*raw, status, seq![w, n]),
        numbers::parse_usize_spec(n) is Err,
    ensures
        r matches Err(x) && unread(
            x,
            "ff_waitpoint_hmac_kids"@,
            "bad verifying count: "@ + numbers::parse_usize_spec(n)->Err_0.text_spec(),
        ),
{
    let f = written::lemma_written(*raw, status, seq![w, n]);
    assert(f.field(1) == seq![w, n][1]);
}

/// Fields of another shape than was asked for are refused, and what is there is told.
pub proof fn law_bad_fields_are_told(
    v: &Value,
    a: Result<FieldMap, ScriptError>,
    b: Result<FieldMap, ScriptError>,
    c: Result<FieldMap, ScriptError>,
)
    requires
        call_ensures(parse_fields_kv, (v, FieldShape::Flat), a),
        call_ensures(parse_fields_kv, (v, FieldShape::Pairs), b),
        call_ensures(parse_fields_kv, (v, FieldShape::Dict), c),
    ensures
        (!(*v is Array) && !(*v is Nil)) ==> {
            &&& a matches Err(x) && unread(
                x,
                "parse_fields_kv"@,
                "stream fields (Flat): expected Array, got "@ + shown::shown(*v),
            )
            &&& b matches Err(x) && unread(
                x,
                "parse_fields_kv"@,
                "stream fields (Pairs): expected Array, got "@ + shown::shown(*v),
            )
        },
        (!(*v is Dict) && !(*v is Nil)) ==> (c matches Err(x) && unread(
            x,
            "parse_fields_kv"@,
            "stream fields (Map): expected Map, got "@ + shown::shown(*v),
        )),
        (*v matches Value::Array(items) && items@.len() % 2 == 1) ==> (a matches Err(x) && unread(
            x,
            "parse_fields_kv"@,
            "stream fields (Flat): odd element count "@ + numbers::decimal(
                v->Array_0@.len() as int,
            ),
        )),
        *v is Nil ==> (a matches Ok(m) && m@ == Map::<Seq<char>, Seq<char>>::empty()),
{
}

/// Entries that are no list, and a stream that is none, are refused.
pub proof fn law_bad_entries_are_told(
    v: &Value,
    shape: FieldShape,
    key: &str,
    a: Result<Vec<StreamFrame>, ScriptError>,
    b: Result<Vec<StreamFrame>, ScriptError>,
)
    requires
        call_ensures(parse_entries, (v, shape), a),
        call_ensures(parse_xread_reply, (v, key), b),
        !(*v is Array),
        !(*v is Nil),
    ensures
        a matches Err(x) && unread(
            x,
            "parse_entries"@,
            "XRANGE/XREAD entries: expected Array, got "@ + shown::shown(*v),
        ),
        !(*v is Dict) ==> (b matches Err(x) && unread(
            x,
            "parse_xread_reply"@,
            "XREAD: expected Map/Nil/Array, got "@ + shown::shown(*v),
        )),
{
}

/// Without a backend to dial none is dialed.
pub proof fn law_bad_dials_are_told(c: &WorkerConfig, r: Result<(), SdkError>)
    requires
        call_ensures(worker::check_dial, (c,), r),
    ensures
        (c.lanes@.len() > 0 && c.backend is Some) ==> r is Ok,
        c.lanes@.len() == 0 ==> (r matches Err(x) && wrong(
            x,
            "worker_config"@,
            None,
            "at least one lane is required"@,
        )),
        (c.lanes@.len() > 0 && c.backend is None) ==> (r matches Err(x) && wrong(
            x,
            "worker_config"@,
            Some("backend"@),
            "a backend to dial is required; use FlowFabricWorker::connect_with for one that is already there"@,
        )),
{
}

/// A word for what happens at a timeout that is none is told.
pub proof fn law_bad_behaviors_are_told(s: &str, r: Result<TimeoutBehavior, String>)
    requires
        call_ensures(TimeoutBehavior::from_str, (s,), r),
    ensures
        r matches Err(e) ==> e@ == "unknown timeout behavior: "@ + s@,
{
}

/// A waitpoint that is none is told, and not passed over.
pub proof fn law_bad_waitpoints_are_told(
    m: &FieldMap,
    i: ids::AttemptIndex,
    r: Result<Option<ids::WaitpointId>, SdkError>,
)
    requires
        call_ensures(task::resume_waitpoint_id_from_suspension, (m, i), r),
    ensures
        r matches Err(x) ==> m@.contains_key("waitpoint_id"@) && ids::waitpoint_id_of(
            m@["waitpoint_id"@],
        ) is Err && not_read(
            x,
            "resume_waitpoint_id_from_suspension"@,
            "resume_signals: suspension_current.waitpoint_id is not a valid UUID: "@
                + ids::waitpoint_id_of(m@["waitpoint_id"@])->Err_0,
        ),
{
    reveal_strlit("");
}

} // verus!
