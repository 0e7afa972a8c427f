//! What cannot be read is not read: a reply of another shape, or with a part that is not what
//! it should be, is an error and never a result.

use vstd::prelude::*;
use vstd::string::*;

use crate::error::ScriptError;
use crate::fields::FromFcallResult;
use crate::functions::budget::{CreateBudgetResult};
use crate::functions::execution::{CancelExecutionResultPartial, ClaimExecutionResultPartial, CompleteExecutionResultPartial, CreateExecutionResult, FailExecutionResult, SetExecutionTagsResult};
use crate::functions::flow::{AddExecutionToFlowResult, CreateFlowResult, ResolveDependencyResult, SetFlowTagsResult, StageDependencyEdgeResult};
use crate::functions::lease::{RenewLeaseResult};
use crate::functions::quota::{CheckAdmissionResult, CreateQuotaPolicyResult};
use crate::functions::scheduling::{ClaimGrantOutcomePartial, IssueClaimGrantResult};
use crate::functions::signal::{BufferSignalResult, ClaimedResumedExecutionPartial, DeliverSignalResult};
use crate::functions::stream::{AppendFrameResult, ReadFramesResult};
use crate::functions::suspension::{CreatePendingWaitpointResult, RotateWaitpointHmacSecretOutcome, SuspendExecutionResult};
use crate::functions::worker_registry::{HeartbeatWorkerReply, RegisterWorkerOutcome};
use crate::ids;
use crate::laws::written;
use crate::laws::written::written;
use crate::numbers;
use crate::reply::{
    parse_fail_result, parse_report_usage_result, parse_signal_result, parse_success_result,
    FailOutcome, ReportUsageResult, SignalOutcome,
};
use crate::sdk_error::SdkError;
use crate::value::Value;

verus! {

/// Whether a reply is no list, or one that does not begin with a number.
pub open spec fn no_envelope(raw: Value) -> bool {
    match raw {
        Value::Array(items) => items@.len() == 0 || !(items@[0] matches Ok(Value::Int(_))),
        _ => true,
    }
}

/// Nor can a reply to a call that a worker makes for its task.
pub proof fn law_task_replies_need_an_envelope(
    raw: &Value,
    name: &str,
    a: Result<(), SdkError>,
    b: Result<FailOutcome, SdkError>,
    c: Result<SignalOutcome, SdkError>,
    d: Result<ReportUsageResult, SdkError>,
)
    requires
        call_ensures(parse_success_result, (raw, name), a),
        call_ensures(parse_fail_result, (raw,), b),
        call_ensures(parse_signal_result, (raw,), c),
        call_ensures(parse_report_usage_result, (raw,), d),
        no_envelope(*raw),
    ensures
        a is Err,
        b is Err,
        c is Err,
        d is Err,
{
}

/// What is no list, is empty, or does not begin with a number cannot be read.
pub proof fn law_claim_execution_result_partial_needs_an_envelope(raw: &Value, r: Result<ClaimExecutionResultPartial, ScriptError>)
    requires
        call_ensures(ClaimExecutionResultPartial::from_fcall_result, (raw,), r),
        no_envelope(*raw),
    ensures
        r matches Err(x) && x is Parse,
{
}

/// What is no list, is empty, or does not begin with a number cannot be read.
pub proof fn law_complete_execution_result_partial_needs_an_envelope(raw: &Value, r: Result<CompleteExecutionResultPartial, ScriptError>)
    requires
        call_ensures(CompleteExecutionResultPartial::from_fcall_result, (raw,), r),
        no_envelope(*raw),
    ensures
        r matches Err(x) && x is Parse,
{
}

/// What is no list, is empty, or does not begin with a number cannot be read.
pub proof fn law_fail_execution_result_needs_an_envelope(raw: &Value, r: Result<FailExecutionResult, ScriptError>)
    requires
        call_ensures(FailExecutionResult::from_fcall_result, (raw,), r),
        no_envelope(*raw),
    ensures
        r matches Err(x) && x is Parse,
{
}

/// What is no list, is empty, or does not begin with a number cannot be read.
pub proof fn law_renew_lease_result_needs_an_envelope(raw: &Value, r: Result<RenewLeaseResult, ScriptError>)
    requires
        call_ensures(RenewLeaseResult::from_fcall_result, (raw,), r),
        no_envelope(*raw),
    ensures
        r matches Err(x) && x is Parse,
{
}

/// What is no list, is empty, or does not begin with a number cannot be read.
pub proof fn law_suspend_execution_result_needs_an_envelope(raw: &Value, r: Result<SuspendExecutionResult, ScriptError>)
    requires
        call_ensures(SuspendExecutionResult::from_fcall_result, (raw,), r),
        no_envelope(*raw),
    ensures
        r matches Err(x) && x is Parse,
{
}

/// What is no list, is empty, or does not begin with a number cannot be read.
pub proof fn law_deliver_signal_result_needs_an_envelope(raw: &Value, r: Result<DeliverSignalResult, ScriptError>)
    requires
        call_ensures(DeliverSignalResult::from_fcall_result, (raw,), r),
        no_envelope(*raw),
    ensures
        r matches Err(x) && x is Parse,
{
}

/// What is no list, is empty, or does not begin with a number cannot be read.
pub proof fn law_claimed_resumed_execution_partial_needs_an_envelope(raw: &Value, r: Result<ClaimedResumedExecutionPartial, ScriptError>)
    requires
        call_ensures(ClaimedResumedExecutionPartial::from_fcall_result, (raw,), r),
        no_envelope(*raw),
    ensures
        r matches Err(x) && x is Parse,
{
}

/// What is no list, is empty, or does not begin with a number cannot be read.
pub proof fn law_resolve_dependency_result_needs_an_envelope(raw: &Value, r: Result<ResolveDependencyResult, ScriptError>)
    requires
        call_ensures(ResolveDependencyResult::from_fcall_result, (raw,), r),
        no_envelope(*raw),
    ensures
        r matches Err(x) && x is Parse,
{
}

/// What is no list, is empty, or does not begin with a number cannot be read.
pub proof fn law_stage_dependency_edge_result_needs_an_envelope(raw: &Value, r: Result<StageDependencyEdgeResult, ScriptError>)
    requires
        call_ensures(StageDependencyEdgeResult::from_fcall_result, (raw,), r),
        no_envelope(*raw),
    ensures
        r matches Err(x) && x is Parse,
{
}

/// What is no list, is empty, or does not begin with a number cannot be read.
pub proof fn law_issue_claim_grant_result_needs_an_envelope(raw: &Value, r: Result<IssueClaimGrantResult, ScriptError>)
    requires
        call_ensures(IssueClaimGrantResult::from_fcall_result, (raw,), r),
        no_envelope(*raw),
    ensures
        r matches Err(x) && x is Parse,
{
}

/// What is no list, is empty, or does not begin with a number cannot be read.
pub proof fn law_append_frame_result_needs_an_envelope(raw: &Value, r: Result<AppendFrameResult, ScriptError>)
    requires
        call_ensures(AppendFrameResult::from_fcall_result, (raw,), r),
        no_envelope(*raw),
    ensures
        r matches Err(x) && x is Parse,
{
}

/// What is no list, is empty, or does not begin with a number cannot be read.
pub proof fn law_read_frames_result_needs_an_envelope(raw: &Value, r: Result<ReadFramesResult, ScriptError>)
    requires
        call_ensures(ReadFramesResult::from_fcall_result, (raw,), r),
        no_envelope(*raw),
    ensures
        r matches Err(x) && x is Parse,
{
}

/// What is no list, is empty, or does not begin with a number cannot be read.
pub proof fn law_register_worker_outcome_needs_an_envelope(raw: &Value, r: Result<RegisterWorkerOutcome, ScriptError>)
    requires
        call_ensures(RegisterWorkerOutcome::from_fcall_result, (raw,), r),
        no_envelope(*raw),
    ensures
        r matches Err(x) && x is Parse,
{
}

/// What is no list cannot be read as an admission.
pub proof fn law_check_admission_result_needs_a_list(raw: &Value, r: Result<CheckAdmissionResult, ScriptError>)
    requires
        call_ensures(CheckAdmissionResult::from_fcall_result, (raw,), r),
        !(*raw is Array),
    ensures
        r matches Err(x) && x is Parse,
{
}

/// What is no list, is empty, or does not begin with a number cannot be read.
pub proof fn law_create_execution_result_needs_an_envelope(raw: &Value, r: Result<CreateExecutionResult, ScriptError>)
    requires
        call_ensures(CreateExecutionResult::from_fcall_result, (raw,), r),
        no_envelope(*raw),
    ensures
        r matches Err(x) && x is Parse,
{
}

/// What is no list, is empty, or does not begin with a number cannot be read.
pub proof fn law_cancel_execution_result_partial_needs_an_envelope(raw: &Value, r: Result<CancelExecutionResultPartial, ScriptError>)
    requires
        call_ensures(CancelExecutionResultPartial::from_fcall_result, (raw,), r),
        no_envelope(*raw),
    ensures
        r matches Err(x) && x is Parse,
{
}

/// A claim of a resumed execution with a part that is not what it should be is not read.
pub proof fn law_resumed_claim_needs_its_parts(
    raw: &Value,
    status: Seq<char>,
    fields: Seq<Seq<char>>,
    r: Result<ClaimedResumedExecutionPartial, ScriptError>,
)
    requires
        call_ensures(ClaimedResumedExecutionPartial::from_fcall_result, (raw,), r),
        written(*raw, status, fields),
        fields.len() == 5,
        r is Ok,
    ensures
        ids::lease_id_of(fields[0]) is Ok,
        numbers::parse_u64_spec(fields[1]) is Ok,
        numbers::parse_i64_spec(fields[2]) is Ok,
        ids::attempt_id_of(fields[3]) is Ok,
        numbers::parse_u32_spec(fields[4]) is Ok,
{
    let f = written::lemma_written(*raw, status, fields);
    assert(f.field(0) == fields[0]);
    assert(f.field(1) == fields[1]);
    assert(f.field(2) == fields[2]);
    assert(f.field(3) == fields[3]);
    assert(f.field(4) == fields[4]);
}

/// A grant with its claim with a part that is not what it should be is not read.
pub proof fn law_grant_and_claim_needs_its_parts(
    raw: &Value,
    status: Seq<char>,
    fields: Seq<Seq<char>>,
    r: Result<ClaimGrantOutcomePartial, ScriptError>,
)
    requires
        call_ensures(ClaimGrantOutcomePartial::from_fcall_result, (raw,), r),
        written(*raw, status, fields),
        fields.len() == 3,
        r is Ok,
    ensures
        ids::lease_id_of(fields[0]) is Ok,
        numbers::parse_u64_spec(fields[1]) is Ok,
        numbers::parse_u32_spec(fields[2]) is Ok,
{
    let f = written::lemma_written(*raw, status, fields);
    assert(f.field(0) == fields[0]);
    assert(f.field(1) == fields[1]);
    assert(f.field(2) == fields[2]);
}

/// A grant with a part that is not what it should be is not read.
pub proof fn law_grant_needs_its_parts(
    raw: &Value,
    status: Seq<char>,
    fields: Seq<Seq<char>>,
    r: Result<IssueClaimGrantResult, ScriptError>,
)
    requires
        call_ensures(IssueClaimGrantResult::from_fcall_result, (raw,), r),
        written(*raw, status, fields),
        fields.len() == 1,
        r is Ok,
    ensures
        ids::execution_id_of(fields[0]) is Ok,
{
    let f = written::lemma_written(*raw, status, fields);
    assert(f.field(0) == fields[0]);
}

/// A renewal with a part that is not what it should be is not read.
pub proof fn law_renewal_needs_its_parts(
    raw: &Value,
    status: Seq<char>,
    fields: Seq<Seq<char>>,
    r: Result<RenewLeaseResult, ScriptError>,
)
    requires
        call_ensures(RenewLeaseResult::from_fcall_result, (raw,), r),
        written(*raw, status, fields),
        fields.len() == 1,
        r is Ok,
    ensures
        numbers::parse_i64_spec(fields[0]) is Ok,
{
    let f = written::lemma_written(*raw, status, fields);
    assert(f.field(0) == fields[0]);
}

/// A staged edge with a part that is not what it should be is not read.
pub proof fn law_staged_edge_needs_its_parts(
    raw: &Value,
    status: Seq<char>,
    fields: Seq<Seq<char>>,
    r: Result<StageDependencyEdgeResult, ScriptError>,
)
    requires
        call_ensures(StageDependencyEdgeResult::from_fcall_result, (raw,), r),
        written(*raw, status, fields),
        fields.len() == 2,
        r is Ok,
    ensures
        ids::edge_id_of(fields[0]) is Ok,
        numbers::parse_u64_spec(fields[1]) is Ok,
{
    let f = written::lemma_written(*raw, status, fields);
    assert(f.field(0) == fields[0]);
    assert(f.field(1) == fields[1]);
}

/// A new flow with a part that is not what it should be is not read.
pub proof fn law_new_flow_needs_its_parts(
    raw: &Value,
    status: Seq<char>,
    fields: Seq<Seq<char>>,
    r: Result<CreateFlowResult, ScriptError>,
)
    requires
        call_ensures(CreateFlowResult::from_fcall_result, (raw,), r),
        written(*raw, status, fields),
        fields.len() == 1,
        r is Ok,
    ensures
        ids::flow_id_of(fields[0]) is Ok,
{
    let f = written::lemma_written(*raw, status, fields);
    assert(f.field(0) == fields[0]);
}

/// A new member with a part that is not what it should be is not read.
pub proof fn law_member_needs_its_parts(
    raw: &Value,
    status: Seq<char>,
    fields: Seq<Seq<char>>,
    r: Result<AddExecutionToFlowResult, ScriptError>,
)
    requires
        call_ensures(AddExecutionToFlowResult::from_fcall_result, (raw,), r),
        written(*raw, status, fields),
        fields.len() == 2,
        r is Ok,
    ensures
        ids::execution_id_of(fields[0]) is Ok,
{
    let f = written::lemma_written(*raw, status, fields);
    assert(f.field(0) == fields[0]);
}

/// A number of tags with a part that is not what it should be is not read.
pub proof fn law_flow_tags_needs_its_parts(
    raw: &Value,
    status: Seq<char>,
    fields: Seq<Seq<char>>,
    r: Result<SetFlowTagsResult, ScriptError>,
)
    requires
        call_ensures(SetFlowTagsResult::from_fcall_result, (raw,), r),
        written(*raw, status, fields),
        fields.len() == 1,
        r is Ok,
    ensures
        numbers::parse_u32_spec(fields[0]) is Ok,
{
    let f = written::lemma_written(*raw, status, fields);
    assert(f.field(0) == fields[0]);
}

/// A number of tags with a part that is not what it should be is not read.
pub proof fn law_tags_needs_its_parts(
    raw: &Value,
    status: Seq<char>,
    fields: Seq<Seq<char>>,
    r: Result<SetExecutionTagsResult, ScriptError>,
)
    requires
        call_ensures(SetExecutionTagsResult::from_fcall_result, (raw,), r),
        written(*raw, status, fields),
        fields.len() == 1,
        r is Ok,
    ensures
        numbers::parse_u32_spec(fields[0]) is Ok,
{
    let f = written::lemma_written(*raw, status, fields);
    assert(f.field(0) == fields[0]);
}

/// A creation with a part that is not what it should be is not read.
pub proof fn law_creation_needs_its_parts(
    raw: &Value,
    status: Seq<char>,
    fields: Seq<Seq<char>>,
    r: Result<CreateExecutionResult, ScriptError>,
)
    requires
        call_ensures(CreateExecutionResult::from_fcall_result, (raw,), r),
        written(*raw, status, fields),
        fields.len() == 2,
        r is Ok,
    ensures
        ids::execution_id_of(fields[0]) is Ok,
{
    let f = written::lemma_written(*raw, status, fields);
    assert(f.field(0) == fields[0]);
}

/// A scheduled retry with a part that is not what it should be is not read.
pub proof fn law_retry_needs_its_parts(
    raw: &Value,
    status: Seq<char>,
    fields: Seq<Seq<char>>,
    r: Result<FailExecutionResult, ScriptError>,
)
    requires
        call_ensures(FailExecutionResult::from_fcall_result, (raw,), r),
        written(*raw, status, fields),
        fields.len() == 2,
        fields[0] == "retry_scheduled"@,
        r is Ok,
    ensures
        numbers::parse_i64_spec(fields[1]) is Ok,
{
    let f = written::lemma_written(*raw, status, fields);
    assert(f.field(0) == fields[0]);
    assert(f.field(1) == fields[1]);
    reveal_strlit("retry_scheduled");
    reveal_strlit("terminal_failed");
    assert("retry_scheduled"@.len() == 15 && "terminal_failed"@.len() == 15);
    assert("retry_scheduled"@[0] == 'r' && "terminal_failed"@[0] == 't');
}

/// A new budget with a part that is not what it should be is not read.
pub proof fn law_new_budget_needs_its_parts(
    raw: &Value,
    status: Seq<char>,
    fields: Seq<Seq<char>>,
    r: Result<CreateBudgetResult, ScriptError>,
)
    requires
        call_ensures(CreateBudgetResult::from_fcall_result, (raw,), r),
        written(*raw, status, fields),
        fields.len() == 1,
        r is Ok,
    ensures
        ids::budget_id_of(fields[0]) is Ok,
{
    let f = written::lemma_written(*raw, status, fields);
    assert(f.field(0) == fields[0]);
}

/// A new quota policy with a part that is not what it should be is not read.
pub proof fn law_new_quota_needs_its_parts(
    raw: &Value,
    status: Seq<char>,
    fields: Seq<Seq<char>>,
    r: Result<CreateQuotaPolicyResult, ScriptError>,
)
    requires
        call_ensures(CreateQuotaPolicyResult::from_fcall_result, (raw,), r),
        written(*raw, status, fields),
        fields.len() == 1,
        r is Ok,
    ensures
        ids::quota_policy_id_of(fields[0]) is Ok,
{
    let f = written::lemma_written(*raw, status, fields);
    assert(f.field(0) == fields[0]);
}

/// An appended frame with a part that is not what it should be is not read.
pub proof fn law_frame_needs_its_parts(
    raw: &Value,
    status: Seq<char>,
    fields: Seq<Seq<char>>,
    r: Result<AppendFrameResult, ScriptError>,
)
    requires
        call_ensures(AppendFrameResult::from_fcall_result, (raw,), r),
        written(*raw, status, fields),
        fields.len() == 2,
        r is Ok,
    ensures
        numbers::parse_u64_spec(fields[1]) is Ok,
{
    let f = written::lemma_written(*raw, status, fields);
    assert(f.field(1) == fields[1]);
}

/// A suspension with a part that is not what it should be is not read.
pub proof fn law_suspension_needs_its_parts(
    raw: &Value,
    status: Seq<char>,
    fields: Seq<Seq<char>>,
    r: Result<SuspendExecutionResult, ScriptError>,
)
    requires
        call_ensures(SuspendExecutionResult::from_fcall_result, (raw,), r),
        written(*raw, status, fields),
        fields.len() == 4,
        r is Ok,
    ensures
        ids::suspension_id_of(fields[0]) is Ok,
        ids::waitpoint_id_of(fields[1]) is Ok,
{
    let f = written::lemma_written(*raw, status, fields);
    assert(f.field(0) == fields[0]);
    assert(f.field(1) == fields[1]);
}

/// A waitpoint with a part that is not what it should be is not read.
pub proof fn law_waitpoint_needs_its_parts(
    raw: &Value,
    status: Seq<char>,
    fields: Seq<Seq<char>>,
    r: Result<CreatePendingWaitpointResult, ScriptError>,
)
    requires
        call_ensures(CreatePendingWaitpointResult::from_fcall_result, (raw,), r),
        written(*raw, status, fields),
        fields.len() == 3,
        r is Ok,
    ensures
        ids::waitpoint_id_of(fields[0]) is Ok,
{
    let f = written::lemma_written(*raw, status, fields);
    assert(f.field(0) == fields[0]);
}

/// A rotation with a part that is not what it should be is not read.
pub proof fn law_rotation_needs_its_parts(
    raw: &Value,
    status: Seq<char>,
    fields: Seq<Seq<char>>,
    r: Result<RotateWaitpointHmacSecretOutcome, ScriptError>,
)
    requires
        call_ensures(RotateWaitpointHmacSecretOutcome::from_fcall_result, (raw,), r),
        written(*raw, status, fields),
        fields.len() == 4,
        fields[0] == "rotated"@,
        r is Ok,
    ensures
        numbers::parse_u32_spec(fields[3]) is Ok,
{
    let f = written::lemma_written(*raw, status, fields);
    assert(f.field(0) == fields[0]);
    assert(f.field(3) == fields[3]);
    reveal_strlit("rotated");
    reveal_strlit("noop");
    assert("rotated"@.len() == 7 && "noop"@.len() == 4);
}

/// A delivered signal with a part that is not what it should be is not read.
pub proof fn law_delivery_needs_its_parts(
    raw: &Value,
    status: Seq<char>,
    fields: Seq<Seq<char>>,
    r: Result<DeliverSignalResult, ScriptError>,
)
    requires
        call_ensures(DeliverSignalResult::from_fcall_result, (raw,), r),
        written(*raw, status, fields),
        fields.len() == 2,
        r is Ok,
    ensures
        ids::signal_id_of(fields[0]) is Ok,
{
    let f = written::lemma_written(*raw, status, fields);
    assert(f.field(0) == fields[0]);
}

/// A buffered signal with a part that is not what it should be is not read.
pub proof fn law_buffered_needs_its_parts(
    raw: &Value,
    status: Seq<char>,
    fields: Seq<Seq<char>>,
    r: Result<BufferSignalResult, ScriptError>,
)
    requires
        call_ensures(BufferSignalResult::from_fcall_result, (raw,), r),
        written(*raw, status, fields),
        fields.len() == 1,
        r is Ok,
    ensures
        ids::signal_id_of(fields[0]) is Ok,
{
    let f = written::lemma_written(*raw, status, fields);
    assert(f.field(0) == fields[0]);
}

/// A heartbeat with a part that is not what it should be is not read.
pub proof fn law_heartbeat_needs_its_parts(
    raw: &Value,
    status: Seq<char>,
    fields: Seq<Seq<char>>,
    r: Result<HeartbeatWorkerReply, ScriptError>,
)
    requires
        call_ensures(HeartbeatWorkerReply::from_fcall_result, (raw,), r),
        written(*raw, status, fields),
        fields.len() == 2,
        fields[0] == "refreshed"@,
        r is Ok,
    ensures
        numbers::parse_u64_spec(fields[1]) is Ok,
{
    let f = written::lemma_written(*raw, status, fields);
    assert(f.field(0) == fields[0]);
    assert(f.field(1) == fields[1]);
    reveal_strlit("refreshed");
    reveal_strlit("not_registered");
    assert("refreshed"@.len() == 9 && "not_registered"@.len() == 14);
}

} // verus!
