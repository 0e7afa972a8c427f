//! What an error says: which part could not be read, what was refused, and why.

use vstd::prelude::*;
use vstd::string::*;

use crate::error::ScriptError;
use crate::fields::FromFcallResult;
use crate::functions::budget::{CreateBudgetResult};
use crate::functions::execution::{ClaimExecutionResultPartial, CreateExecutionResult, FailExecutionResult, SetExecutionTagsResult};
use crate::functions::flow::{AddExecutionToFlowResult, CreateFlowResult, SetFlowTagsResult, StageDependencyEdgeResult};
use crate::functions::quota::{CreateQuotaPolicyResult};
use crate::functions::scheduling::{ClaimGrantOutcomePartial, IssueClaimGrantResult};
use crate::functions::signal::{BufferSignalResult, ClaimedResumedExecutionPartial, DeliverSignalResult};
use crate::functions::stream::{AppendFrameResult};
use crate::functions::suspension::{CreatePendingWaitpointResult, RotateWaitpointHmacSecretOutcome, SuspendExecutionResult};
use crate::ids;
use crate::laws::written;
use crate::laws::written::written;
use crate::numbers;
use crate::value::Value;

verus! {

/// Whether an error says of a call that its reply could not be read, in these words.
pub open spec fn unread(x: ScriptError, call: Seq<char>, words: Seq<char>) -> bool {
    x matches ScriptError::Parse { fcall, execution_id, message } && fcall@ == call && execution_id is None
        && message@ == words
}

// ── Replies ──

/// A part that is not what it should be is named, the first of them where there are several.
pub proof fn law_claim_names_the_part(
    raw: &Value,
    status: Seq<char>,
    fields: Seq<Seq<char>>,
    r: Result<ClaimExecutionResultPartial, ScriptError>,
)
    requires
        call_ensures(ClaimExecutionResultPartial::from_fcall_result, (raw,), r),
        written(*raw, status, fields),
        fields.len() == 6,
    ensures
        (ids::lease_id_of(fields[0]) is Err) ==> (r matches Err(x) && unread(x, "ff_claim_execution_result_partial"@, "bad lease_id: "@ + ids::lease_id_of(fields[0])->Err_0)),
        (ids::lease_id_of(fields[0]) is Ok && numbers::parse_u64_spec(fields[1]) is Err) ==> (r matches Err(x) && unread(x, "ff_claim_execution_result_partial"@, "bad epoch: "@ + numbers::parse_u64_spec(fields[1])->Err_0.text_spec())),
        (ids::lease_id_of(fields[0]) is Ok && numbers::parse_u64_spec(fields[1]) is Ok && numbers::parse_i64_spec(fields[2]) is Err) ==> (r matches Err(x) && unread(x, "ff_claim_execution_result_partial"@, "bad expires_at: "@ + numbers::parse_i64_spec(fields[2])->Err_0.text_spec())),
        (ids::lease_id_of(fields[0]) is Ok && numbers::parse_u64_spec(fields[1]) is Ok && numbers::parse_i64_spec(fields[2]) is Ok && ids::attempt_id_of(fields[3]) is Err) ==> (r matches Err(x) && unread(x, "ff_claim_execution_result_partial"@, "bad attempt_id: "@ + ids::attempt_id_of(fields[3])->Err_0)),
        (ids::lease_id_of(fields[0]) is Ok && numbers::parse_u64_spec(fields[1]) is Ok && numbers::parse_i64_spec(fields[2]) is Ok && ids::attempt_id_of(fields[3]) is Ok && numbers::parse_u32_spec(fields[4]) is Err) ==> (r matches Err(x) && unread(x, "ff_claim_execution_result_partial"@, "bad attempt_index: "@ + numbers::parse_u32_spec(fields[4])->Err_0.text_spec())),
{
    let f = written::lemma_written(*raw, status, fields);
    assert(f.field(0) == fields[0]);
    assert(f.field(1) == fields[1]);
    assert(f.field(2) == fields[2]);
    assert(f.field(3) == fields[3]);
    assert(f.field(4) == fields[4]);
}

/// A part that is not what it should be is named, the first of them where there are several.
pub proof fn law_resumed_claim_names_the_part(
    raw: &Value,
    status: Seq<char>,
    fields: Seq<Seq<char>>,
    r: Result<ClaimedResumedExecutionPartial, ScriptError>,
)
    requires
        call_ensures(ClaimedResumedExecutionPartial::from_fcall_result, (raw,), r),
        written(*raw, status, fields),
        fields.len() == 5,
    ensures
        (ids::lease_id_of(fields[0]) is Err) ==> (r matches Err(x) && unread(x, "ff_claim_resumed_execution"@, "bad lease_id: "@ + ids::lease_id_of(fields[0])->Err_0)),
        (ids::lease_id_of(fields[0]) is Ok && numbers::parse_u64_spec(fields[1]) is Err) ==> (r matches Err(x) && unread(x, "ff_claim_resumed_execution"@, "bad epoch: "@ + numbers::parse_u64_spec(fields[1])->Err_0.text_spec())),
        (ids::lease_id_of(fields[0]) is Ok && numbers::parse_u64_spec(fields[1]) is Ok && numbers::parse_i64_spec(fields[2]) is Err) ==> (r matches Err(x) && unread(x, "ff_claim_resumed_execution"@, "bad expires_at: "@ + numbers::parse_i64_spec(fields[2])->Err_0.text_spec())),
        (ids::lease_id_of(fields[0]) is Ok && numbers::parse_u64_spec(fields[1]) is Ok && numbers::parse_i64_spec(fields[2]) is Ok && ids::attempt_id_of(fields[3]) is Err) ==> (r matches Err(x) && unread(x, "ff_claim_resumed_execution"@, "bad attempt_id: "@ + ids::attempt_id_of(fields[3])->Err_0)),
        (ids::lease_id_of(fields[0]) is Ok && numbers::parse_u64_spec(fields[1]) is Ok && numbers::parse_i64_spec(fields[2]) is Ok && ids::attempt_id_of(fields[3]) is Ok && numbers::parse_u32_spec(fields[4]) is Err) ==> (r matches Err(x) && unread(x, "ff_claim_resumed_execution"@, "bad attempt_index: "@ + numbers::parse_u32_spec(fields[4])->Err_0.text_spec())),
{
    let f = written::lemma_written(*raw, status, fields);
    assert(f.field(0) == fields[0]);
    assert(f.field(1) == fields[1]);
    assert(f.field(2) == fields[2]);
    assert(f.field(3) == fields[3]);
    assert(f.field(4) == fields[4]);
}

/// A part that is not what it should be is named, the first of them where there are several.
pub proof fn law_grant_and_claim_names_the_part(
    raw: &Value,
    status: Seq<char>,
    fields: Seq<Seq<char>>,
    r: Result<ClaimGrantOutcomePartial, ScriptError>,
)
    requires
        call_ensures(ClaimGrantOutcomePartial::from_fcall_result, (raw,), r),
        written(*raw, status, fields),
        fields.len() == 3,
    ensures
        (ids::lease_id_of(fields[0]) is Err) ==> (r matches Err(x) && unread(x, "ff_issue_grant_and_claim"@, "bad lease_id: "@ + ids::lease_id_of(fields[0])->Err_0)),
        (ids::lease_id_of(fields[0]) is Ok && numbers::parse_u64_spec(fields[1]) is Err) ==> (r matches Err(x) && unread(x, "ff_issue_grant_and_claim"@, "bad epoch: "@ + numbers::parse_u64_spec(fields[1])->Err_0.text_spec())),
        (ids::lease_id_of(fields[0]) is Ok && numbers::parse_u64_spec(fields[1]) is Ok && numbers::parse_u32_spec(fields[2]) is Err) ==> (r matches Err(x) && unread(x, "ff_issue_grant_and_claim"@, "bad attempt_index: "@ + numbers::parse_u32_spec(fields[2])->Err_0.text_spec())),
{
    let f = written::lemma_written(*raw, status, fields);
    assert(f.field(0) == fields[0]);
    assert(f.field(1) == fields[1]);
    assert(f.field(2) == fields[2]);
}

/// A part that is not what it should be is named, the first of them where there are several.
pub proof fn law_grant_names_the_part(
    raw: &Value,
    status: Seq<char>,
    fields: Seq<Seq<char>>,
    r: Result<IssueClaimGrantResult, ScriptError>,
)
    requires
        call_ensures(IssueClaimGrantResult::from_fcall_result, (raw,), r),
        written(*raw, status, fields),
        fields.len() == 1,
    ensures
        (ids::execution_id_of(fields[0]) is Err) ==> (r matches Err(x) && unread(x, "ff_issue_claim_grant"@, "bad execution_id: "@ + ids::execution_id_of(fields[0])->Err_0)),
{
    let f = written::lemma_written(*raw, status, fields);
    assert(f.field(0) == fields[0]);
}

/// A part that is not what it should be is named, the first of them where there are several.
pub proof fn law_staged_edge_names_the_part(
    raw: &Value,
    status: Seq<char>,
    fields: Seq<Seq<char>>,
    r: Result<StageDependencyEdgeResult, ScriptError>,
)
    requires
        call_ensures(StageDependencyEdgeResult::from_fcall_result, (raw,), r),
        written(*raw, status, fields),
        fields.len() == 2,
    ensures
        (ids::edge_id_of(fields[0]) is Err) ==> (r matches Err(x) && unread(x, "ff_stage_dependency_edge"@, "bad edge_id: "@ + ids::edge_id_of(fields[0])->Err_0)),
        (ids::edge_id_of(fields[0]) is Ok && numbers::parse_u64_spec(fields[1]) is Err) ==> (r matches Err(x) && unread(x, "ff_stage_dependency_edge"@, "bad graph_revision: "@ + numbers::parse_u64_spec(fields[1])->Err_0.text_spec())),
{
    let f = written::lemma_written(*raw, status, fields);
    assert(f.field(0) == fields[0]);
    assert(f.field(1) == fields[1]);
}

/// A part that is not what it should be is named, the first of them where there are several.
pub proof fn law_new_flow_names_the_part(
    raw: &Value,
    status: Seq<char>,
    fields: Seq<Seq<char>>,
    r: Result<CreateFlowResult, ScriptError>,
)
    requires
        call_ensures(CreateFlowResult::from_fcall_result, (raw,), r),
        written(*raw, status, fields),
        fields.len() == 1,
        status == "OK"@,
    ensures
        (ids::flow_id_of(fields[0]) is Err) ==> (r matches Err(x) && unread(x, "ff_create_flow"@, "bad flow_id: "@ + ids::flow_id_of(fields[0])->Err_0)),
{
    let f = written::lemma_written(*raw, status, fields);
    assert(f.field(0) == fields[0]);
    reveal_strlit("OK");
    reveal_strlit("ALREADY_SATISFIED");
    assert("OK"@.len() == 2 && "ALREADY_SATISFIED"@.len() == 17);
}

/// A part that is not what it should be is named, the first of them where there are several.
pub proof fn law_member_names_the_part(
    raw: &Value,
    status: Seq<char>,
    fields: Seq<Seq<char>>,
    r: Result<AddExecutionToFlowResult, ScriptError>,
)
    requires
        call_ensures(AddExecutionToFlowResult::from_fcall_result, (raw,), r),
        written(*raw, status, fields),
        fields.len() == 2,
        status == "OK"@,
    ensures
        (ids::execution_id_of(fields[0]) is Err) ==> (r matches Err(x) && unread(x, "ff_add_execution_to_flow"@, "bad execution_id: "@ + ids::execution_id_of(fields[0])->Err_0)),
{
    let f = written::lemma_written(*raw, status, fields);
    assert(f.field(0) == fields[0]);
    reveal_strlit("OK");
    reveal_strlit("ALREADY_SATISFIED");
    assert("OK"@.len() == 2 && "ALREADY_SATISFIED"@.len() == 17);
}

/// A part that is not what it should be is named, the first of them where there are several.
pub proof fn law_flow_tags_names_the_part(
    raw: &Value,
    status: Seq<char>,
    fields: Seq<Seq<char>>,
    r: Result<SetFlowTagsResult, ScriptError>,
)
    requires
        call_ensures(SetFlowTagsResult::from_fcall_result, (raw,), r),
        written(*raw, status, fields),
        fields.len() == 1,
    ensures
        (numbers::parse_u32_spec(fields[0]) is Err) ==> (r matches Err(x) && unread(x, "ff_set_flow_tags"@, "bad tag count: "@ + numbers::parse_u32_spec(fields[0])->Err_0.text_spec())),
{
    let f = written::lemma_written(*raw, status, fields);
    assert(f.field(0) == fields[0]);
}

/// A part that is not what it should be is named, the first of them where there are several.
pub proof fn law_tags_names_the_part(
    raw: &Value,
    status: Seq<char>,
    fields: Seq<Seq<char>>,
    r: Result<SetExecutionTagsResult, ScriptError>,
)
    requires
        call_ensures(SetExecutionTagsResult::from_fcall_result, (raw,), r),
        written(*raw, status, fields),
        fields.len() == 1,
    ensures
        (numbers::parse_u32_spec(fields[0]) is Err) ==> (r matches Err(x) && unread(x, "ff_set_execution_tags"@, "bad tag count: "@ + numbers::parse_u32_spec(fields[0])->Err_0.text_spec())),
{
    let f = written::lemma_written(*raw, status, fields);
    assert(f.field(0) == fields[0]);
}

/// A part that is not what it should be is named, the first of them where there are several.
pub proof fn law_creation_names_the_part(
    raw: &Value,
    status: Seq<char>,
    fields: Seq<Seq<char>>,
    r: Result<CreateExecutionResult, ScriptError>,
)
    requires
        call_ensures(CreateExecutionResult::from_fcall_result, (raw,), r),
        written(*raw, status, fields),
        fields.len() == 2,
    ensures
        (ids::execution_id_of(fields[0]) is Err) ==> (r matches Err(x) && unread(x, "ff_create_execution"@, "bad execution_id: "@ + ids::execution_id_of(fields[0])->Err_0)),
{
    let f = written::lemma_written(*raw, status, fields);
    assert(f.field(0) == fields[0]);
}

/// A part that is not what it should be is named, the first of them where there are several.
pub proof fn law_retry_names_the_part(
    raw: &Value,
    status: Seq<char>,
    fields: Seq<Seq<char>>,
    r: Result<FailExecutionResult, ScriptError>,
)
    requires
        call_ensures(FailExecutionResult::from_fcall_result, (raw,), r),
        written(*raw, status, fields),
        fields.len() == 2,
        fields[0] == "retry_scheduled"@,
    ensures
        (numbers::parse_i64_spec(fields[1]) is Err) ==> (r matches Err(x) && unread(x, "ff_fail_execution"@, "bad delay_until: "@ + numbers::parse_i64_spec(fields[1])->Err_0.text_spec())),
{
    let f = written::lemma_written(*raw, status, fields);
    assert(f.field(0) == fields[0]);
    assert(f.field(1) == fields[1]);
}

/// A part that is not what it should be is named, the first of them where there are several.
pub proof fn law_new_budget_names_the_part(
    raw: &Value,
    status: Seq<char>,
    fields: Seq<Seq<char>>,
    r: Result<CreateBudgetResult, ScriptError>,
)
    requires
        call_ensures(CreateBudgetResult::from_fcall_result, (raw,), r),
        written(*raw, status, fields),
        fields.len() == 1,
        status == "OK"@,
    ensures
        (ids::budget_id_of(fields[0]) is Err) ==> (r matches Err(x) && unread(x, "ff_create_budget"@, "invalid budget_id: "@ + ids::budget_id_of(fields[0])->Err_0)),
{
    let f = written::lemma_written(*raw, status, fields);
    assert(f.field(0) == fields[0]);
    reveal_strlit("OK");
    reveal_strlit("ALREADY_SATISFIED");
    assert("OK"@.len() == 2 && "ALREADY_SATISFIED"@.len() == 17);
}

/// A part that is not what it should be is named, the first of them where there are several.
pub proof fn law_new_quota_names_the_part(
    raw: &Value,
    status: Seq<char>,
    fields: Seq<Seq<char>>,
    r: Result<CreateQuotaPolicyResult, ScriptError>,
)
    requires
        call_ensures(CreateQuotaPolicyResult::from_fcall_result, (raw,), r),
        written(*raw, status, fields),
        fields.len() == 1,
        status == "OK"@,
    ensures
        (ids::quota_policy_id_of(fields[0]) is Err) ==> (r matches Err(x) && unread(x, "ff_create_quota_policy"@, "invalid quota_policy_id: "@ + ids::quota_policy_id_of(fields[0])->Err_0)),
{
    let f = written::lemma_written(*raw, status, fields);
    assert(f.field(0) == fields[0]);
    reveal_strlit("OK");
    reveal_strlit("ALREADY_SATISFIED");
    assert("OK"@.len() == 2 && "ALREADY_SATISFIED"@.len() == 17);
}

/// A part that is not what it should be is named, the first of them where there are several.
pub proof fn law_frame_names_the_part(
    raw: &Value,
    status: Seq<char>,
    fields: Seq<Seq<char>>,
    r: Result<AppendFrameResult, ScriptError>,
)
    requires
        call_ensures(AppendFrameResult::from_fcall_result, (raw,), r),
        written(*raw, status, fields),
        fields.len() == 2,
    ensures
        (numbers::parse_u64_spec(fields[1]) is Err) ==> (r matches Err(x) && unread(x, "ff_append_frame"@, "bad frame_count: "@ + numbers::parse_u64_spec(fields[1])->Err_0.text_spec())),
{
    let f = written::lemma_written(*raw, status, fields);
    assert(f.field(1) == fields[1]);
}

/// A part that is not what it should be is named, the first of them where there are several.
pub proof fn law_suspension_names_the_part(
    raw: &Value,
    status: Seq<char>,
    fields: Seq<Seq<char>>,
    r: Result<SuspendExecutionResult, ScriptError>,
)
    requires
        call_ensures(SuspendExecutionResult::from_fcall_result, (raw,), r),
        written(*raw, status, fields),
        fields.len() == 4,
    ensures
        (ids::suspension_id_of(fields[0]) is Err) ==> (r matches Err(x) && unread(x, "ff_suspend_execution"@, "bad suspension_id: "@ + ids::suspension_id_of(fields[0])->Err_0)),
        (ids::suspension_id_of(fields[0]) is Ok && ids::waitpoint_id_of(fields[1]) is Err) ==> (r matches Err(x) && unread(x, "ff_suspend_execution"@, "bad waitpoint_id: "@ + ids::waitpoint_id_of(fields[1])->Err_0)),
{
    let f = written::lemma_written(*raw, status, fields);
    assert(f.field(0) == fields[0]);
    assert(f.field(1) == fields[1]);
}

/// A part that is not what it should be is named, the first of them where there are several.
pub proof fn law_waitpoint_names_the_part(
    raw: &Value,
    status: Seq<char>,
    fields: Seq<Seq<char>>,
    r: Result<CreatePendingWaitpointResult, ScriptError>,
)
    requires
        call_ensures(CreatePendingWaitpointResult::from_fcall_result, (raw,), r),
        written(*raw, status, fields),
        fields.len() == 3,
    ensures
        (ids::waitpoint_id_of(fields[0]) is Err) ==> (r matches Err(x) && unread(x, "ff_create_pending_waitpoint"@, "bad waitpoint_id: "@ + ids::waitpoint_id_of(fields[0])->Err_0)),
{
    let f = written::lemma_written(*raw, status, fields);
    assert(f.field(0) == fields[0]);
}

/// A part that is not what it should be is named, the first of them where there are several.
pub proof fn law_rotation_names_the_part(
    raw: &Value,
    status: Seq<char>,
    fields: Seq<Seq<char>>,
    r: Result<RotateWaitpointHmacSecretOutcome, ScriptError>,
)
    requires
        call_ensures(RotateWaitpointHmacSecretOutcome::from_fcall_result, (raw,), r),
        written(*raw, status, fields),
        fields.len() == 4,
        fields[0] == "rotated"@,
    ensures
        (numbers::parse_u32_spec(fields[3]) is Err) ==> (r matches Err(x) && unread(x, "ff_rotate_waitpoint_hmac_secret_outcome"@, "bad gc_count: "@ + numbers::parse_u32_spec(fields[3])->Err_0.text_spec())),
{
    let f = written::lemma_written(*raw, status, fields);
    assert(f.field(0) == fields[0]);
    assert(f.field(3) == fields[3]);
}

/// A part that is not what it should be is named, the first of them where there are several.
pub proof fn law_delivery_names_the_part(
    raw: &Value,
    status: Seq<char>,
    fields: Seq<Seq<char>>,
    r: Result<DeliverSignalResult, ScriptError>,
)
    requires
        call_ensures(DeliverSignalResult::from_fcall_result, (raw,), r),
        written(*raw, status, fields),
        fields.len() == 2,
    ensures
        (ids::signal_id_of(fields[0]) is Err) ==> (r matches Err(x) && unread(x, "ff_deliver_signal"@, "bad signal_id: "@ + ids::signal_id_of(fields[0])->Err_0)),
{
    let f = written::lemma_written(*raw, status, fields);
    assert(f.field(0) == fields[0]);
}

/// A part that is not what it should be is named, the first of them where there are several.
pub proof fn law_buffered_names_the_part(
    raw: &Value,
    status: Seq<char>,
    fields: Seq<Seq<char>>,
    r: Result<BufferSignalResult, ScriptError>,
)
    requires
        call_ensures(BufferSignalResult::from_fcall_result, (raw,), r),
        written(*raw, status, fields),
        fields.len() == 1,
    ensures
        (ids::signal_id_of(fields[0]) is Err) ==> (r matches Err(x) && unread(x, "ff_buffer_signal_for_pending_waitpoint"@, "bad signal_id: "@ + ids::signal_id_of(fields[0])->Err_0)),
{
    let f = written::lemma_written(*raw, status, fields);
    assert(f.field(0) == fields[0]);
}

} // verus!
