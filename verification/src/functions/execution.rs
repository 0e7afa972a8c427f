//! Calls of the execution lifecycle.
//!
//! A result that names the execution is read without it, and completed with the
//! identity that the caller already holds.

use vstd::prelude::*;
use vstd::string::*;

use crate::error;
use crate::error::{ScriptError, ScriptErrorView};
use crate::field_map;
use crate::field_map::FieldMap;
use crate::fields;
use crate::fields::FromFcallResult;
use crate::ids::{AttemptId, AttemptIndex, ExecutionId, LeaseEpoch, LeaseId, TimestampMs};
use crate::json;
use crate::keys;
use crate::keys::{ExecKeyContext, IndexKeys};
use crate::names::{LaneId, Namespace, WorkerId, WorkerInstanceId};
use crate::numbers;
use crate::result;
use crate::result::{FcallResult, FcallView};
use crate::text;
use crate::value::Value;
use crate::wire;
use crate::wire::{Call, CancelSource, LeaseFence};

verus! {

// ── States ──

/// What a caller sees of an execution's state.
#[derive(Clone, Copy, Debug, PartialEq, Eq, Structural)]
pub enum PublicState {
    Waiting,
    Delayed,
    RateLimited,
    WaitingChildren,
    Active,
    Suspended,
    Resumable,
    Completed,
    Failed,
    Cancelled,
    Expired,
    Skipped,
}

impl View for PublicState {
    type V = PublicState;

    open spec fn view(&self) -> PublicState {
        *self
    }
}

/// Why an attempt was made.
#[derive(Clone, Copy, Debug, PartialEq, Eq, Structural)]
pub enum AttemptType {
    Initial,
    Retry,
    Reclaim,
    Replay,
    Fallback,
}

impl View for AttemptType {
    type V = AttemptType;

    open spec fn view(&self) -> AttemptType {
        *self
    }
}

/// The wire word of a state.
pub open spec fn state_word(s: PublicState) -> &'static str {
    match s {
        PublicState::Waiting => "waiting",
        PublicState::Delayed => "delayed",
        PublicState::RateLimited => "rate_limited",
        PublicState::WaitingChildren => "waiting_children",
        PublicState::Active => "active",
        PublicState::Suspended => "suspended",
        PublicState::Resumable => "resumable",
        PublicState::Completed => "completed",
        PublicState::Failed => "failed",
        PublicState::Cancelled => "cancelled",
        PublicState::Expired => "expired",
        PublicState::Skipped => "skipped",
    }
}

/// The state of a wire word.
pub open spec fn state_of(s: Seq<char>) -> Option<PublicState> {
    if s == "waiting"@ {
        Some(PublicState::Waiting)
    } else if s == "delayed"@ {
        Some(PublicState::Delayed)
    } else if s == "rate_limited"@ {
        Some(PublicState::RateLimited)
    } else if s == "waiting_children"@ {
        Some(PublicState::WaitingChildren)
    } else if s == "active"@ {
        Some(PublicState::Active)
    } else if s == "suspended"@ {
        Some(PublicState::Suspended)
    } else if s == "resumable"@ {
        Some(PublicState::Resumable)
    } else if s == "completed"@ {
        Some(PublicState::Completed)
    } else if s == "failed"@ {
        Some(PublicState::Failed)
    } else if s == "cancelled"@ {
        Some(PublicState::Cancelled)
    } else if s == "expired"@ {
        Some(PublicState::Expired)
    } else if s == "skipped"@ {
        Some(PublicState::Skipped)
    } else {
        None
    }
}

/// The state of a wire word, or an unreadable reply.
pub open spec fn public_state(s: Seq<char>) -> Result<PublicState, ScriptErrorView> {
    match state_of(s) {
        Some(p) => Ok(p),
        None => Err(error::parse_error("parse_public_state"@, "unknown public_state: "@ + s)),
    }
}

/// Read a state.
pub fn parse_public_state(s: &str) -> (r: Result<PublicState, ScriptError>)
    ensures
        fields::agrees(r, public_state(s@)),
{
    if text::same(s, "waiting") {
        Ok(PublicState::Waiting)
    } else if text::same(s, "delayed") {
        Ok(PublicState::Delayed)
    } else if text::same(s, "rate_limited") {
        Ok(PublicState::RateLimited)
    } else if text::same(s, "waiting_children") {
        Ok(PublicState::WaitingChildren)
    } else if text::same(s, "active") {
        Ok(PublicState::Active)
    } else if text::same(s, "suspended") {
        Ok(PublicState::Suspended)
    } else if text::same(s, "resumable") {
        Ok(PublicState::Resumable)
    } else if text::same(s, "completed") {
        Ok(PublicState::Completed)
    } else if text::same(s, "failed") {
        Ok(PublicState::Failed)
    } else if text::same(s, "cancelled") {
        Ok(PublicState::Cancelled)
    } else if text::same(s, "expired") {
        Ok(PublicState::Expired)
    } else if text::same(s, "skipped") {
        Ok(PublicState::Skipped)
    } else {
        Err(error::unreadable("parse_public_state", error::prefixed("unknown public_state: ", s)))
    }
}

/// Every state is read back from its wire word.
pub proof fn law_state_round_trip(s: PublicState)
    ensures
        state_of(state_word(s)@) == Some(s),
{
    reveal_strlit("waiting");
    assert("waiting"@.len() == 7 && "waiting"@[0] == 'w');
    reveal_strlit("delayed");
    assert("delayed"@.len() == 7 && "delayed"@[0] == 'd');
    reveal_strlit("rate_limited");
    assert("rate_limited"@.len() == 12);
    reveal_strlit("waiting_children");
    assert("waiting_children"@.len() == 16);
    reveal_strlit("active");
    assert("active"@.len() == 6 && "active"@[0] == 'a');
    reveal_strlit("suspended");
    assert("suspended"@.len() == 9 && "suspended"@[1] == 'u');
    reveal_strlit("resumable");
    assert("resumable"@.len() == 9 && "resumable"@[1] == 'e');
    reveal_strlit("completed");
    assert("completed"@.len() == 9 && "completed"@[1] == 'o');
    reveal_strlit("failed");
    assert("failed"@.len() == 6 && "failed"@[0] == 'f');
    reveal_strlit("cancelled");
    assert("cancelled"@.len() == 9 && "cancelled"@[1] == 'a');
    reveal_strlit("expired");
    assert("expired"@.len() == 7 && "expired"@[0] == 'e');
    reveal_strlit("skipped");
    assert("skipped"@.len() == 7 && "skipped"@[0] == 's');
}

/// The attempt type of a wire word.
pub open spec fn attempt_type_of(s: Seq<char>) -> Result<AttemptType, ScriptErrorView> {
    if s == "initial"@ {
        Ok(AttemptType::Initial)
    } else if s == "retry"@ {
        Ok(AttemptType::Retry)
    } else if s == "reclaim"@ {
        Ok(AttemptType::Reclaim)
    } else if s == "replay"@ {
        Ok(AttemptType::Replay)
    } else if s == "fallback"@ {
        Ok(AttemptType::Fallback)
    } else {
        Err(error::parse_error("parse_attempt_type"@, "unknown attempt_type: "@ + s))
    }
}

/// Read an attempt type.
pub fn parse_attempt_type(s: &str) -> (r: Result<AttemptType, ScriptError>)
    ensures
        fields::agrees(r, attempt_type_of(s@)),
{
    if text::same(s, "initial") {
        Ok(AttemptType::Initial)
    } else if text::same(s, "retry") {
        Ok(AttemptType::Retry)
    } else if text::same(s, "reclaim") {
        Ok(AttemptType::Reclaim)
    } else if text::same(s, "replay") {
        Ok(AttemptType::Replay)
    } else if text::same(s, "fallback") {
        Ok(AttemptType::Fallback)
    } else {
        Err(error::unreadable("parse_attempt_type", error::prefixed("unknown attempt_type: ", s)))
    }
}

// ── Calls ──

/// The key that guards an idempotent creation; a harmless one without an
/// idempotency key.
pub open spec fn idempotency_slot_spec(k: ExecOpKeys<'_>, args: CreateExecutionArgs) -> Seq<char> {
    match args.idempotency_key {
        Some(ik) => if ik@.len() == 0 {
            k.ctx.noop_spec()
        } else {
            keys::idempotency_key_spec(k.ctx.tag_spec(), args.namespace@, ik@)
        },
        None => k.ctx.noop_spec(),
    }
}

fn idempotency_slot(k: &ExecOpKeys<'_>, args: &CreateExecutionArgs) -> (r: String)
    ensures
        r@ == idempotency_slot_spec(*k, *args),
{
    match &args.idempotency_key {
        Some(ik) => if ik.as_str().is_empty() {
            k.ctx.noop()
        } else {
            keys::idempotency_key(k.ctx.hash_tag(), args.namespace.as_str(), ik.as_str())
        },
        None => k.ctx.noop(),
    }
}

/// Key contexts of an execution operation.
pub struct ExecOpKeys<'a> {
    pub ctx: &'a ExecKeyContext,
    pub idx: &'a IndexKeys,
    pub lane_id: &'a LaneId,
    pub worker_instance_id: &'a WorkerInstanceId,
}

/// Arguments of [`ff_create_execution`].
pub struct CreateExecutionArgs {
    pub execution_id: ExecutionId,
    pub namespace: Namespace,
    pub lane_id: LaneId,
    pub execution_kind: String,
    pub input_payload: Vec<u8>,
    pub priority: i32,
    pub creator_identity: String,
    pub idempotency_key: Option<String>,
    pub tags: FieldMap,
    pub policy_json: Option<String>,
    pub delay_until: Option<TimestampMs>,
    pub execution_deadline_at: Option<TimestampMs>,
    pub partition_id: u16,
}

/// Create an execution.
pub fn ff_create_execution(k: &ExecOpKeys, args: &CreateExecutionArgs) -> (r: Call)
    ensures
        r.function == "ff_create_execution",
        r.keys_spec() == seq![
            k.ctx.core_key_spec(),
            k.ctx.payload_spec(),
            k.ctx.policy_spec(),
            k.ctx.tags_spec(),
            if args.delay_until is Some { k.idx.lane_delayed_spec(k.lane_id@) } else { k.idx.lane_eligible_spec(k.lane_id@) },
            idempotency_slot_spec(*k, *args),
            k.idx.execution_deadline_spec(),
            k.idx.all_executions_spec(),
        ],
        r.argv_spec() == seq![
            args.execution_id@,
            args.namespace@,
            args.lane_id@,
            args.execution_kind@,
            numbers::decimal(args.priority as int),
            args.creator_identity@,
            wire::or_spec(args.policy_json, "{}"@),
            text::lossy_text(args.input_payload@),
            wire::opt_time_spec(args.delay_until),
            if args.idempotency_key is Some { "86400000"@ } else { Seq::<char>::empty() },
            json::object_text(args.tags.pairs()),
            wire::opt_time_spec(args.execution_deadline_at),
            numbers::decimal(args.partition_id as int),
        ],
{
    let mut keys: Vec<String> = Vec::new();
    keys.push(k.ctx.core_key());
    keys.push(k.ctx.payload());
    keys.push(k.ctx.policy());
    keys.push(k.ctx.tags());
    keys.push(if args.delay_until.is_some() { k.idx.lane_delayed(k.lane_id) } else { k.idx.lane_eligible(k.lane_id) });
    keys.push(idempotency_slot(k, args));
    keys.push(k.idx.execution_deadline());
    keys.push(k.idx.all_executions());
    let mut argv: Vec<String> = Vec::new();
    argv.push(args.execution_id.as_str().to_owned());
    argv.push(args.namespace.as_str().to_owned());
    argv.push(args.lane_id.as_str().to_owned());
    argv.push(args.execution_kind.as_str().to_owned());
    argv.push(numbers::i64_text(args.priority as i64));
    argv.push(args.creator_identity.as_str().to_owned());
    argv.push(wire::or_text(&args.policy_json, "{}"));
    argv.push(text::lossy(args.input_payload.as_slice()));
    argv.push(wire::opt_time(args.delay_until));
    argv.push(if args.idempotency_key.is_some() { "86400000".to_owned() } else { String::new() });
    argv.push(json::string_object(&args.tags));
    argv.push(wire::opt_time(args.execution_deadline_at));
    argv.push(numbers::u64_text(args.partition_id as u64));
    Call { function: "ff_create_execution", keys, argv }
}

/// Arguments of a claim.
pub struct ClaimExecutionArgs {
    pub execution_id: ExecutionId,
    pub worker_id: WorkerId,
    pub worker_instance_id: WorkerInstanceId,
    pub lane_id: LaneId,
    pub lease_id: LeaseId,
    pub lease_ttl_ms: u64,
    pub attempt_id: AttemptId,
    pub expected_attempt_index: AttemptIndex,
    pub attempt_policy_json: String,
    pub attempt_timeout_ms: Option<u64>,
    pub execution_deadline_at: Option<i64>,
}

/// Claim a granted execution.
pub fn ff_claim_execution(k: &ExecOpKeys, args: &ClaimExecutionArgs) -> (r: Call)
    requires
        args.lease_ttl_ms <= u64::MAX / 2,
    ensures
        r.function == "ff_claim_execution",
        r.keys_spec() == seq![
            k.ctx.core_key_spec(),
            k.ctx.claim_grant_spec(),
            k.idx.lane_eligible_spec(k.lane_id@),
            k.idx.lease_expiry_spec(),
            k.idx.worker_leases_spec(k.worker_instance_id@),
            k.ctx.attempt_hash_spec(args.expected_attempt_index),
            k.ctx.attempt_usage_spec(args.expected_attempt_index),
            k.ctx.attempt_policy_spec(args.expected_attempt_index),
            k.ctx.attempts_spec(),
            k.ctx.lease_current_spec(),
            k.ctx.lease_history_spec(),
            k.idx.lane_active_spec(k.lane_id@),
            k.idx.attempt_timeout_spec(),
            k.idx.execution_deadline_spec(),
        ],
        r.argv_spec() == seq![
            args.execution_id@,
            args.worker_id@,
            args.worker_instance_id@,
            args.lane_id@,
            Seq::<char>::empty(),
            args.lease_id@,
            numbers::decimal(args.lease_ttl_ms as int),
            numbers::decimal(args.lease_ttl_ms * 2 / 3),
            args.attempt_id@,
            args.attempt_policy_json@,
            wire::opt_u64_spec(args.attempt_timeout_ms),
            wire::opt_i64_spec(args.execution_deadline_at),
        ],
{
    let mut keys: Vec<String> = Vec::new();
    keys.push(k.ctx.core_key());
    keys.push(k.ctx.claim_grant());
    keys.push(k.idx.lane_eligible(k.lane_id));
    keys.push(k.idx.lease_expiry());
    keys.push(k.idx.worker_leases(k.worker_instance_id));
    keys.push(k.ctx.attempt_hash(args.expected_attempt_index));
    keys.push(k.ctx.attempt_usage(args.expected_attempt_index));
    keys.push(k.ctx.attempt_policy(args.expected_attempt_index));
    keys.push(k.ctx.attempts());
    keys.push(k.ctx.lease_current());
    keys.push(k.ctx.lease_history());
    keys.push(k.idx.lane_active(k.lane_id));
    keys.push(k.idx.attempt_timeout());
    keys.push(k.idx.execution_deadline());
    let mut argv: Vec<String> = Vec::new();
    argv.push(args.execution_id.as_str().to_owned());
    argv.push(args.worker_id.as_str().to_owned());
    argv.push(args.worker_instance_id.as_str().to_owned());
    argv.push(args.lane_id.as_str().to_owned());
    argv.push(String::new());
    argv.push(args.lease_id.as_str().to_owned());
    argv.push(numbers::u64_text(args.lease_ttl_ms));
    argv.push(numbers::u64_text(args.lease_ttl_ms * 2 / 3));
    argv.push(args.attempt_id.as_str().to_owned());
    argv.push(args.attempt_policy_json.as_str().to_owned());
    argv.push(wire::opt_u64(args.attempt_timeout_ms));
    argv.push(wire::opt_i64(args.execution_deadline_at));
    Call { function: "ff_claim_execution", keys, argv }
}

/// Arguments of [`ff_complete_execution`].
pub struct CompleteExecutionArgs {
    pub execution_id: ExecutionId,
    pub fence: Option<LeaseFence>,
    pub attempt_index: AttemptIndex,
    pub result_payload: Option<Vec<u8>>,
    pub source: CancelSource,
}

/// Complete an execution.
pub fn ff_complete_execution(k: &ExecOpKeys, args: &CompleteExecutionArgs) -> (r: Call)
    ensures
        r.function == "ff_complete_execution",
        r.keys_spec() == seq![
            k.ctx.core_key_spec(),
            k.ctx.attempt_hash_spec(args.attempt_index),
            k.idx.lease_expiry_spec(),
            k.idx.worker_leases_spec(k.worker_instance_id@),
            k.idx.lane_terminal_spec(k.lane_id@),
            k.ctx.lease_current_spec(),
            k.ctx.lease_history_spec(),
            k.idx.lane_active_spec(k.lane_id@),
            k.ctx.stream_meta_spec(args.attempt_index),
            k.ctx.result_spec(),
            k.idx.attempt_timeout_spec(),
            k.idx.execution_deadline_spec(),
        ],
        r.argv_spec() == seq![
            args.execution_id@,
            wire::fence_lease_id_spec(args.fence),
            wire::fence_lease_epoch_spec(args.fence),
            wire::fence_attempt_id_spec(args.fence),
            wire::opt_lossy_spec(args.result_payload),
            args.source.text_spec(),
        ],
{
    let mut keys: Vec<String> = Vec::new();
    keys.push(k.ctx.core_key());
    keys.push(k.ctx.attempt_hash(args.attempt_index));
    keys.push(k.idx.lease_expiry());
    keys.push(k.idx.worker_leases(k.worker_instance_id));
    keys.push(k.idx.lane_terminal(k.lane_id));
    keys.push(k.ctx.lease_current());
    keys.push(k.ctx.lease_history());
    keys.push(k.idx.lane_active(k.lane_id));
    keys.push(k.ctx.stream_meta(args.attempt_index));
    keys.push(k.ctx.result());
    keys.push(k.idx.attempt_timeout());
    keys.push(k.idx.execution_deadline());
    let mut argv: Vec<String> = Vec::new();
    argv.push(args.execution_id.as_str().to_owned());
    argv.push(wire::fence_lease_id(&args.fence));
    argv.push(wire::fence_lease_epoch(&args.fence));
    argv.push(wire::fence_attempt_id(&args.fence));
    argv.push(wire::opt_lossy(&args.result_payload));
    argv.push(args.source.as_str().to_owned());
    Call { function: "ff_complete_execution", keys, argv }
}

/// Arguments of [`ff_cancel_execution`].
pub struct CancelExecutionArgs {
    pub execution_id: ExecutionId,
    pub reason: String,
    pub source: CancelSource,
    pub lease_id: Option<LeaseId>,
    pub lease_epoch: Option<LeaseEpoch>,
}

/// Cancel an execution. The attempt and the waitpoint are read by the server; the keys in their place only bind the slot.
pub fn ff_cancel_execution(k: &ExecOpKeys, args: &CancelExecutionArgs) -> (r: Call)
    ensures
        r.function == "ff_cancel_execution",
        r.keys_spec() == seq![
            k.ctx.core_key_spec(),
            k.ctx.attempt_hash_spec(AttemptIndex(0)),
            k.ctx.stream_meta_spec(AttemptIndex(0)),
            k.ctx.lease_current_spec(),
            k.ctx.lease_history_spec(),
            k.idx.lease_expiry_spec(),
            k.idx.worker_leases_spec(k.worker_instance_id@),
            k.ctx.suspension_current_spec(),
            k.ctx.suspension_current_spec(),
            k.ctx.suspension_current_spec(),
            k.idx.suspension_timeout_spec(),
            k.idx.lane_terminal_spec(k.lane_id@),
            k.idx.attempt_timeout_spec(),
            k.idx.execution_deadline_spec(),
            k.idx.lane_eligible_spec(k.lane_id@),
            k.idx.lane_delayed_spec(k.lane_id@),
            k.idx.lane_blocked_dependencies_spec(k.lane_id@),
            k.idx.lane_blocked_budget_spec(k.lane_id@),
            k.idx.lane_blocked_quota_spec(k.lane_id@),
            k.idx.lane_blocked_route_spec(k.lane_id@),
            k.idx.lane_blocked_operator_spec(k.lane_id@),
        ],
        r.argv_spec() == seq![
            args.execution_id@,
            args.reason@,
            args.source.text_spec(),
            wire::opt_lease_spec(args.lease_id),
            wire::opt_epoch_spec(args.lease_epoch),
        ],
{
    let mut keys: Vec<String> = Vec::new();
    keys.push(k.ctx.core_key());
    keys.push(k.ctx.attempt_hash(AttemptIndex(0)));
    keys.push(k.ctx.stream_meta(AttemptIndex(0)));
    keys.push(k.ctx.lease_current());
    keys.push(k.ctx.lease_history());
    keys.push(k.idx.lease_expiry());
    keys.push(k.idx.worker_leases(k.worker_instance_id));
    keys.push(k.ctx.suspension_current());
    keys.push(k.ctx.suspension_current());
    keys.push(k.ctx.suspension_current());
    keys.push(k.idx.suspension_timeout());
    keys.push(k.idx.lane_terminal(k.lane_id));
    keys.push(k.idx.attempt_timeout());
    keys.push(k.idx.execution_deadline());
    keys.push(k.idx.lane_eligible(k.lane_id));
    keys.push(k.idx.lane_delayed(k.lane_id));
    keys.push(k.idx.lane_blocked_dependencies(k.lane_id));
    keys.push(k.idx.lane_blocked_budget(k.lane_id));
    keys.push(k.idx.lane_blocked_quota(k.lane_id));
    keys.push(k.idx.lane_blocked_route(k.lane_id));
    keys.push(k.idx.lane_blocked_operator(k.lane_id));
    let mut argv: Vec<String> = Vec::new();
    argv.push(args.execution_id.as_str().to_owned());
    argv.push(args.reason.as_str().to_owned());
    argv.push(args.source.as_str().to_owned());
    argv.push(wire::opt_lease(&args.lease_id));
    argv.push(wire::opt_epoch(args.lease_epoch));
    Call { function: "ff_cancel_execution", keys, argv }
}

/// Arguments of [`ff_delay_execution`].
pub struct DelayExecutionArgs {
    pub execution_id: ExecutionId,
    pub fence: Option<LeaseFence>,
    pub attempt_index: AttemptIndex,
    pub delay_until: TimestampMs,
    pub source: CancelSource,
}

/// Delay an execution.
pub fn ff_delay_execution(k: &ExecOpKeys, args: &DelayExecutionArgs) -> (r: Call)
    ensures
        r.function == "ff_delay_execution",
        r.keys_spec() == seq![
            k.ctx.core_key_spec(),
            k.ctx.attempt_hash_spec(args.attempt_index),
            k.ctx.lease_current_spec(),
            k.ctx.lease_history_spec(),
            k.idx.lease_expiry_spec(),
            k.idx.worker_leases_spec(k.worker_instance_id@),
            k.idx.lane_active_spec(k.lane_id@),
            k.idx.lane_delayed_spec(k.lane_id@),
            k.idx.attempt_timeout_spec(),
        ],
        r.argv_spec() == seq![
            args.execution_id@,
            wire::fence_lease_id_spec(args.fence),
            wire::fence_lease_epoch_spec(args.fence),
            wire::fence_attempt_id_spec(args.fence),
            numbers::decimal(args.delay_until.0 as int),
            args.source.text_spec(),
        ],
{
    let mut keys: Vec<String> = Vec::new();
    keys.push(k.ctx.core_key());
    keys.push(k.ctx.attempt_hash(args.attempt_index));
    keys.push(k.ctx.lease_current());
    keys.push(k.ctx.lease_history());
    keys.push(k.idx.lease_expiry());
    keys.push(k.idx.worker_leases(k.worker_instance_id));
    keys.push(k.idx.lane_active(k.lane_id));
    keys.push(k.idx.lane_delayed(k.lane_id));
    keys.push(k.idx.attempt_timeout());
    let mut argv: Vec<String> = Vec::new();
    argv.push(args.execution_id.as_str().to_owned());
    argv.push(wire::fence_lease_id(&args.fence));
    argv.push(wire::fence_lease_epoch(&args.fence));
    argv.push(wire::fence_attempt_id(&args.fence));
    argv.push(numbers::i64_text(args.delay_until.0));
    argv.push(args.source.as_str().to_owned());
    Call { function: "ff_delay_execution", keys, argv }
}

/// Arguments of [`ff_move_to_waiting_children`].
pub struct MoveToWaitingChildrenArgs {
    pub execution_id: ExecutionId,
    pub fence: Option<LeaseFence>,
    pub attempt_index: AttemptIndex,
    pub source: CancelSource,
}

/// Make an execution wait for its children.
pub fn ff_move_to_waiting_children(k: &ExecOpKeys, args: &MoveToWaitingChildrenArgs) -> (r: Call)
    ensures
        r.function == "ff_move_to_waiting_children",
        r.keys_spec() == seq![
            k.ctx.core_key_spec(),
            k.ctx.attempt_hash_spec(args.attempt_index),
            k.ctx.lease_current_spec(),
            k.ctx.lease_history_spec(),
            k.idx.lease_expiry_spec(),
            k.idx.worker_leases_spec(k.worker_instance_id@),
            k.idx.lane_active_spec(k.lane_id@),
            k.idx.lane_blocked_dependencies_spec(k.lane_id@),
            k.idx.attempt_timeout_spec(),
        ],
        r.argv_spec() == seq![
            args.execution_id@,
            wire::fence_lease_id_spec(args.fence),
            wire::fence_lease_epoch_spec(args.fence),
            wire::fence_attempt_id_spec(args.fence),
            args.source.text_spec(),
        ],
{
    let mut keys: Vec<String> = Vec::new();
    keys.push(k.ctx.core_key());
    keys.push(k.ctx.attempt_hash(args.attempt_index));
    keys.push(k.ctx.lease_current());
    keys.push(k.ctx.lease_history());
    keys.push(k.idx.lease_expiry());
    keys.push(k.idx.worker_leases(k.worker_instance_id));
    keys.push(k.idx.lane_active(k.lane_id));
    keys.push(k.idx.lane_blocked_dependencies(k.lane_id));
    keys.push(k.idx.attempt_timeout());
    let mut argv: Vec<String> = Vec::new();
    argv.push(args.execution_id.as_str().to_owned());
    argv.push(wire::fence_lease_id(&args.fence));
    argv.push(wire::fence_lease_epoch(&args.fence));
    argv.push(wire::fence_attempt_id(&args.fence));
    argv.push(args.source.as_str().to_owned());
    Call { function: "ff_move_to_waiting_children", keys, argv }
}

/// Arguments of [`ff_fail_execution`].
pub struct FailExecutionArgs {
    pub execution_id: ExecutionId,
    pub fence: Option<LeaseFence>,
    pub attempt_index: AttemptIndex,
    pub failure_reason: String,
    pub failure_category: String,
    pub retry_policy_json: String,
    pub source: CancelSource,
}

/// Fail an execution.
pub fn ff_fail_execution(k: &ExecOpKeys, args: &FailExecutionArgs) -> (r: Call)
    ensures
        r.function == "ff_fail_execution",
        r.keys_spec() == seq![
            k.ctx.core_key_spec(),
            k.ctx.attempt_hash_spec(args.attempt_index),
            k.idx.lease_expiry_spec(),
            k.idx.worker_leases_spec(k.worker_instance_id@),
            k.idx.lane_terminal_spec(k.lane_id@),
            k.idx.lane_delayed_spec(k.lane_id@),
            k.ctx.lease_current_spec(),
            k.ctx.lease_history_spec(),
            k.idx.lane_active_spec(k.lane_id@),
            k.ctx.stream_meta_spec(args.attempt_index),
            k.idx.attempt_timeout_spec(),
            k.idx.execution_deadline_spec(),
        ],
        r.argv_spec() == seq![
            args.execution_id@,
            wire::fence_lease_id_spec(args.fence),
            wire::fence_lease_epoch_spec(args.fence),
            wire::fence_attempt_id_spec(args.fence),
            args.failure_reason@,
            args.failure_category@,
            args.retry_policy_json@,
            args.source.text_spec(),
        ],
{
    let mut keys: Vec<String> = Vec::new();
    keys.push(k.ctx.core_key());
    keys.push(k.ctx.attempt_hash(args.attempt_index));
    keys.push(k.idx.lease_expiry());
    keys.push(k.idx.worker_leases(k.worker_instance_id));
    keys.push(k.idx.lane_terminal(k.lane_id));
    keys.push(k.idx.lane_delayed(k.lane_id));
    keys.push(k.ctx.lease_current());
    keys.push(k.ctx.lease_history());
    keys.push(k.idx.lane_active(k.lane_id));
    keys.push(k.ctx.stream_meta(args.attempt_index));
    keys.push(k.idx.attempt_timeout());
    keys.push(k.idx.execution_deadline());
    let mut argv: Vec<String> = Vec::new();
    argv.push(args.execution_id.as_str().to_owned());
    argv.push(wire::fence_lease_id(&args.fence));
    argv.push(wire::fence_lease_epoch(&args.fence));
    argv.push(wire::fence_attempt_id(&args.fence));
    argv.push(args.failure_reason.as_str().to_owned());
    argv.push(args.failure_category.as_str().to_owned());
    argv.push(args.retry_policy_json.as_str().to_owned());
    argv.push(args.source.as_str().to_owned());
    Call { function: "ff_fail_execution", keys, argv }
}

/// Arguments of [`ff_expire_execution`].
pub struct ExpireExecutionArgs {
    pub execution_id: ExecutionId,
    pub expire_reason: String,
}

/// Expire an execution. The keys of attempt zero stand in for those of the current attempt.
pub fn ff_expire_execution(k: &ExecOpKeys, args: &ExpireExecutionArgs) -> (r: Call)
    ensures
        r.function == "ff_expire_execution",
        r.keys_spec() == seq![
            k.ctx.core_key_spec(),
            k.ctx.attempt_hash_spec(AttemptIndex(0)),
            k.ctx.stream_meta_spec(AttemptIndex(0)),
            k.ctx.lease_current_spec(),
            k.ctx.lease_history_spec(),
            k.idx.lease_expiry_spec(),
            k.idx.worker_leases_spec(k.worker_instance_id@),
            k.idx.lane_active_spec(k.lane_id@),
            k.idx.lane_terminal_spec(k.lane_id@),
            k.idx.attempt_timeout_spec(),
            k.idx.execution_deadline_spec(),
            k.idx.lane_suspended_spec(k.lane_id@),
            k.idx.suspension_timeout_spec(),
            k.ctx.suspension_current_spec(),
        ],
        r.argv_spec() == seq![
            args.execution_id@,
            args.expire_reason@,
        ],
{
    let mut keys: Vec<String> = Vec::new();
    keys.push(k.ctx.core_key());
    keys.push(k.ctx.attempt_hash(AttemptIndex(0)));
    keys.push(k.ctx.stream_meta(AttemptIndex(0)));
    keys.push(k.ctx.lease_current());
    keys.push(k.ctx.lease_history());
    keys.push(k.idx.lease_expiry());
    keys.push(k.idx.worker_leases(k.worker_instance_id));
    keys.push(k.idx.lane_active(k.lane_id));
    keys.push(k.idx.lane_terminal(k.lane_id));
    keys.push(k.idx.attempt_timeout());
    keys.push(k.idx.execution_deadline());
    keys.push(k.idx.lane_suspended(k.lane_id));
    keys.push(k.idx.suspension_timeout());
    keys.push(k.ctx.suspension_current());
    let mut argv: Vec<String> = Vec::new();
    argv.push(args.execution_id.as_str().to_owned());
    argv.push(args.expire_reason.as_str().to_owned());
    Call { function: "ff_expire_execution", keys, argv }
}

// ── Creation ──

/// Outcome of a creation.
#[derive(Debug)]
pub enum CreateExecutionResult<I = ExecutionId> {
    Created { execution_id: I, public_state: PublicState },
    /// The same idempotency key created `execution_id` before.
    Duplicate { execution_id: I },
}

impl View for CreateExecutionResult {
    type V = CreateExecutionResult<Seq<char>>;

    open spec fn view(&self) -> CreateExecutionResult<Seq<char>> {
        match *self {
            CreateExecutionResult::Created { execution_id, public_state } => {
                CreateExecutionResult::Created { execution_id: execution_id@, public_state }
            },
            CreateExecutionResult::Duplicate { execution_id } => CreateExecutionResult::Duplicate {
                execution_id: execution_id@,
            },
        }
    }
}

/// The meaning of a reply to a creation.
pub open spec fn create_reply(raw: Value) -> Result<
    CreateExecutionResult<Seq<char>>,
    ScriptErrorView,
> {
    match result::envelope(raw) {
        Err(e) => Err(e),
        Ok(f) => if f.status == "DUPLICATE"@ {
            match fields::execution_id_spec(f, 0, "ff_create_execution"@, "bad execution_id: "@) {
                Ok(execution_id) => Ok(CreateExecutionResult::Duplicate { execution_id }),
                Err(e) => Err(e),
            }
        } else {
            match result::success_of(f) {
                Err(e) => Err(e),
                Ok(f) => match fields::execution_id_spec(
                    f,
                    0,
                    "ff_create_execution"@,
                    "bad execution_id: "@,
                ) {
                    Err(e) => Err(e),
                    Ok(execution_id) => match public_state(f.field(1)) {
                        Err(e) => Err(e),
                        Ok(public_state) => Ok(
                            CreateExecutionResult::Created { execution_id, public_state },
                        ),
                    },
                },
            }
        },
    }
}

impl FromFcallResult for CreateExecutionResult {
    fn from_fcall_result(raw: &Value) -> (r: Result<CreateExecutionResult, ScriptError>)
        ensures
            fields::agrees(r, create_reply(*raw)),
    {
        let f = match FcallResult::parse(raw) {
            Ok(f) => f,
            Err(e) => {
                return Err(e);
            },
        };
        if text::same(f.status.as_str(), "DUPLICATE") {
            return match fields::execution_id_field(
                &f,
                0,
                "ff_create_execution",
                "bad execution_id: ",
            ) {
                Ok(execution_id) => Ok(CreateExecutionResult::Duplicate { execution_id }),
                Err(e) => Err(e),
            };
        }
        let f = match f.into_success() {
            Ok(f) => f,
            Err(e) => {
                return Err(e);
            },
        };
        match fields::execution_id_field(&f, 0, "ff_create_execution", "bad execution_id: ") {
            Err(e) => Err(e),
            Ok(execution_id) => match parse_public_state(f.field_str(1).as_str()) {
                Err(e) => Err(e),
                Ok(public_state) => Ok(
                    CreateExecutionResult::Created { execution_id, public_state },
                ),
            },
        }
    }
}

// ── Claim ──

/// A claimed execution, without its identity.
#[derive(Debug)]
pub struct ClaimedExecutionPartial<L = LeaseId, A = AttemptId> {
    pub lease_id: L,
    pub lease_epoch: LeaseEpoch,
    pub attempt_index: AttemptIndex,
    pub attempt_id: A,
    pub attempt_type: AttemptType,
    pub lease_expires_at: TimestampMs,
}

/// Outcome of a claim, without the execution.
#[derive(Debug)]
pub enum ClaimExecutionResultPartial<L = LeaseId, A = AttemptId> {
    Claimed(ClaimedExecutionPartial<L, A>),
}

/// A claimed execution.
#[derive(Debug)]
pub struct ClaimedExecution {
    pub execution_id: ExecutionId,
    pub lease_id: LeaseId,
    pub lease_epoch: LeaseEpoch,
    pub attempt_index: AttemptIndex,
    pub attempt_id: AttemptId,
    pub attempt_type: AttemptType,
    pub lease_expires_at: TimestampMs,
}

/// Outcome of a claim.
#[derive(Debug)]
pub enum ClaimExecutionResult {
    Claimed(ClaimedExecution),
}

impl View for ClaimExecutionResultPartial {
    type V = ClaimExecutionResultPartial<Seq<char>, Seq<char>>;

    open spec fn view(&self) -> ClaimExecutionResultPartial<Seq<char>, Seq<char>> {
        match *self {
            ClaimExecutionResultPartial::Claimed(p) => ClaimExecutionResultPartial::Claimed(
                ClaimedExecutionPartial {
                    lease_id: p.lease_id@,
                    lease_epoch: p.lease_epoch,
                    attempt_index: p.attempt_index,
                    attempt_id: p.attempt_id@,
                    attempt_type: p.attempt_type,
                    lease_expires_at: p.lease_expires_at,
                },
            ),
        }
    }
}

impl ClaimExecutionResultPartial {
    /// Attach the execution that was claimed.
    pub fn complete(self, execution_id: ExecutionId) -> (r: ClaimExecutionResult)
        ensures
            match (self, r) {
                (
                    ClaimExecutionResultPartial::Claimed(p),
                    ClaimExecutionResult::Claimed(c),
                ) => c == (ClaimedExecution {
                    execution_id,
                    lease_id: p.lease_id,
                    lease_epoch: p.lease_epoch,
                    attempt_index: p.attempt_index,
                    attempt_id: p.attempt_id,
                    attempt_type: p.attempt_type,
                    lease_expires_at: p.lease_expires_at,
                }),
            },
    {
        match self {
            ClaimExecutionResultPartial::Claimed(p) => ClaimExecutionResult::Claimed(
                ClaimedExecution {
                    execution_id,
                    lease_id: p.lease_id,
                    lease_epoch: p.lease_epoch,
                    attempt_index: p.attempt_index,
                    attempt_id: p.attempt_id,
                    attempt_type: p.attempt_type,
                    lease_expires_at: p.lease_expires_at,
                },
            ),
        }
    }
}

/// The name under which an unreadable claim is reported.
pub open spec fn claim_name() -> Seq<char> {
    "ff_claim_execution_result_partial"@
}

/// The meaning of the fields of an accepted claim: lease, epoch, expiry, attempt,
/// attempt index and attempt type. The first field that cannot be read decides.
pub open spec fn claim_fields(f: FcallView) -> Result<
    ClaimExecutionResultPartial<Seq<char>, Seq<char>>,
    ScriptErrorView,
> {
    match fields::lease_id_spec(f, 0, claim_name(), "bad lease_id: "@) {
        Err(e) => Err(e),
        Ok(lease_id) => match fields::u64_spec(f, 1, claim_name(), "bad epoch: "@) {
            Err(e) => Err(e),
            Ok(epoch) => match fields::i64_spec(f, 2, claim_name(), "bad expires_at: "@) {
                Err(e) => Err(e),
                Ok(expires_at) => match fields::attempt_id_spec(
                    f,
                    3,
                    claim_name(),
                    "bad attempt_id: "@,
                ) {
                    Err(e) => Err(e),
                    Ok(attempt_id) => match fields::u32_spec(
                        f,
                        4,
                        claim_name(),
                        "bad attempt_index: "@,
                    ) {
                        Err(e) => Err(e),
                        Ok(attempt_index) => match attempt_type_of(f.field(5)) {
                            Err(e) => Err(e),
                            Ok(attempt_type) => Ok(
                                ClaimExecutionResultPartial::Claimed(
                                    ClaimedExecutionPartial {
                                        lease_id,
                                        lease_epoch: LeaseEpoch(epoch),
                                        attempt_index: AttemptIndex(attempt_index),
                                        attempt_id,
                                        attempt_type,
                                        lease_expires_at: TimestampMs(expires_at),
                                    },
                                ),
                            ),
                        },
                    },
                },
            },
        },
    }
}

/// The meaning of a reply to a claim.
pub open spec fn claim_reply(raw: Value) -> Result<
    ClaimExecutionResultPartial<Seq<char>, Seq<char>>,
    ScriptErrorView,
> {
    match result::accepted(raw) {
        Err(e) => Err(e),
        Ok(f) => claim_fields(f),
    }
}

impl FromFcallResult for ClaimExecutionResultPartial {
    fn from_fcall_result(raw: &Value) -> (r: Result<ClaimExecutionResultPartial, ScriptError>)
        ensures
            fields::agrees(r, claim_reply(*raw)),
    {
        let f = match result::accept(raw) {
            Ok(f) => f,
            Err(e) => {
                return Err(e);
            },
        };
        let fcall = "ff_claim_execution_result_partial";
        let lease_id = match fields::lease_id_field(&f, 0, fcall, "bad lease_id: ") {
            Ok(x) => x,
            Err(e) => {
                return Err(e);
            },
        };
        let epoch: u64 = match fields::u64_field(&f, 1, fcall, "bad epoch: ") {
            Ok(x) => x,
            Err(e) => {
                return Err(e);
            },
        };
        let expires_at: i64 = match fields::i64_field(&f, 2, fcall, "bad expires_at: ") {
            Ok(x) => x,
            Err(e) => {
                return Err(e);
            },
        };
        let attempt_id = match fields::attempt_id_field(&f, 3, fcall, "bad attempt_id: ") {
            Ok(x) => x,
            Err(e) => {
                return Err(e);
            },
        };
        let attempt_index: u32 = match fields::u32_field(&f, 4, fcall, "bad attempt_index: ") {
            Ok(x) => x,
            Err(e) => {
                return Err(e);
            },
        };
        match parse_attempt_type(f.field_str(5).as_str()) {
            Err(e) => Err(e),
            Ok(attempt_type) => Ok(
                ClaimExecutionResultPartial::Claimed(
                    ClaimedExecutionPartial {
                        lease_id,
                        lease_epoch: LeaseEpoch(epoch),
                        attempt_index: AttemptIndex(attempt_index),
                        attempt_id,
                        attempt_type,
                        lease_expires_at: TimestampMs(expires_at),
                    },
                ),
            ),
        }
    }
}

// ── Completion ──

/// Outcome of a completion, without the execution.
#[derive(Clone, Copy, Debug, PartialEq, Eq, Structural)]
pub enum CompleteExecutionResultPartial {
    Completed { public_state: PublicState },
}

impl View for CompleteExecutionResultPartial {
    type V = CompleteExecutionResultPartial;

    open spec fn view(&self) -> CompleteExecutionResultPartial {
        *self
    }
}

/// Outcome of a completion.
#[derive(Debug)]
pub enum CompleteExecutionResult {
    Completed { execution_id: ExecutionId, public_state: PublicState },
}

impl CompleteExecutionResultPartial {
    /// Attach the execution.
    pub fn complete(self, execution_id: ExecutionId) -> (r: CompleteExecutionResult)
        ensures
            r == match self {
                CompleteExecutionResultPartial::Completed { public_state } => CompleteExecutionResult::Completed {
                    execution_id,
                    public_state,
                },
            },
    {
        match self {
            CompleteExecutionResultPartial::Completed { public_state } => CompleteExecutionResult::Completed {
                execution_id,
                public_state,
            },
        }
    }
}

/// The meaning of a reply to a completion: an accepted call leaves the execution
/// completed.
pub open spec fn complete_reply(raw: Value) -> Result<CompleteExecutionResultPartial, ScriptErrorView> {
    match result::accepted(raw) {
        Ok(_) => Ok(CompleteExecutionResultPartial::Completed { public_state: PublicState::Completed }),
        Err(e) => Err(e),
    }
}

impl FromFcallResult for CompleteExecutionResultPartial {
    fn from_fcall_result(raw: &Value) -> (r: Result<CompleteExecutionResultPartial, ScriptError>)
        ensures
            fields::agrees(r, complete_reply(*raw)),
    {
        match result::accept(raw) {
            Ok(_) => Ok(CompleteExecutionResultPartial::Completed { public_state: PublicState::Completed }),
            Err(e) => Err(e),
        }
    }
}

// ── Cancellation ──

/// Outcome of a cancellation, without the execution.
#[derive(Clone, Copy, Debug, PartialEq, Eq, Structural)]
pub enum CancelExecutionResultPartial {
    Cancelled { public_state: PublicState },
}

impl View for CancelExecutionResultPartial {
    type V = CancelExecutionResultPartial;

    open spec fn view(&self) -> CancelExecutionResultPartial {
        *self
    }
}

/// Outcome of a cancellation.
#[derive(Debug)]
pub enum CancelExecutionResult {
    Cancelled { execution_id: ExecutionId, public_state: PublicState },
}

impl CancelExecutionResultPartial {
    /// Attach the execution.
    pub fn complete(self, execution_id: ExecutionId) -> (r: CancelExecutionResult)
        ensures
            r == match self {
                CancelExecutionResultPartial::Cancelled { public_state } => CancelExecutionResult::Cancelled {
                    execution_id,
                    public_state,
                },
            },
    {
        match self {
            CancelExecutionResultPartial::Cancelled { public_state } => CancelExecutionResult::Cancelled {
                execution_id,
                public_state,
            },
        }
    }
}

/// The meaning of a reply to a cancellation: an accepted call leaves the execution
/// cancelled.
pub open spec fn cancel_reply(raw: Value) -> Result<CancelExecutionResultPartial, ScriptErrorView> {
    match result::accepted(raw) {
        Ok(_) => Ok(CancelExecutionResultPartial::Cancelled { public_state: PublicState::Cancelled }),
        Err(e) => Err(e),
    }
}

impl FromFcallResult for CancelExecutionResultPartial {
    fn from_fcall_result(raw: &Value) -> (r: Result<CancelExecutionResultPartial, ScriptError>)
        ensures
            fields::agrees(r, cancel_reply(*raw)),
    {
        match result::accept(raw) {
            Ok(_) => Ok(CancelExecutionResultPartial::Cancelled { public_state: PublicState::Cancelled }),
            Err(e) => Err(e),
        }
    }
}

// ── Delay ──

/// Outcome of a delay, without the execution.
#[derive(Clone, Copy, Debug, PartialEq, Eq, Structural)]
pub enum DelayExecutionResultPartial {
    Delayed { public_state: PublicState },
}

impl View for DelayExecutionResultPartial {
    type V = DelayExecutionResultPartial;

    open spec fn view(&self) -> DelayExecutionResultPartial {
        *self
    }
}

/// Outcome of a delay.
#[derive(Debug)]
pub enum DelayExecutionResult {
    Delayed { execution_id: ExecutionId, public_state: PublicState },
}

impl DelayExecutionResultPartial {
    /// Attach the execution.
    pub fn complete(self, execution_id: ExecutionId) -> (r: DelayExecutionResult)
        ensures
            r == match self {
                DelayExecutionResultPartial::Delayed { public_state } => DelayExecutionResult::Delayed {
                    execution_id,
                    public_state,
                },
            },
    {
        match self {
            DelayExecutionResultPartial::Delayed { public_state } => DelayExecutionResult::Delayed {
                execution_id,
                public_state,
            },
        }
    }
}

/// The meaning of a reply to a delay: an accepted call leaves the execution
/// delayed.
pub open spec fn delay_reply(raw: Value) -> Result<DelayExecutionResultPartial, ScriptErrorView> {
    match result::accepted(raw) {
        Ok(_) => Ok(DelayExecutionResultPartial::Delayed { public_state: PublicState::Delayed }),
        Err(e) => Err(e),
    }
}

impl FromFcallResult for DelayExecutionResultPartial {
    fn from_fcall_result(raw: &Value) -> (r: Result<DelayExecutionResultPartial, ScriptError>)
        ensures
            fields::agrees(r, delay_reply(*raw)),
    {
        match result::accept(raw) {
            Ok(_) => Ok(DelayExecutionResultPartial::Delayed { public_state: PublicState::Delayed }),
            Err(e) => Err(e),
        }
    }
}

// ── Waiting for children ──

/// Outcome of a wait for children, without the execution.
#[derive(Clone, Copy, Debug, PartialEq, Eq, Structural)]
pub enum MoveToWaitingChildrenResultPartial {
    Moved { public_state: PublicState },
}

impl View for MoveToWaitingChildrenResultPartial {
    type V = MoveToWaitingChildrenResultPartial;

    open spec fn view(&self) -> MoveToWaitingChildrenResultPartial {
        *self
    }
}

/// Outcome of a wait for children.
#[derive(Debug)]
pub enum MoveToWaitingChildrenResult {
    Moved { execution_id: ExecutionId, public_state: PublicState },
}

impl MoveToWaitingChildrenResultPartial {
    /// Attach the execution.
    pub fn complete(self, execution_id: ExecutionId) -> (r: MoveToWaitingChildrenResult)
        ensures
            r == match self {
                MoveToWaitingChildrenResultPartial::Moved { public_state } => MoveToWaitingChildrenResult::Moved {
                    execution_id,
                    public_state,
                },
            },
    {
        match self {
            MoveToWaitingChildrenResultPartial::Moved { public_state } => MoveToWaitingChildrenResult::Moved {
                execution_id,
                public_state,
            },
        }
    }
}

/// The meaning of a reply to a wait for children: an accepted call leaves the execution
/// waiting for its children.
pub open spec fn move_reply(raw: Value) -> Result<MoveToWaitingChildrenResultPartial, ScriptErrorView> {
    match result::accepted(raw) {
        Ok(_) => Ok(MoveToWaitingChildrenResultPartial::Moved { public_state: PublicState::WaitingChildren }),
        Err(e) => Err(e),
    }
}

impl FromFcallResult for MoveToWaitingChildrenResultPartial {
    fn from_fcall_result(raw: &Value) -> (r: Result<MoveToWaitingChildrenResultPartial, ScriptError>)
        ensures
            fields::agrees(r, move_reply(*raw)),
    {
        match result::accept(raw) {
            Ok(_) => Ok(MoveToWaitingChildrenResultPartial::Moved { public_state: PublicState::WaitingChildren }),
            Err(e) => Err(e),
        }
    }
}


// ── Failure ──

/// Outcome of a failed attempt.
#[derive(Clone, Copy, Debug, PartialEq, Eq, Structural)]
pub enum FailExecutionResult {
    /// Another attempt is due. Its index is found when it is claimed.
    RetryScheduled { delay_until: TimestampMs, next_attempt_index: AttemptIndex },
    TerminalFailed,
}

impl View for FailExecutionResult {
    type V = FailExecutionResult;

    open spec fn view(&self) -> FailExecutionResult {
        *self
    }
}

/// The meaning of a reply to a failed attempt.
pub open spec fn fail_execution_reply(raw: Value) -> Result<FailExecutionResult, ScriptErrorView> {
    match result::accepted(raw) {
        Err(e) => Err(e),
        Ok(f) => if f.field(0) == "retry_scheduled"@ {
            match fields::i64_spec(f, 1, "ff_fail_execution"@, "bad delay_until: "@) {
                Err(e) => Err(e),
                Ok(t) => Ok(
                    FailExecutionResult::RetryScheduled {
                        delay_until: TimestampMs(t),
                        next_attempt_index: AttemptIndex(0),
                    },
                ),
            }
        } else if f.field(0) == "terminal_failed"@ {
            Ok(FailExecutionResult::TerminalFailed)
        } else {
            Err(
                error::parse_error(
                    "ff_fail_execution"@,
                    "unexpected fail sub-status: "@ + f.field(0),
                ),
            )
        },
    }
}

impl FromFcallResult for FailExecutionResult {
    fn from_fcall_result(raw: &Value) -> (r: Result<FailExecutionResult, ScriptError>)
        ensures
            fields::agrees(r, fail_execution_reply(*raw)),
    {
        let f = match result::accept(raw) {
            Ok(f) => f,
            Err(e) => {
                return Err(e);
            },
        };
        let sub_status = f.field_str(0);
        if text::same(sub_status.as_str(), "retry_scheduled") {
            match fields::i64_field(&f, 1, "ff_fail_execution", "bad delay_until: ") {
                Err(e) => Err(e),
                Ok(t) => Ok(
                    FailExecutionResult::RetryScheduled {
                        delay_until: TimestampMs(t),
                        next_attempt_index: AttemptIndex(0),
                    },
                ),
            }
        } else if text::same(sub_status.as_str(), "terminal_failed") {
            Ok(FailExecutionResult::TerminalFailed)
        } else {
            Err(
                error::unreadable(
                    "ff_fail_execution",
                    error::prefixed("unexpected fail sub-status: ", sub_status.as_str()),
                ),
            )
        }
    }
}

// ── Expiry ──

/// Outcome of an expiry, without the execution.
#[derive(Clone, Copy, Debug, PartialEq, Eq, Structural)]
pub enum ExpireExecutionResultPartial {
    Expired,
    AlreadyTerminal,
}

impl View for ExpireExecutionResultPartial {
    type V = ExpireExecutionResultPartial;

    open spec fn view(&self) -> ExpireExecutionResultPartial {
        *self
    }
}

/// Outcome of an expiry.
#[derive(Debug)]
pub enum ExpireExecutionResult {
    Expired { execution_id: ExecutionId },
    AlreadyTerminal,
}

impl ExpireExecutionResultPartial {
    /// Attach the execution, where the outcome names it.
    pub fn complete(self, execution_id: ExecutionId) -> (r: ExpireExecutionResult)
        ensures
            r == match self {
                ExpireExecutionResultPartial::Expired => ExpireExecutionResult::Expired {
                    execution_id,
                },
                ExpireExecutionResultPartial::AlreadyTerminal => {
                    ExpireExecutionResult::AlreadyTerminal
                },
            },
    {
        match self {
            ExpireExecutionResultPartial::Expired => ExpireExecutionResult::Expired {
                execution_id,
            },
            ExpireExecutionResultPartial::AlreadyTerminal => ExpireExecutionResult::AlreadyTerminal,
        }
    }
}

/// The meaning of a reply to an expiry.
pub open spec fn expire_reply(raw: Value) -> Result<ExpireExecutionResultPartial, ScriptErrorView> {
    match result::accepted(raw) {
        Err(e) => Err(e),
        Ok(f) => if f.field(0) == "already_terminal"@ || f.field(0) == "not_found_cleaned"@ {
            Ok(ExpireExecutionResultPartial::AlreadyTerminal)
        } else {
            Ok(ExpireExecutionResultPartial::Expired)
        },
    }
}

impl FromFcallResult for ExpireExecutionResultPartial {
    fn from_fcall_result(raw: &Value) -> (r: Result<ExpireExecutionResultPartial, ScriptError>)
        ensures
            fields::agrees(r, expire_reply(*raw)),
    {
        match result::accept(raw) {
            Err(e) => Err(e),
            Ok(f) => {
                let sub = f.field_str(0);
                if text::same(sub.as_str(), "already_terminal") || text::same(
                    sub.as_str(),
                    "not_found_cleaned",
                ) {
                    Ok(ExpireExecutionResultPartial::AlreadyTerminal)
                } else {
                    Ok(ExpireExecutionResultPartial::Expired)
                }
            },
        }
    }
}

// ── Tags ──

/// Set tags of an execution. They are sent in the order of their keys, so that the
/// same tags make the same arguments.
pub fn ff_set_execution_tags(ctx: &ExecKeyContext, tags: &FieldMap) -> (r: Call)
    ensures
        r.function == "ff_set_execution_tags",
        r.keys_spec() == seq![ctx.core_key_spec(), ctx.tags_spec()],
        r.argv_spec() == wire::alternating(tags.pairs()),
        field_map::ascending(tags.pairs()),
{
    let mut keys: Vec<String> = Vec::new();
    keys.push(ctx.core_key());
    keys.push(ctx.tags());
    Call { function: "ff_set_execution_tags", keys, argv: wire::flatten(tags) }
}

/// Outcome of setting tags: how many were written.
#[derive(Clone, Copy, Debug, PartialEq, Eq, Structural)]
pub struct SetExecutionTagsResult {
    pub count: u32,
}

impl View for SetExecutionTagsResult {
    type V = SetExecutionTagsResult;

    open spec fn view(&self) -> SetExecutionTagsResult {
        *self
    }
}

/// The number of tags that a reply of `fcall` reports.
pub open spec fn tag_count(raw: Value, fcall: Seq<char>) -> Result<u32, ScriptErrorView> {
    match result::accepted(raw) {
        Err(e) => Err(e),
        Ok(f) => fields::u32_spec(f, 0, fcall, "bad tag count: "@),
    }
}

/// The number of tags that a reply of `fcall` reports.
pub(crate) fn read_tag_count(raw: &Value, fcall: &str) -> (r: Result<u32, ScriptError>)
    ensures
        fields::agrees(r, tag_count(*raw, fcall@)),
{
    match result::accept(raw) {
        Err(e) => Err(e),
        Ok(f) => fields::u32_field(&f, 0, fcall, "bad tag count: "),
    }
}

impl FromFcallResult for SetExecutionTagsResult {
    fn from_fcall_result(raw: &Value) -> (r: Result<SetExecutionTagsResult, ScriptError>)
        ensures
            match tag_count(*raw, "ff_set_execution_tags"@) {
                Ok(count) => r == Ok::<SetExecutionTagsResult, ScriptError>(
                    SetExecutionTagsResult { count },
                ),
                Err(e) => r matches Err(x) && x@ == e,
            },
    {
        match read_tag_count(raw, "ff_set_execution_tags") {
            Ok(count) => Ok(SetExecutionTagsResult { count }),
            Err(e) => Err(e),
        }
    }
}

/// A lower-case ASCII letter.
pub open spec fn lower(c: char) -> bool {
    'a' <= c && c <= 'z'
}

/// A character of a tag namespace after the first.
pub open spec fn namespace_char(c: char) -> bool {
    lower(c) || numbers::is_digit(c) || c == '_'
}

/// Whether a key is `<namespace>.<field>`: a lower-case letter, then lower-case
/// letters, digits and underscores up to the first dot at `dot`, and after it a
/// character other than a dot.
pub open spec fn tag_key_with(key: Seq<char>, dot: int) -> bool {
    &&& 1 <= dot
    &&& dot + 1 < key.len()
    &&& lower(key[0])
    &&& forall|i: int| 1 <= i < dot ==> namespace_char(#[trigger] key[i])
    &&& key[dot] == '.'
    &&& key[dot + 1] != '.'
}

/// Whether a key is `<namespace>.<field>`.
pub open spec fn tag_key_ok(key: Seq<char>) -> bool {
    exists|dot: int| tag_key_with(key, dot)
}

fn invalid_tag_key(key: &str) -> (r: Result<(), ScriptError>)
    ensures
        r matches Err(e) && e@ == ScriptErrorView::InvalidTagKey(key@),
{
    Err(ScriptError::InvalidTagKey(key.to_owned()))
}

/// Check a tag key before it is sent: accepted exactly when it is
/// `<namespace>.<field>`, and otherwise refused with the key.
pub fn validate_tag_key(key: &str) -> (r: Result<(), ScriptError>)
    ensures
        r is Ok <==> tag_key_ok(key@),
        r matches Err(e) ==> e@ == ScriptErrorView::InvalidTagKey(key@),
{
    let x = text::chars_of(key);
    let n: usize = x.len();
    if n == 0 || !('a' <= x[0] && x[0] <= 'z') {
        return invalid_tag_key(key);
    }
    let mut i: usize = 1;
    while i < n
        invariant
            x@ == key@,
            n == x@.len(),
            1 <= i <= n,
            lower(key@[0]),
            forall|j: int| 1 <= j < i ==> namespace_char(#[trigger] key@[j]),
        decreases n - i,
    {
        let c = x[i];
        if c == '.' {
            if i + 1 < n && x[i + 1] != '.' {
                assert(tag_key_with(key@, i as int));
                return Ok(());
            }
            proof {
                assert forall|dot: int| !tag_key_with(key@, dot) by {
                    if tag_key_with(key@, dot) {
                        if dot > i {
                            assert(namespace_char(key@[i as int]));
                        } else if dot < i {
                            assert(namespace_char(key@[dot]));
                        }
                    }
                }
            }
            return invalid_tag_key(key);
        }
        if !(('a' <= c && c <= 'z') || ('0' <= c && c <= '9') || c == '_') {
            proof {
                assert forall|dot: int| !tag_key_with(key@, dot) by {
                    if tag_key_with(key@, dot) {
                        if dot > i {
                            assert(namespace_char(key@[i as int]));
                        } else if dot < i {
                            assert(namespace_char(key@[dot]));
                        }
                    }
                }
            }
            return invalid_tag_key(key);
        }
        i = i + 1;
    }
    proof {
        assert forall|dot: int| !tag_key_with(key@, dot) by {
            if tag_key_with(key@, dot) {
                assert(namespace_char(key@[dot]));
            }
        }
    }
    invalid_tag_key(key)
}

} // verus!
