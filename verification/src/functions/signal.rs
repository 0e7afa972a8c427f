//! Calls that deliver signals, and the claim of a resumed execution.

use vstd::prelude::*;
use vstd::string::*;

use crate::error::{ScriptError, ScriptErrorView};
use crate::fields;
use crate::fields::FromFcallResult;
use crate::functions::execution::ExecOpKeys;
use crate::ids::{
    AttemptId, AttemptIndex, ExecutionId, LeaseEpoch, LeaseId, SignalId, TimestampMs, WaitpointId,
};
use crate::keys::{ExecKeyContext, IndexKeys};
use crate::names::{LaneId, WorkerId, WorkerInstanceId};
use crate::numbers;
use crate::result;
use crate::result::{FcallResult, FcallView};
use crate::text;
use crate::value::Value;
use crate::wire;
use crate::wire::Call;

verus! {

/// The key that guards an idempotent delivery; a harmless one without an
/// idempotency key.
pub open spec fn dedup_slot_spec(
    ctx: ExecKeyContext,
    waitpoint: Seq<char>,
    idempotency_key: Option<String>,
) -> Seq<char> {
    match idempotency_key {
        Some(ik) => if ik@.len() == 0 {
            ctx.noop_spec()
        } else {
            ctx.signal_dedup_spec(waitpoint, ik@)
        },
        None => ctx.noop_spec(),
    }
}

fn dedup_slot(
    ctx: &ExecKeyContext,
    waitpoint: &WaitpointId,
    idempotency_key: &Option<String>,
) -> (r: String)
    ensures
        r@ == dedup_slot_spec(*ctx, waitpoint@, *idempotency_key),
{
    match idempotency_key {
        Some(ik) => if ik.as_str().is_empty() {
            ctx.noop()
        } else {
            ctx.signal_dedup(waitpoint, ik.as_str())
        },
        None => ctx.noop(),
    }
}

/// Key contexts of a signal delivery.
pub struct SignalOpKeys<'a> {
    pub ctx: &'a ExecKeyContext,
    pub idx: &'a IndexKeys,
    pub lane_id: &'a LaneId,
}

/// Arguments of [`ff_deliver_signal`].
pub struct DeliverSignalArgs {
    pub execution_id: ExecutionId,
    pub waitpoint_id: WaitpointId,
    pub signal_id: SignalId,
    pub signal_name: String,
    pub signal_category: String,
    pub source_type: String,
    pub source_identity: String,
    pub payload: Option<Vec<u8>>,
    pub payload_encoding: Option<String>,
    pub correlation_id: Option<String>,
    pub idempotency_key: Option<String>,
    pub target_scope: String,
    pub created_at: Option<TimestampMs>,
    pub dedup_ttl_ms: Option<u64>,
    pub resume_delay_ms: Option<u64>,
    pub max_signals_per_execution: Option<u64>,
    pub signal_maxlen: Option<u64>,
}

/// Deliver a signal to a waitpoint.
pub fn ff_deliver_signal(k: &SignalOpKeys, args: &DeliverSignalArgs) -> (r: Call)
    ensures
        r.function == "ff_deliver_signal",
        r.keys_spec() == seq![
            k.ctx.core_key_spec(),
            k.ctx.waitpoint_condition_spec(args.waitpoint_id@),
            k.ctx.waitpoint_signals_spec(args.waitpoint_id@),
            k.ctx.exec_signals_spec(),
            k.ctx.signal_spec(args.signal_id@),
            k.ctx.signal_payload_spec(args.signal_id@),
            dedup_slot_spec(*k.ctx, args.waitpoint_id@, args.idempotency_key),
            k.ctx.waitpoint_spec(args.waitpoint_id@),
            k.ctx.suspension_current_spec(),
            k.idx.lane_eligible_spec(k.lane_id@),
            k.idx.lane_suspended_spec(k.lane_id@),
            k.idx.lane_delayed_spec(k.lane_id@),
            k.idx.suspension_timeout_spec(),
        ],
        r.argv_spec() == seq![
            args.signal_id@,
            args.execution_id@,
            args.waitpoint_id@,
            args.signal_name@,
            args.signal_category@,
            args.source_type@,
            args.source_identity@,
            wire::opt_lossy_spec(args.payload),
            wire::or_spec(args.payload_encoding, "json"@),
            wire::or_spec(args.idempotency_key, ""@),
            wire::or_spec(args.correlation_id, ""@),
            args.target_scope@,
            wire::opt_time_spec(args.created_at),
            numbers::decimal(wire::or_u64_spec(args.dedup_ttl_ms, 86_400_000) as int),
            numbers::decimal(wire::or_u64_spec(args.resume_delay_ms, 0) as int),
            numbers::decimal(wire::or_u64_spec(args.signal_maxlen, 1000) as int),
            numbers::decimal(wire::or_u64_spec(args.max_signals_per_execution, 10_000) as int),
        ],
{
    let mut keys: Vec<String> = Vec::new();
    keys.push(k.ctx.core_key());
    keys.push(k.ctx.waitpoint_condition(&args.waitpoint_id));
    keys.push(k.ctx.waitpoint_signals(&args.waitpoint_id));
    keys.push(k.ctx.exec_signals());
    keys.push(k.ctx.signal(&args.signal_id));
    keys.push(k.ctx.signal_payload(&args.signal_id));
    keys.push(dedup_slot(k.ctx, &args.waitpoint_id, &args.idempotency_key));
    keys.push(k.ctx.waitpoint(&args.waitpoint_id));
    keys.push(k.ctx.suspension_current());
    keys.push(k.idx.lane_eligible(k.lane_id));
    keys.push(k.idx.lane_suspended(k.lane_id));
    keys.push(k.idx.lane_delayed(k.lane_id));
    keys.push(k.idx.suspension_timeout());
    let mut argv: Vec<String> = Vec::new();
    argv.push(args.signal_id.as_str().to_owned());
    argv.push(args.execution_id.as_str().to_owned());
    argv.push(args.waitpoint_id.as_str().to_owned());
    argv.push(args.signal_name.as_str().to_owned());
    argv.push(args.signal_category.as_str().to_owned());
    argv.push(args.source_type.as_str().to_owned());
    argv.push(args.source_identity.as_str().to_owned());
    argv.push(wire::opt_lossy(&args.payload));
    argv.push(wire::or_text(&args.payload_encoding, "json"));
    argv.push(wire::or_text(&args.idempotency_key, ""));
    argv.push(wire::or_text(&args.correlation_id, ""));
    argv.push(args.target_scope.as_str().to_owned());
    argv.push(wire::opt_time(args.created_at));
    argv.push(numbers::u64_text(wire::or_u64(args.dedup_ttl_ms, 86_400_000)));
    argv.push(numbers::u64_text(wire::or_u64(args.resume_delay_ms, 0)));
    argv.push(numbers::u64_text(wire::or_u64(args.signal_maxlen, 1000)));
    argv.push(numbers::u64_text(wire::or_u64(args.max_signals_per_execution, 10_000)));
    Call { function: "ff_deliver_signal", keys, argv }
}

/// Arguments of [`ff_buffer_signal_for_pending_waitpoint`].
pub struct BufferSignalArgs {
    pub execution_id: ExecutionId,
    pub waitpoint_id: WaitpointId,
    pub signal_id: SignalId,
    pub signal_name: String,
    pub signal_category: String,
    pub source_type: String,
    pub source_identity: String,
    pub payload: Option<Vec<u8>>,
    pub payload_encoding: Option<String>,
    pub idempotency_key: Option<String>,
    pub target_scope: String,
}

/// Buffer a signal for a pending waitpoint.
pub fn ff_buffer_signal_for_pending_waitpoint(k: &SignalOpKeys, args: &BufferSignalArgs) -> (r: Call)
    ensures
        r.function == "ff_buffer_signal_for_pending_waitpoint",
        r.keys_spec() == seq![
            k.ctx.core_key_spec(),
            k.ctx.waitpoint_condition_spec(args.waitpoint_id@),
            k.ctx.waitpoint_signals_spec(args.waitpoint_id@),
            k.ctx.exec_signals_spec(),
            k.ctx.signal_spec(args.signal_id@),
            k.ctx.signal_payload_spec(args.signal_id@),
            dedup_slot_spec(*k.ctx, args.waitpoint_id@, args.idempotency_key),
        ],
        r.argv_spec() == seq![
            args.signal_id@,
            args.execution_id@,
            args.waitpoint_id@,
            args.signal_name@,
            args.signal_category@,
            args.source_type@,
            args.source_identity@,
            wire::opt_lossy_spec(args.payload),
            wire::or_spec(args.payload_encoding, "json"@),
            wire::or_spec(args.idempotency_key, ""@),
            Seq::<char>::empty(),
            args.target_scope@,
            Seq::<char>::empty(),
            Seq::<char>::empty(),
            Seq::<char>::empty(),
            Seq::<char>::empty(),
            Seq::<char>::empty(),
        ],
{
    let mut keys: Vec<String> = Vec::new();
    keys.push(k.ctx.core_key());
    keys.push(k.ctx.waitpoint_condition(&args.waitpoint_id));
    keys.push(k.ctx.waitpoint_signals(&args.waitpoint_id));
    keys.push(k.ctx.exec_signals());
    keys.push(k.ctx.signal(&args.signal_id));
    keys.push(k.ctx.signal_payload(&args.signal_id));
    keys.push(dedup_slot(k.ctx, &args.waitpoint_id, &args.idempotency_key));
    let mut argv: Vec<String> = Vec::new();
    argv.push(args.signal_id.as_str().to_owned());
    argv.push(args.execution_id.as_str().to_owned());
    argv.push(args.waitpoint_id.as_str().to_owned());
    argv.push(args.signal_name.as_str().to_owned());
    argv.push(args.signal_category.as_str().to_owned());
    argv.push(args.source_type.as_str().to_owned());
    argv.push(args.source_identity.as_str().to_owned());
    argv.push(wire::opt_lossy(&args.payload));
    argv.push(wire::or_text(&args.payload_encoding, "json"));
    argv.push(wire::or_text(&args.idempotency_key, ""));
    argv.push(String::new());
    argv.push(args.target_scope.as_str().to_owned());
    argv.push(String::new());
    argv.push(String::new());
    argv.push(String::new());
    argv.push(String::new());
    argv.push(String::new());
    Call { function: "ff_buffer_signal_for_pending_waitpoint", keys, argv }
}

/// Arguments of [`ff_claim_resumed_execution`].
pub struct ClaimResumedExecutionArgs {
    pub execution_id: ExecutionId,
    pub worker_id: WorkerId,
    pub worker_instance_id: WorkerInstanceId,
    pub lane_id: LaneId,
    pub lease_id: LeaseId,
    pub lease_ttl_ms: u64,
    pub current_attempt_index: AttemptIndex,
    pub remaining_attempt_timeout_ms: Option<u64>,
}

/// Claim a resumed execution.
pub fn ff_claim_resumed_execution(k: &ExecOpKeys, args: &ClaimResumedExecutionArgs) -> (r: Call)
    ensures
        r.function == "ff_claim_resumed_execution",
        r.keys_spec() == seq![
            k.ctx.core_key_spec(),
            k.ctx.claim_grant_spec(),
            k.idx.lane_eligible_spec(k.lane_id@),
            k.idx.lease_expiry_spec(),
            k.idx.worker_leases_spec(k.worker_instance_id@),
            k.ctx.attempt_hash_spec(args.current_attempt_index),
            k.ctx.lease_current_spec(),
            k.ctx.lease_history_spec(),
            k.idx.lane_active_spec(k.lane_id@),
            k.idx.attempt_timeout_spec(),
            k.idx.execution_deadline_spec(),
        ],
        r.argv_spec() == seq![
            args.execution_id@,
            args.worker_id@,
            args.worker_instance_id@,
            args.lane_id@,
            Seq::<char>::empty(),
            args.lease_id@,
            numbers::decimal(args.lease_ttl_ms as int),
            wire::opt_u64_spec(args.remaining_attempt_timeout_ms),
        ],
{
    let mut keys: Vec<String> = Vec::new();
    keys.push(k.ctx.core_key());
    keys.push(k.ctx.claim_grant());
    keys.push(k.idx.lane_eligible(k.lane_id));
    keys.push(k.idx.lease_expiry());
    keys.push(k.idx.worker_leases(k.worker_instance_id));
    keys.push(k.ctx.attempt_hash(args.current_attempt_index));
    keys.push(k.ctx.lease_current());
    keys.push(k.ctx.lease_history());
    keys.push(k.idx.lane_active(k.lane_id));
    keys.push(k.idx.attempt_timeout());
    keys.push(k.idx.execution_deadline());
    let mut argv: Vec<String> = Vec::new();
    argv.push(args.execution_id.as_str().to_owned());
    argv.push(args.worker_id.as_str().to_owned());
    argv.push(args.worker_instance_id.as_str().to_owned());
    argv.push(args.lane_id.as_str().to_owned());
    argv.push(String::new());
    argv.push(args.lease_id.as_str().to_owned());
    argv.push(numbers::u64_text(args.lease_ttl_ms));
    argv.push(wire::opt_u64(args.remaining_attempt_timeout_ms));
    Call { function: "ff_claim_resumed_execution", keys, argv }
}

// ── Delivery ──

/// Outcome of a delivery.
#[derive(Debug)]
pub enum DeliverSignalResult<I = SignalId, S = String> {
    Accepted { signal_id: I, effect: S },
    Duplicate { existing_signal_id: I },
}

impl View for DeliverSignalResult {
    type V = DeliverSignalResult<Seq<char>, Seq<char>>;

    open spec fn view(&self) -> DeliverSignalResult<Seq<char>, Seq<char>> {
        match *self {
            DeliverSignalResult::Accepted { signal_id, effect } => DeliverSignalResult::Accepted {
                signal_id: signal_id@,
                effect: effect@,
            },
            DeliverSignalResult::Duplicate { existing_signal_id } => {
                DeliverSignalResult::Duplicate { existing_signal_id: existing_signal_id@ }
            },
        }
    }
}

/// The meaning of a reply to a delivery.
pub open spec fn deliver_reply(raw: Value) -> Result<
    DeliverSignalResult<Seq<char>, Seq<char>>,
    ScriptErrorView,
> {
    match result::envelope(raw) {
        Err(e) => Err(e),
        Ok(f) => if f.status == "DUPLICATE"@ {
            match fields::signal_id_spec(f, 0, "ff_deliver_signal"@, "bad signal_id: "@) {
                Err(e) => Err(e),
                Ok(existing_signal_id) => Ok(DeliverSignalResult::Duplicate { existing_signal_id }),
            }
        } else {
            match result::success_of(f) {
                Err(e) => Err(e),
                Ok(f) => match fields::signal_id_spec(
                    f,
                    0,
                    "ff_deliver_signal"@,
                    "bad signal_id: "@,
                ) {
                    Err(e) => Err(e),
                    Ok(signal_id) => Ok(
                        DeliverSignalResult::Accepted { signal_id, effect: f.field(1) },
                    ),
                },
            }
        },
    }
}

impl FromFcallResult for DeliverSignalResult {
    fn from_fcall_result(raw: &Value) -> (r: Result<DeliverSignalResult, ScriptError>)
        ensures
            fields::agrees(r, deliver_reply(*raw)),
    {
        let f = match FcallResult::parse(raw) {
            Ok(f) => f,
            Err(e) => {
                return Err(e);
            },
        };
        if text::same(f.status.as_str(), "DUPLICATE") {
            return match fields::signal_id_field(&f, 0, "ff_deliver_signal", "bad signal_id: ") {
                Err(e) => Err(e),
                Ok(existing_signal_id) => Ok(DeliverSignalResult::Duplicate { existing_signal_id }),
            };
        }
        match f.into_success() {
            Err(e) => Err(e),
            Ok(f) => match fields::signal_id_field(&f, 0, "ff_deliver_signal", "bad signal_id: ") {
                Err(e) => Err(e),
                Ok(signal_id) => Ok(
                    DeliverSignalResult::Accepted { signal_id, effect: f.field_str(1) },
                ),
            },
        }
    }
}

/// Outcome of buffering a signal.
#[derive(Debug)]
pub enum BufferSignalResult<I = SignalId> {
    Buffered { signal_id: I },
    Duplicate { existing_signal_id: I },
}

impl View for BufferSignalResult {
    type V = BufferSignalResult<Seq<char>>;

    open spec fn view(&self) -> BufferSignalResult<Seq<char>> {
        match *self {
            BufferSignalResult::Buffered { signal_id } => BufferSignalResult::Buffered {
                signal_id: signal_id@,
            },
            BufferSignalResult::Duplicate { existing_signal_id } => BufferSignalResult::Duplicate {
                existing_signal_id: existing_signal_id@,
            },
        }
    }
}

/// The name under which an unreadable reply is reported.
pub open spec fn buffer_name() -> Seq<char> {
    "ff_buffer_signal_for_pending_waitpoint"@
}

/// The meaning of a reply to buffering a signal.
pub open spec fn buffer_reply(raw: Value) -> Result<
    BufferSignalResult<Seq<char>>,
    ScriptErrorView,
> {
    match result::envelope(raw) {
        Err(e) => Err(e),
        Ok(f) => if f.status == "DUPLICATE"@ {
            match fields::signal_id_spec(f, 0, buffer_name(), "bad signal_id: "@) {
                Err(e) => Err(e),
                Ok(existing_signal_id) => Ok(BufferSignalResult::Duplicate { existing_signal_id }),
            }
        } else {
            match result::success_of(f) {
                Err(e) => Err(e),
                Ok(f) => match fields::signal_id_spec(f, 0, buffer_name(), "bad signal_id: "@) {
                    Err(e) => Err(e),
                    Ok(signal_id) => Ok(BufferSignalResult::Buffered { signal_id }),
                },
            }
        },
    }
}

impl FromFcallResult for BufferSignalResult {
    fn from_fcall_result(raw: &Value) -> (r: Result<BufferSignalResult, ScriptError>)
        ensures
            fields::agrees(r, buffer_reply(*raw)),
    {
        let fcall = "ff_buffer_signal_for_pending_waitpoint";
        let f = match FcallResult::parse(raw) {
            Ok(f) => f,
            Err(e) => {
                return Err(e);
            },
        };
        if text::same(f.status.as_str(), "DUPLICATE") {
            return match fields::signal_id_field(&f, 0, fcall, "bad signal_id: ") {
                Err(e) => Err(e),
                Ok(existing_signal_id) => Ok(BufferSignalResult::Duplicate { existing_signal_id }),
            };
        }
        match f.into_success() {
            Err(e) => Err(e),
            Ok(f) => match fields::signal_id_field(&f, 0, fcall, "bad signal_id: ") {
                Err(e) => Err(e),
                Ok(signal_id) => Ok(BufferSignalResult::Buffered { signal_id }),
            },
        }
    }
}

// ── Resumed claim ──

/// A claimed resumed execution, without its identity.
#[derive(Debug)]
pub struct ClaimedResumedExecutionPartial<L = LeaseId, A = AttemptId> {
    pub lease_id: L,
    pub lease_epoch: LeaseEpoch,
    pub attempt_index: AttemptIndex,
    pub attempt_id: A,
    pub lease_expires_at: TimestampMs,
}

/// A claimed resumed execution.
#[derive(Debug)]
pub struct ClaimedResumedExecution {
    pub execution_id: ExecutionId,
    pub lease_id: LeaseId,
    pub lease_epoch: LeaseEpoch,
    pub attempt_index: AttemptIndex,
    pub attempt_id: AttemptId,
    pub lease_expires_at: TimestampMs,
}

impl View for ClaimedResumedExecutionPartial {
    type V = ClaimedResumedExecutionPartial<Seq<char>, Seq<char>>;

    open spec fn view(&self) -> ClaimedResumedExecutionPartial<Seq<char>, Seq<char>> {
        ClaimedResumedExecutionPartial {
            lease_id: self.lease_id@,
            lease_epoch: self.lease_epoch,
            attempt_index: self.attempt_index,
            attempt_id: self.attempt_id@,
            lease_expires_at: self.lease_expires_at,
        }
    }
}

impl ClaimedResumedExecutionPartial {
    /// Attach the execution that was claimed.
    pub fn complete(self, execution_id: ExecutionId) -> (r: ClaimedResumedExecution)
        ensures
            r == (ClaimedResumedExecution {
                execution_id,
                lease_id: self.lease_id,
                lease_epoch: self.lease_epoch,
                attempt_index: self.attempt_index,
                attempt_id: self.attempt_id,
                lease_expires_at: self.lease_expires_at,
            }),
    {
        ClaimedResumedExecution {
            execution_id,
            lease_id: self.lease_id,
            lease_epoch: self.lease_epoch,
            attempt_index: self.attempt_index,
            attempt_id: self.attempt_id,
            lease_expires_at: self.lease_expires_at,
        }
    }
}

/// The name under which an unreadable reply is reported.
pub open spec fn resumed_name() -> Seq<char> {
    "ff_claim_resumed_execution"@
}

/// The fields of an accepted resumed claim. The first that cannot be read decides.
pub open spec fn resumed_fields(f: FcallView) -> Result<
    ClaimedResumedExecutionPartial<Seq<char>, Seq<char>>,
    ScriptErrorView,
> {
    match fields::lease_id_spec(f, 0, resumed_name(), "bad lease_id: "@) {
        Err(e) => Err(e),
        Ok(lease_id) => match fields::u64_spec(f, 1, resumed_name(), "bad epoch: "@) {
            Err(e) => Err(e),
            Ok(epoch) => match fields::i64_spec(f, 2, resumed_name(), "bad expires_at: "@) {
                Err(e) => Err(e),
                Ok(expires_at) => match fields::attempt_id_spec(
                    f,
                    3,
                    resumed_name(),
                    "bad attempt_id: "@,
                ) {
                    Err(e) => Err(e),
                    Ok(attempt_id) => match fields::u32_spec(
                        f,
                        4,
                        resumed_name(),
                        "bad attempt_index: "@,
                    ) {
                        Err(e) => Err(e),
                        Ok(attempt_index) => Ok(
                            ClaimedResumedExecutionPartial {
                                lease_id,
                                lease_epoch: LeaseEpoch(epoch),
                                attempt_index: AttemptIndex(attempt_index),
                                attempt_id,
                                lease_expires_at: TimestampMs(expires_at),
                            },
                        ),
                    },
                },
            },
        },
    }
}

/// The meaning of a reply to a resumed claim.
pub open spec fn resumed_reply(raw: Value) -> Result<
    ClaimedResumedExecutionPartial<Seq<char>, Seq<char>>,
    ScriptErrorView,
> {
    match result::accepted(raw) {
        Err(e) => Err(e),
        Ok(f) => resumed_fields(f),
    }
}

impl FromFcallResult for ClaimedResumedExecutionPartial {
    fn from_fcall_result(raw: &Value) -> (r: Result<ClaimedResumedExecutionPartial, ScriptError>)
        ensures
            fields::agrees(r, resumed_reply(*raw)),
    {
        let f = match result::accept(raw) {
            Ok(f) => f,
            Err(e) => {
                return Err(e);
            },
        };
        let fcall = "ff_claim_resumed_execution";
        let lease_id = match fields::lease_id_field(&f, 0, fcall, "bad lease_id: ") {
            Ok(x) => x,
            Err(e) => {
                return Err(e);
            },
        };
        let epoch: u64 = match fields::u64_field(&f, 1, fcall, "bad epoch: ") {
            Ok(x) => x,
            Err(e) => {
                return Err(e);
            },
        };
        let expires_at: i64 = match fields::i64_field(&f, 2, fcall, "bad expires_at: ") {
            Ok(x) => x,
            Err(e) => {
                return Err(e);
            },
        };
        let attempt_id = match fields::attempt_id_field(&f, 3, fcall, "bad attempt_id: ") {
            Ok(x) => x,
            Err(e) => {
                return Err(e);
            },
        };
        match fields::u32_field(&f, 4, fcall, "bad attempt_index: ") {
            Err(e) => Err(e),
            Ok(attempt_index) => Ok(
                ClaimedResumedExecutionPartial {
                    lease_id,
                    lease_epoch: LeaseEpoch(epoch),
                    attempt_index: AttemptIndex(attempt_index),
                    attempt_id,
                    lease_expires_at: TimestampMs(expires_at),
                },
            ),
        }
    }
}

} // verus!
