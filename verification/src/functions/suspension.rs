//! Calls on suspensions, waitpoints and their secrets.

use vstd::prelude::*;
use vstd::string::*;

use crate::collect;
use crate::error;
use crate::error::{ScriptError, ScriptErrorView};
use crate::fields;
use crate::fields::FromFcallResult;
use crate::functions::execution;
use crate::functions::execution::PublicState;
use crate::ids::{AttemptIndex, ExecutionId, SuspensionId, TimestampMs, WaitpointId};
use crate::keys::{ExecKeyContext, IndexKeys};
use crate::names::{LaneId, WorkerInstanceId};
use crate::numbers;
use crate::result;
use crate::result::{FcallResult, FcallView};
use crate::text;
use crate::value::Value;
use crate::wire;
use crate::wire::{Call, LeaseFence};

verus! {

/// Key contexts of a suspension.
pub struct SuspendOpKeys<'a> {
    pub ctx: &'a ExecKeyContext,
    pub idx: &'a IndexKeys,
    pub lane_id: &'a LaneId,
    pub worker_instance_id: &'a WorkerInstanceId,
}

/// Key contexts of a resume, with the waitpoint that the caller read.
pub struct ResumeOpKeys<'a> {
    pub ctx: &'a ExecKeyContext,
    pub idx: &'a IndexKeys,
    pub lane_id: &'a LaneId,
    pub waitpoint_id: &'a WaitpointId,
}

/// Key contexts of a waitpoint operation.
pub struct WaitpointOpKeys<'a> {
    pub ctx: &'a ExecKeyContext,
    pub idx: &'a IndexKeys,
}

/// Key contexts of expiring a suspension, with what the caller read.
pub struct ExpireSuspensionOpKeys<'a> {
    pub ctx: &'a ExecKeyContext,
    pub idx: &'a IndexKeys,
    pub lane_id: &'a LaneId,
    pub waitpoint_id: &'a WaitpointId,
    pub attempt_index: AttemptIndex,
}

/// Arguments of [`ff_suspend_execution`].
pub struct SuspendExecutionArgs {
    pub execution_id: ExecutionId,
    pub fence: Option<LeaseFence>,
    pub attempt_index: AttemptIndex,
    pub suspension_id: SuspensionId,
    pub waitpoint_id: WaitpointId,
    pub waitpoint_key: String,
    pub reason_code: String,
    pub requested_by: String,
    pub resume_condition_json: String,
    pub resume_policy_json: String,
    pub continuation_metadata_pointer: Option<String>,
    pub timeout_at: Option<TimestampMs>,
    pub use_pending_waitpoint: bool,
    pub timeout_behavior: String,
}

/// Suspend an execution.
pub fn ff_suspend_execution(k: &SuspendOpKeys, args: &SuspendExecutionArgs) -> (r: Call)
    ensures
        r.function == "ff_suspend_execution",
        r.keys_spec() == seq![
            k.ctx.core_key_spec(),
            k.ctx.attempt_hash_spec(args.attempt_index),
            k.ctx.lease_current_spec(),
            k.ctx.lease_history_spec(),
            k.idx.lease_expiry_spec(),
            k.idx.worker_leases_spec(k.worker_instance_id@),
            k.ctx.suspension_current_spec(),
            k.ctx.waitpoint_spec(args.waitpoint_id@),
            k.ctx.waitpoint_signals_spec(args.waitpoint_id@),
            k.idx.suspension_timeout_spec(),
            k.idx.pending_waitpoint_expiry_spec(),
            k.idx.lane_active_spec(k.lane_id@),
            k.idx.lane_suspended_spec(k.lane_id@),
            k.ctx.waitpoints_spec(),
            k.ctx.waitpoint_condition_spec(args.waitpoint_id@),
            k.idx.attempt_timeout_spec(),
            k.idx.waitpoint_hmac_secrets_spec(),
        ],
        r.argv_spec() == seq![
            args.execution_id@,
            numbers::decimal(args.attempt_index.0 as int),
            wire::fence_attempt_id_spec(args.fence),
            wire::fence_lease_id_spec(args.fence),
            wire::fence_lease_epoch_spec(args.fence),
            args.suspension_id@,
            args.waitpoint_id@,
            args.waitpoint_key@,
            args.reason_code@,
            args.requested_by@,
            wire::opt_time_spec(args.timeout_at),
            args.resume_condition_json@,
            args.resume_policy_json@,
            wire::or_spec(args.continuation_metadata_pointer, ""@),
            if args.use_pending_waitpoint { "1"@ } else { Seq::<char>::empty() },
            args.timeout_behavior@,
            "1000"@,
        ],
{
    let mut keys: Vec<String> = Vec::new();
    keys.push(k.ctx.core_key());
    keys.push(k.ctx.attempt_hash(args.attempt_index));
    keys.push(k.ctx.lease_current());
    keys.push(k.ctx.lease_history());
    keys.push(k.idx.lease_expiry());
    keys.push(k.idx.worker_leases(k.worker_instance_id));
    keys.push(k.ctx.suspension_current());
    keys.push(k.ctx.waitpoint(&args.waitpoint_id));
    keys.push(k.ctx.waitpoint_signals(&args.waitpoint_id));
    keys.push(k.idx.suspension_timeout());
    keys.push(k.idx.pending_waitpoint_expiry());
    keys.push(k.idx.lane_active(k.lane_id));
    keys.push(k.idx.lane_suspended(k.lane_id));
    keys.push(k.ctx.waitpoints());
    keys.push(k.ctx.waitpoint_condition(&args.waitpoint_id));
    keys.push(k.idx.attempt_timeout());
    keys.push(k.idx.waitpoint_hmac_secrets());
    let mut argv: Vec<String> = Vec::new();
    argv.push(args.execution_id.as_str().to_owned());
    argv.push(numbers::u64_text(args.attempt_index.0 as u64));
    argv.push(wire::fence_attempt_id(&args.fence));
    argv.push(wire::fence_lease_id(&args.fence));
    argv.push(wire::fence_lease_epoch(&args.fence));
    argv.push(args.suspension_id.as_str().to_owned());
    argv.push(args.waitpoint_id.as_str().to_owned());
    argv.push(args.waitpoint_key.as_str().to_owned());
    argv.push(args.reason_code.as_str().to_owned());
    argv.push(args.requested_by.as_str().to_owned());
    argv.push(wire::opt_time(args.timeout_at));
    argv.push(args.resume_condition_json.as_str().to_owned());
    argv.push(args.resume_policy_json.as_str().to_owned());
    argv.push(wire::or_text(&args.continuation_metadata_pointer, ""));
    argv.push(if args.use_pending_waitpoint { "1".to_owned() } else { String::new() });
    argv.push(args.timeout_behavior.as_str().to_owned());
    argv.push("1000".to_owned());
    Call { function: "ff_suspend_execution", keys, argv }
}

/// Arguments of [`ff_resume_execution`].
pub struct ResumeExecutionArgs {
    pub execution_id: ExecutionId,
    pub trigger_type: String,
    pub resume_delay_ms: u64,
}

/// Resume a suspended execution.
pub fn ff_resume_execution(k: &ResumeOpKeys, args: &ResumeExecutionArgs) -> (r: Call)
    ensures
        r.function == "ff_resume_execution",
        r.keys_spec() == seq![
            k.ctx.core_key_spec(),
            k.ctx.suspension_current_spec(),
            k.ctx.waitpoint_spec(k.waitpoint_id@),
            k.ctx.waitpoint_signals_spec(k.waitpoint_id@),
            k.idx.suspension_timeout_spec(),
            k.idx.lane_eligible_spec(k.lane_id@),
            k.idx.lane_delayed_spec(k.lane_id@),
            k.idx.lane_suspended_spec(k.lane_id@),
        ],
        r.argv_spec() == seq![
            args.execution_id@,
            args.trigger_type@,
            numbers::decimal(args.resume_delay_ms as int),
        ],
{
    let mut keys: Vec<String> = Vec::new();
    keys.push(k.ctx.core_key());
    keys.push(k.ctx.suspension_current());
    keys.push(k.ctx.waitpoint(k.waitpoint_id));
    keys.push(k.ctx.waitpoint_signals(k.waitpoint_id));
    keys.push(k.idx.suspension_timeout());
    keys.push(k.idx.lane_eligible(k.lane_id));
    keys.push(k.idx.lane_delayed(k.lane_id));
    keys.push(k.idx.lane_suspended(k.lane_id));
    let mut argv: Vec<String> = Vec::new();
    argv.push(args.execution_id.as_str().to_owned());
    argv.push(args.trigger_type.as_str().to_owned());
    argv.push(numbers::u64_text(args.resume_delay_ms));
    Call { function: "ff_resume_execution", keys, argv }
}

/// Arguments of [`ff_create_pending_waitpoint`].
pub struct CreatePendingWaitpointArgs {
    pub execution_id: ExecutionId,
    pub attempt_index: AttemptIndex,
    pub waitpoint_id: WaitpointId,
    pub waitpoint_key: String,
    pub expires_in_ms: u64,
}

/// Create a waitpoint ahead of the suspension. It expires at `now` plus the given time.
pub fn ff_create_pending_waitpoint(k: &WaitpointOpKeys, args: &CreatePendingWaitpointArgs, now: TimestampMs) -> (r: Call)
    requires
        i64::MIN <= now.0 + numbers::signed(args.expires_in_ms) <= i64::MAX,
    ensures
        r.function == "ff_create_pending_waitpoint",
        r.keys_spec() == seq![
            k.ctx.core_key_spec(),
            k.ctx.waitpoint_spec(args.waitpoint_id@),
            k.idx.pending_waitpoint_expiry_spec(),
        ],
        r.argv_spec() == seq![
            args.execution_id@,
            numbers::decimal(args.attempt_index.0 as int),
            args.waitpoint_id@,
            args.waitpoint_key@,
            numbers::decimal(now.0 + numbers::signed(args.expires_in_ms)),
        ],
{
    let mut keys: Vec<String> = Vec::new();
    keys.push(k.ctx.core_key());
    keys.push(k.ctx.waitpoint(&args.waitpoint_id));
    keys.push(k.idx.pending_waitpoint_expiry());
    let mut argv: Vec<String> = Vec::new();
    argv.push(args.execution_id.as_str().to_owned());
    argv.push(numbers::u64_text(args.attempt_index.0 as u64));
    argv.push(args.waitpoint_id.as_str().to_owned());
    argv.push(args.waitpoint_key.as_str().to_owned());
    let expires_at: i128 = now.0 as i128 + numbers::as_signed(args.expires_in_ms);
    argv.push(numbers::i64_text(expires_at as i64));
    Call { function: "ff_create_pending_waitpoint", keys, argv }
}

/// Arguments of [`ff_expire_suspension`].
pub struct ExpireSuspensionArgs {
    pub execution_id: ExecutionId,
}

/// Expire a suspension that is due.
pub fn ff_expire_suspension(k: &ExpireSuspensionOpKeys, args: &ExpireSuspensionArgs) -> (r: Call)
    ensures
        r.function == "ff_expire_suspension",
        r.keys_spec() == seq![
            k.ctx.core_key_spec(),
            k.ctx.suspension_current_spec(),
            k.ctx.waitpoint_spec(k.waitpoint_id@),
            k.ctx.waitpoint_condition_spec(k.waitpoint_id@),
            k.ctx.attempt_hash_spec(k.attempt_index),
            k.ctx.stream_meta_spec(k.attempt_index),
            k.idx.suspension_timeout_spec(),
            k.idx.lane_suspended_spec(k.lane_id@),
            k.idx.lane_terminal_spec(k.lane_id@),
            k.idx.lane_eligible_spec(k.lane_id@),
            k.idx.lane_delayed_spec(k.lane_id@),
            k.ctx.lease_history_spec(),
        ],
        r.argv_spec() == seq![
            args.execution_id@,
        ],
{
    let mut keys: Vec<String> = Vec::new();
    keys.push(k.ctx.core_key());
    keys.push(k.ctx.suspension_current());
    keys.push(k.ctx.waitpoint(k.waitpoint_id));
    keys.push(k.ctx.waitpoint_condition(k.waitpoint_id));
    keys.push(k.ctx.attempt_hash(k.attempt_index));
    keys.push(k.ctx.stream_meta(k.attempt_index));
    keys.push(k.idx.suspension_timeout());
    keys.push(k.idx.lane_suspended(k.lane_id));
    keys.push(k.idx.lane_terminal(k.lane_id));
    keys.push(k.idx.lane_eligible(k.lane_id));
    keys.push(k.idx.lane_delayed(k.lane_id));
    keys.push(k.ctx.lease_history());
    let mut argv: Vec<String> = Vec::new();
    argv.push(args.execution_id.as_str().to_owned());
    Call { function: "ff_expire_suspension", keys, argv }
}

/// Arguments of [`ff_close_waitpoint`].
pub struct CloseWaitpointArgs {
    pub waitpoint_id: WaitpointId,
    pub reason: String,
}

/// Close a waitpoint.
pub fn ff_close_waitpoint(k: &WaitpointOpKeys, args: &CloseWaitpointArgs) -> (r: Call)
    ensures
        r.function == "ff_close_waitpoint",
        r.keys_spec() == seq![
            k.ctx.core_key_spec(),
            k.ctx.waitpoint_spec(args.waitpoint_id@),
            k.idx.pending_waitpoint_expiry_spec(),
        ],
        r.argv_spec() == seq![
            args.waitpoint_id@,
            args.reason@,
        ],
{
    let mut keys: Vec<String> = Vec::new();
    keys.push(k.ctx.core_key());
    keys.push(k.ctx.waitpoint(&args.waitpoint_id));
    keys.push(k.idx.pending_waitpoint_expiry());
    let mut argv: Vec<String> = Vec::new();
    argv.push(args.waitpoint_id.as_str().to_owned());
    argv.push(args.reason.as_str().to_owned());
    Call { function: "ff_close_waitpoint", keys, argv }
}

/// Arguments of [`ff_rotate_waitpoint_hmac_secret`].
pub struct RotateWaitpointHmacSecretArgs {
    pub new_kid: String,
    pub new_secret_hex: String,
    pub grace_ms: u64,
}

/// Rotate the secret that signs waitpoint tokens on one partition.
pub fn ff_rotate_waitpoint_hmac_secret(k: &IndexKeys, args: &RotateWaitpointHmacSecretArgs) -> (r: Call)
    ensures
        r.function == "ff_rotate_waitpoint_hmac_secret",
        r.keys_spec() == seq![
            k.waitpoint_hmac_secrets_spec(),
        ],
        r.argv_spec() == seq![
            args.new_kid@,
            args.new_secret_hex@,
            numbers::decimal(args.grace_ms as int),
        ],
{
    let mut keys: Vec<String> = Vec::new();
    keys.push(k.waitpoint_hmac_secrets());
    let mut argv: Vec<String> = Vec::new();
    argv.push(args.new_kid.as_str().to_owned());
    argv.push(args.new_secret_hex.as_str().to_owned());
    argv.push(numbers::u64_text(args.grace_ms));
    Call { function: "ff_rotate_waitpoint_hmac_secret", keys, argv }
}

/// List the key identifiers of the waitpoint secrets of one partition.
pub fn ff_list_waitpoint_hmac_kids(k: &IndexKeys) -> (r: Call)
    ensures
        r.function == "ff_list_waitpoint_hmac_kids",
        r.keys_spec() == seq![
            k.waitpoint_hmac_secrets_spec(),
        ],
        r.argv_spec() == Seq::<Seq<char>>::empty(),
{
    let mut keys: Vec<String> = Vec::new();
    keys.push(k.waitpoint_hmac_secrets());
    let argv: Vec<String> = Vec::new();
    Call { function: "ff_list_waitpoint_hmac_kids", keys, argv }
}

// ── Suspension ──

/// Outcome of a suspension.
#[derive(Debug)]
pub enum SuspendExecutionResult<U = SuspensionId, W = WaitpointId, S = String> {
    Suspended { suspension_id: U, waitpoint_id: W, waitpoint_key: S, waitpoint_token: S },
    AlreadySatisfied { suspension_id: U, waitpoint_id: W, waitpoint_key: S, waitpoint_token: S },
}

impl View for SuspendExecutionResult {
    type V = SuspendExecutionResult<Seq<char>, Seq<char>, Seq<char>>;

    open spec fn view(&self) -> SuspendExecutionResult<Seq<char>, Seq<char>, Seq<char>> {
        match *self {
            SuspendExecutionResult::Suspended {
                suspension_id,
                waitpoint_id,
                waitpoint_key,
                waitpoint_token,
            } => SuspendExecutionResult::Suspended {
                suspension_id: suspension_id@,
                waitpoint_id: waitpoint_id@,
                waitpoint_key: waitpoint_key@,
                waitpoint_token: waitpoint_token@,
            },
            SuspendExecutionResult::AlreadySatisfied {
                suspension_id,
                waitpoint_id,
                waitpoint_key,
                waitpoint_token,
            } => SuspendExecutionResult::AlreadySatisfied {
                suspension_id: suspension_id@,
                waitpoint_id: waitpoint_id@,
                waitpoint_key: waitpoint_key@,
                waitpoint_token: waitpoint_token@,
            },
        }
    }
}

/// The fields of a suspension reply, `already` telling its two outcomes apart.
pub open spec fn suspend_fields(f: FcallView, already: bool) -> Result<
    SuspendExecutionResult<Seq<char>, Seq<char>, Seq<char>>,
    ScriptErrorView,
> {
    match fields::suspension_id_spec(f, 0, "ff_suspend_execution"@, "bad suspension_id: "@) {
        Err(e) => Err(e),
        Ok(suspension_id) => match fields::waitpoint_id_spec(
            f,
            1,
            "ff_suspend_execution"@,
            "bad waitpoint_id: "@,
        ) {
            Err(e) => Err(e),
            Ok(waitpoint_id) => if already {
                Ok(
                    SuspendExecutionResult::AlreadySatisfied {
                        suspension_id,
                        waitpoint_id,
                        waitpoint_key: f.field(2),
                        waitpoint_token: f.field(3),
                    },
                )
            } else {
                Ok(
                    SuspendExecutionResult::Suspended {
                        suspension_id,
                        waitpoint_id,
                        waitpoint_key: f.field(2),
                        waitpoint_token: f.field(3),
                    },
                )
            },
        },
    }
}

/// The meaning of a reply to a suspension.
pub open spec fn suspend_reply(raw: Value) -> Result<
    SuspendExecutionResult<Seq<char>, Seq<char>, Seq<char>>,
    ScriptErrorView,
> {
    match result::envelope(raw) {
        Err(e) => Err(e),
        Ok(f) => if f.status == "ALREADY_SATISFIED"@ {
            suspend_fields(f, true)
        } else {
            match result::success_of(f) {
                Err(e) => Err(e),
                Ok(f) => suspend_fields(f, false),
            }
        },
    }
}

fn read_suspend_fields(f: &FcallResult, already: bool) -> (r: Result<
    SuspendExecutionResult,
    ScriptError,
>)
    ensures
        fields::agrees(r, suspend_fields(f@, already)),
{
    let suspension_id = match fields::suspension_id_field(
        f,
        0,
        "ff_suspend_execution",
        "bad suspension_id: ",
    ) {
        Ok(x) => x,
        Err(e) => {
            return Err(e);
        },
    };
    match fields::waitpoint_id_field(f, 1, "ff_suspend_execution", "bad waitpoint_id: ") {
        Err(e) => Err(e),
        Ok(waitpoint_id) => {
            let waitpoint_key = f.field_str(2);
            let waitpoint_token = f.field_str(3);
            if already {
                Ok(
                    SuspendExecutionResult::AlreadySatisfied {
                        suspension_id,
                        waitpoint_id,
                        waitpoint_key,
                        waitpoint_token,
                    },
                )
            } else {
                Ok(
                    SuspendExecutionResult::Suspended {
                        suspension_id,
                        waitpoint_id,
                        waitpoint_key,
                        waitpoint_token,
                    },
                )
            }
        },
    }
}

impl FromFcallResult for SuspendExecutionResult {
    fn from_fcall_result(raw: &Value) -> (r: Result<SuspendExecutionResult, ScriptError>)
        ensures
            fields::agrees(r, suspend_reply(*raw)),
    {
        let f = match FcallResult::parse(raw) {
            Ok(f) => f,
            Err(e) => {
                return Err(e);
            },
        };
        if text::same(f.status.as_str(), "ALREADY_SATISFIED") {
            return read_suspend_fields(&f, true);
        }
        match f.into_success() {
            Err(e) => Err(e),
            Ok(f) => read_suspend_fields(&f, false),
        }
    }
}

// ── Resume ──

/// Outcome of a resume.
#[derive(Clone, Copy, Debug, PartialEq, Eq, Structural)]
pub enum ResumeExecutionResult {
    Resumed { public_state: PublicState },
}

impl View for ResumeExecutionResult {
    type V = ResumeExecutionResult;

    open spec fn view(&self) -> ResumeExecutionResult {
        *self
    }
}

/// The state that a resume leaves: any of them but resumable, whose word is not
/// among those that a resume may answer.
pub open spec fn resumed_state(s: Seq<char>) -> Result<PublicState, ScriptErrorView> {
    match execution::state_of(s) {
        Some(p) => if p == PublicState::Resumable {
            Err(error::parse_error("ff_waitpoint_hmac_kids"@, "unknown public_state: "@ + s))
        } else {
            Ok(p)
        },
        None => Err(error::parse_error("ff_waitpoint_hmac_kids"@, "unknown public_state: "@ + s)),
    }
}

/// Read the state that a resume leaves.
pub fn parse_resumed_state(s: &str) -> (r: Result<PublicState, ScriptError>)
    ensures
        fields::agrees(r, resumed_state(s@)),
{
    let state = match execution::parse_public_state(s) {
        Ok(p) => Some(p),
        Err(_) => None,
    };
    match state {
        Some(p) => if matches!(p, PublicState::Resumable) {
            Err(
                error::unreadable(
                    "ff_waitpoint_hmac_kids",
                    error::prefixed("unknown public_state: ", s),
                ),
            )
        } else {
            Ok(p)
        },
        None => Err(
            error::unreadable(
                "ff_waitpoint_hmac_kids",
                error::prefixed("unknown public_state: ", s),
            ),
        ),
    }
}

/// The meaning of a reply to a resume.
pub open spec fn resume_reply(raw: Value) -> Result<ResumeExecutionResult, ScriptErrorView> {
    match result::accepted(raw) {
        Err(e) => Err(e),
        Ok(f) => match resumed_state(f.field(0)) {
            Err(e) => Err(e),
            Ok(public_state) => Ok(ResumeExecutionResult::Resumed { public_state }),
        },
    }
}

impl FromFcallResult for ResumeExecutionResult {
    fn from_fcall_result(raw: &Value) -> (r: Result<ResumeExecutionResult, ScriptError>)
        ensures
            fields::agrees(r, resume_reply(*raw)),
    {
        match result::accept(raw) {
            Err(e) => Err(e),
            Ok(f) => match parse_resumed_state(f.field_str(0).as_str()) {
                Err(e) => Err(e),
                Ok(public_state) => Ok(ResumeExecutionResult::Resumed { public_state }),
            },
        }
    }
}

// ── Waitpoints ──

/// Outcome of creating a pending waitpoint.
#[derive(Debug)]
pub enum CreatePendingWaitpointResult<W = WaitpointId, S = String> {
    Created { waitpoint_id: W, waitpoint_key: S, waitpoint_token: S },
}

impl View for CreatePendingWaitpointResult {
    type V = CreatePendingWaitpointResult<Seq<char>, Seq<char>>;

    open spec fn view(&self) -> CreatePendingWaitpointResult<Seq<char>, Seq<char>> {
        match *self {
            CreatePendingWaitpointResult::Created {
                waitpoint_id,
                waitpoint_key,
                waitpoint_token,
            } => CreatePendingWaitpointResult::Created {
                waitpoint_id: waitpoint_id@,
                waitpoint_key: waitpoint_key@,
                waitpoint_token: waitpoint_token@,
            },
        }
    }
}

/// The meaning of a reply to creating a pending waitpoint.
pub open spec fn pending_reply(raw: Value) -> Result<
    CreatePendingWaitpointResult<Seq<char>, Seq<char>>,
    ScriptErrorView,
> {
    match result::accepted(raw) {
        Err(e) => Err(e),
        Ok(f) => match fields::waitpoint_id_spec(
            f,
            0,
            "ff_create_pending_waitpoint"@,
            "bad waitpoint_id: "@,
        ) {
            Err(e) => Err(e),
            Ok(waitpoint_id) => Ok(
                CreatePendingWaitpointResult::Created {
                    waitpoint_id,
                    waitpoint_key: f.field(1),
                    waitpoint_token: f.field(2),
                },
            ),
        },
    }
}

impl FromFcallResult for CreatePendingWaitpointResult {
    fn from_fcall_result(raw: &Value) -> (r: Result<CreatePendingWaitpointResult, ScriptError>)
        ensures
            fields::agrees(r, pending_reply(*raw)),
    {
        match result::accept(raw) {
            Err(e) => Err(e),
            Ok(f) => match fields::waitpoint_id_field(
                &f,
                0,
                "ff_create_pending_waitpoint",
                "bad waitpoint_id: ",
            ) {
                Err(e) => Err(e),
                Ok(waitpoint_id) => Ok(
                    CreatePendingWaitpointResult::Created {
                        waitpoint_id,
                        waitpoint_key: f.field_str(1),
                        waitpoint_token: f.field_str(2),
                    },
                ),
            },
        }
    }
}

/// Outcome of expiring a suspension.
#[derive(Debug)]
pub enum ExpireSuspensionResult<S = String> {
    Expired { behavior_applied: S },
    AlreadySatisfied { reason: S },
}

impl View for ExpireSuspensionResult {
    type V = ExpireSuspensionResult<Seq<char>>;

    open spec fn view(&self) -> ExpireSuspensionResult<Seq<char>> {
        match *self {
            ExpireSuspensionResult::Expired { behavior_applied } => {
                ExpireSuspensionResult::Expired { behavior_applied: behavior_applied@ }
            },
            ExpireSuspensionResult::AlreadySatisfied { reason } => {
                ExpireSuspensionResult::AlreadySatisfied { reason: reason@ }
            },
        }
    }
}

/// Whether a word says that nothing was left to expire.
pub open spec fn nothing_to_expire(s: Seq<char>) -> bool {
    s == "not_found_cleaned"@ || s == "not_suspended_cleaned"@ || s
        == "no_active_suspension_cleaned"@ || s == "not_yet_due"@
}

/// The meaning of a reply to expiring a suspension.
pub open spec fn expire_suspension_reply(raw: Value) -> Result<
    ExpireSuspensionResult<Seq<char>>,
    ScriptErrorView,
> {
    match result::accepted(raw) {
        Err(e) => Err(e),
        Ok(f) => if nothing_to_expire(f.field(0)) {
            Ok(ExpireSuspensionResult::AlreadySatisfied { reason: f.field(0) })
        } else {
            Ok(ExpireSuspensionResult::Expired { behavior_applied: f.field(0) })
        },
    }
}

impl FromFcallResult for ExpireSuspensionResult {
    fn from_fcall_result(raw: &Value) -> (r: Result<ExpireSuspensionResult, ScriptError>)
        ensures
            fields::agrees(r, expire_suspension_reply(*raw)),
    {
        match result::accept(raw) {
            Err(e) => Err(e),
            Ok(f) => {
                let sub = f.field_str(0);
                if text::same(sub.as_str(), "not_found_cleaned") || text::same(
                    sub.as_str(),
                    "not_suspended_cleaned",
                ) || text::same(sub.as_str(), "no_active_suspension_cleaned") || text::same(
                    sub.as_str(),
                    "not_yet_due",
                ) {
                    Ok(ExpireSuspensionResult::AlreadySatisfied { reason: sub })
                } else {
                    Ok(ExpireSuspensionResult::Expired { behavior_applied: sub })
                }
            },
        }
    }
}

/// Outcome of closing a waitpoint.
#[derive(Clone, Copy, Debug, PartialEq, Eq, Structural)]
pub enum CloseWaitpointResult {
    Closed,
}

impl FromFcallResult for CloseWaitpointResult {
    fn from_fcall_result(raw: &Value) -> (r: Result<CloseWaitpointResult, ScriptError>)
        ensures
            match result::accepted(*raw) {
                Err(e) => r matches Err(x) && x@ == e,
                Ok(_) => r is Ok,
            },
    {
        match result::accept(raw) {
            Err(e) => Err(e),
            Ok(_) => Ok(CloseWaitpointResult::Closed),
        }
    }
}

// ── Secrets ──

/// Outcome of rotating a secret.
#[derive(Debug)]
pub enum RotateWaitpointHmacSecretOutcome<S = String> {
    Rotated { previous_kid: Option<S>, new_kid: S, gc_count: u32 },
    /// The same secret was installed before.
    Noop { kid: S },
}

impl View for RotateWaitpointHmacSecretOutcome {
    type V = RotateWaitpointHmacSecretOutcome<Seq<char>>;

    open spec fn view(&self) -> RotateWaitpointHmacSecretOutcome<Seq<char>> {
        match *self {
            RotateWaitpointHmacSecretOutcome::Rotated { previous_kid, new_kid, gc_count } => {
                RotateWaitpointHmacSecretOutcome::Rotated {
                    previous_kid: text::opt_text(previous_kid),
                    new_kid: new_kid@,
                    gc_count,
                }
            },
            RotateWaitpointHmacSecretOutcome::Noop { kid } => {
                RotateWaitpointHmacSecretOutcome::Noop { kid: kid@ }
            },
        }
    }
}

/// A text, or nothing for the empty one.
pub open spec fn non_empty(s: Seq<char>) -> Option<Seq<char>> {
    if s.len() == 0 {
        None
    } else {
        Some(s)
    }
}

fn keep_non_empty(s: String) -> (r: Option<String>)
    ensures
        text::opt_text(r) == non_empty(s@),
{
    if s.as_str().is_empty() {
        None
    } else {
        Some(s)
    }
}

/// The meaning of a reply to rotating a secret.
pub open spec fn rotate_reply(raw: Value) -> Result<
    RotateWaitpointHmacSecretOutcome<Seq<char>>,
    ScriptErrorView,
> {
    match result::accepted(raw) {
        Err(e) => Err(e),
        Ok(f) => if f.field(0) == "rotated"@ {
            match fields::u32_spec(
                f,
                3,
                "ff_rotate_waitpoint_hmac_secret_outcome"@,
                "bad gc_count: "@,
            ) {
                Err(e) => Err(e),
                Ok(gc_count) => Ok(
                    RotateWaitpointHmacSecretOutcome::Rotated {
                        previous_kid: non_empty(f.field(1)),
                        new_kid: f.field(2),
                        gc_count,
                    },
                ),
            }
        } else if f.field(0) == "noop"@ {
            Ok(RotateWaitpointHmacSecretOutcome::Noop { kid: f.field(1) })
        } else {
            Err(
                error::parse_error(
                    "ff_rotate_waitpoint_hmac_secret_outcome"@,
                    "unexpected rotation outcome: "@ + f.field(0),
                ),
            )
        },
    }
}

impl FromFcallResult for RotateWaitpointHmacSecretOutcome {
    fn from_fcall_result(raw: &Value) -> (r: Result<RotateWaitpointHmacSecretOutcome, ScriptError>)
        ensures
            fields::agrees(r, rotate_reply(*raw)),
    {
        let f = match result::accept(raw) {
            Ok(f) => f,
            Err(e) => {
                return Err(e);
            },
        };
        let variant = f.field_str(0);
        if text::same(variant.as_str(), "rotated") {
            match fields::u32_field(
                &f,
                3,
                "ff_rotate_waitpoint_hmac_secret_outcome",
                "bad gc_count: ",
            ) {
                Err(e) => Err(e),
                Ok(gc_count) => Ok(
                    RotateWaitpointHmacSecretOutcome::Rotated {
                        previous_kid: keep_non_empty(f.field_str(1)),
                        new_kid: f.field_str(2),
                        gc_count,
                    },
                ),
            }
        } else if text::same(variant.as_str(), "noop") {
            Ok(RotateWaitpointHmacSecretOutcome::Noop { kid: f.field_str(1) })
        } else {
            Err(
                error::unreadable(
                    "ff_rotate_waitpoint_hmac_secret_outcome",
                    error::prefixed("unexpected rotation outcome: ", variant.as_str()),
                ),
            )
        }
    }
}

/// A key identifier that still verifies, until it expires.
#[derive(Debug)]
pub struct VerifyingKid<S = String> {
    pub kid: S,
    pub expires_at_ms: i64,
}

/// The key identifiers of a partition.
#[derive(Debug)]
pub struct WaitpointHmacKids {
    pub current_kid: Option<String>,
    pub verifying: Vec<VerifyingKid>,
}

/// The texts of a list of key identifiers.
pub open spec fn kids_view(v: Seq<VerifyingKid>) -> Seq<VerifyingKid<Seq<char>>> {
    v.map_values(
        |k: VerifyingKid| VerifyingKid { kid: k.kid@, expires_at_ms: k.expires_at_ms },
    )
}

/// The key identifier in the pair of fields number `i`.
pub open spec fn kid_at(f: FcallView, i: int) -> Result<VerifyingKid<Seq<char>>, ScriptErrorView> {
    match numbers::parse_i64_spec(f.field(2 + 2 * i + 1)) {
        Ok(t) => Ok(VerifyingKid { kid: f.field(2 + 2 * i), expires_at_ms: t }),
        Err(e) => Err(
            error::parse_error(
                "ff_waitpoint_hmac_kids"@,
                "bad expires_at_ms for kid "@ + f.field(2 + 2 * i) + ": "@ + e.text_spec(),
            ),
        ),
    }
}

/// The first `n` pairs of fields.
pub open spec fn kid_list(f: FcallView, n: nat) -> Seq<
    Result<VerifyingKid<Seq<char>>, ScriptErrorView>,
> {
    Seq::new(n, |i: int| kid_at(f, i))
}

/// The meaning of a reply to listing the key identifiers: the current one, and as
/// many pairs as the count says.
pub open spec fn kids_reply(raw: Value) -> Result<
    (Option<Seq<char>>, Seq<VerifyingKid<Seq<char>>>),
    ScriptErrorView,
> {
    match result::accepted(raw) {
        Err(e) => Err(e),
        Ok(f) => match numbers::parse_usize_spec(f.field(1)) {
            Err(e) => Err(
                error::parse_error(
                    "ff_waitpoint_hmac_kids"@,
                    "bad verifying count: "@ + e.text_spec(),
                ),
            ),
            Ok(n) => match collect::all_ok(kid_list(f, n as nat)) {
                Err(e) => Err(e),
                Ok(kids) => Ok((non_empty(f.field(0)), kids)),
            },
        },
    }
}

fn read_kid(f: &FcallResult, i: usize) -> (r: Result<VerifyingKid, ScriptError>)
    ensures
        match r {
            Ok(k) => kid_at(f@, i as int) == Ok::<VerifyingKid<Seq<char>>, ScriptErrorView>(
                VerifyingKid { kid: k.kid@, expires_at_ms: k.expires_at_ms },
            ),
            Err(e) => kid_at(f@, i as int) == Err::<VerifyingKid<Seq<char>>, ScriptErrorView>(e@),
        },
{
    let n: usize = f.fields.len();
    let kid = if n > 2 && i < (n - 1) / 2 {
        f.field_str(2 + 2 * i)
    } else {
        String::new()
    };
    let expires = if n > 3 && i < (n - 2) / 2 {
        f.field_str(2 + 2 * i + 1)
    } else {
        String::new()
    };
    match numbers::parse_i64(expires.as_str()) {
        Ok(t) => Ok(VerifyingKid { kid, expires_at_ms: t }),
        Err(e) => {
            let mut message = "bad expires_at_ms for kid ".to_owned();
            message.append(kid.as_str());
            message.append(": ");
            message.append(e.text());
            Err(error::unreadable("ff_waitpoint_hmac_kids", message))
        },
    }
}

impl FromFcallResult for WaitpointHmacKids {
    fn from_fcall_result(raw: &Value) -> (r: Result<WaitpointHmacKids, ScriptError>)
        ensures
            match r {
                Ok(k) => kids_reply(*raw) == Ok::<
                    (Option<Seq<char>>, Seq<VerifyingKid<Seq<char>>>),
                    ScriptErrorView,
                >((text::opt_text(k.current_kid), kids_view(k.verifying@))),
                Err(e) => kids_reply(*raw) == Err::<
                    (Option<Seq<char>>, Seq<VerifyingKid<Seq<char>>>),
                    ScriptErrorView,
                >(e@),
            },
    {
        let f = match result::accept(raw) {
            Ok(f) => f,
            Err(e) => {
                return Err(e);
            },
        };
        let n: usize = match numbers::parse_usize(f.field_str(1).as_str()) {
            Ok(n) => n,
            Err(e) => {
                return Err(
                    error::unreadable(
                        "ff_waitpoint_hmac_kids",
                        error::prefixed("bad verifying count: ", e.text()),
                    ),
                );
            },
        };
        let ghost list = kid_list(f@, n as nat);
        let mut verifying: Vec<VerifyingKid> = Vec::new();
        let mut i: usize = 0;
        assert(list.take(0) =~= Seq::empty());
        assert(kids_view(verifying@) =~= Seq::empty());
        while i < n
            invariant
                list == kid_list(f@, n as nat),
                result::accepted(*raw) == Ok::<FcallView, ScriptErrorView>(f@),
                numbers::parse_usize_spec(f@.field(1)) == Ok::<usize, numbers::IntError>(n),
                i <= n,
                collect::all_ok(list.take(i as int)) == Ok::<
                    Seq<VerifyingKid<Seq<char>>>,
                    ScriptErrorView,
                >(kids_view(verifying@)),
            decreases n - i,
        {
            let ghost before = verifying@;
            proof {
                collect::lemma_all_ok_step(list, i as int);
            }
            match read_kid(&f, i) {
                Ok(k) => {
                    verifying.push(k);
                    assert(kids_view(verifying@) =~= kids_view(before).push(
                        VerifyingKid { kid: k.kid@, expires_at_ms: k.expires_at_ms },
                    ));
                },
                Err(e) => {
                    proof {
                        collect::lemma_all_ok_fails(list, i as int + 1);
                    }
                    return Err(e);
                },
            }
            i = i + 1;
        }
        assert(list.take(n as int) =~= list);
        Ok(WaitpointHmacKids { current_kid: keep_non_empty(f.field_str(0)), verifying })
    }
}

} // verus!
