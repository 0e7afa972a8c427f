//! Calls of the scheduler.

use vstd::prelude::*;
use vstd::string::*;

use crate::error::{ScriptError, ScriptErrorView};
use crate::fields;
use crate::fields::FromFcallResult;
use crate::functions::execution::{ClaimExecutionArgs, ExecOpKeys};
use crate::ids::{AttemptIndex, ExecutionId, LeaseEpoch, LeaseId};
use crate::keys::{ExecKeyContext, IndexKeys};
use crate::names::{LaneId, WorkerId, WorkerInstanceId};
use crate::numbers;
use crate::result;
use crate::text;
use crate::text_set::TextSet;
use crate::value::Value;
use crate::wire;
use crate::wire::Call;

verus! {

/// Key contexts of a scheduling operation.
pub struct SchedOpKeys<'a> {
    pub ctx: &'a ExecKeyContext,
    pub idx: &'a IndexKeys,
    pub lane_id: &'a LaneId,
}

/// Arguments of [`ff_issue_claim_grant`].
pub struct IssueClaimGrantArgs {
    pub execution_id: ExecutionId,
    pub lane_id: LaneId,
    pub worker_id: WorkerId,
    pub worker_instance_id: WorkerInstanceId,
    pub capability_hash: Option<String>,
    pub route_snapshot_json: Option<String>,
    pub admission_summary: Option<String>,
    pub worker_capabilities: TextSet,
    pub grant_ttl_ms: u64,
}

/// Issue a claim grant.
pub fn ff_issue_claim_grant(k: &SchedOpKeys, args: &IssueClaimGrantArgs) -> (r: Call)
    ensures
        r.function == "ff_issue_claim_grant",
        r.keys_spec() == seq![
            k.ctx.core_key_spec(),
            k.ctx.claim_grant_spec(),
            k.idx.lane_eligible_spec(k.lane_id@),
        ],
        r.argv_spec() == seq![
            args.execution_id@,
            args.worker_id@,
            args.worker_instance_id@,
            args.lane_id@,
            wire::or_spec(args.capability_hash, ""@),
            numbers::decimal(args.grant_ttl_ms as int),
            wire::or_spec(args.route_snapshot_json, ""@),
            wire::or_spec(args.admission_summary, ""@),
            text::joined(args.worker_capabilities.items_spec(), ","@),
        ],
{
    let mut keys: Vec<String> = Vec::new();
    keys.push(k.ctx.core_key());
    keys.push(k.ctx.claim_grant());
    keys.push(k.idx.lane_eligible(k.lane_id));
    let mut argv: Vec<String> = Vec::new();
    argv.push(args.execution_id.as_str().to_owned());
    argv.push(args.worker_id.as_str().to_owned());
    argv.push(args.worker_instance_id.as_str().to_owned());
    argv.push(args.lane_id.as_str().to_owned());
    argv.push(wire::or_text(&args.capability_hash, ""));
    argv.push(numbers::u64_text(args.grant_ttl_ms));
    argv.push(wire::or_text(&args.route_snapshot_json, ""));
    argv.push(wire::or_text(&args.admission_summary, ""));
    argv.push(args.worker_capabilities.csv());
    Call { function: "ff_issue_claim_grant", keys, argv }
}

/// Arguments of [`ff_change_priority`].
pub struct ChangePriorityArgs {
    pub execution_id: ExecutionId,
    pub new_priority: i32,
}

/// Change the priority of an execution.
pub fn ff_change_priority(k: &SchedOpKeys, args: &ChangePriorityArgs) -> (r: Call)
    ensures
        r.function == "ff_change_priority",
        r.keys_spec() == seq![
            k.ctx.core_key_spec(),
            k.idx.lane_eligible_spec(k.lane_id@),
        ],
        r.argv_spec() == seq![
            args.execution_id@,
            numbers::decimal(args.new_priority as int),
        ],
{
    let mut keys: Vec<String> = Vec::new();
    keys.push(k.ctx.core_key());
    keys.push(k.idx.lane_eligible(k.lane_id));
    let mut argv: Vec<String> = Vec::new();
    argv.push(args.execution_id.as_str().to_owned());
    argv.push(numbers::i64_text(args.new_priority as i64));
    Call { function: "ff_change_priority", keys, argv }
}

/// Arguments of [`ff_update_progress`].
pub struct UpdateProgressArgs {
    pub execution_id: ExecutionId,
    pub lease_id: LeaseId,
    pub lease_epoch: LeaseEpoch,
    pub progress_pct: Option<u8>,
    pub progress_message: Option<String>,
}

/// Report progress.
pub fn ff_update_progress(k: &SchedOpKeys, args: &UpdateProgressArgs) -> (r: Call)
    ensures
        r.function == "ff_update_progress",
        r.keys_spec() == seq![
            k.ctx.core_key_spec(),
        ],
        r.argv_spec() == seq![
            args.execution_id@,
            args.lease_id@,
            numbers::decimal(args.lease_epoch.0 as int),
            wire::opt_u8_spec(args.progress_pct),
            wire::or_spec(args.progress_message, ""@),
        ],
{
    let mut keys: Vec<String> = Vec::new();
    keys.push(k.ctx.core_key());
    let mut argv: Vec<String> = Vec::new();
    argv.push(args.execution_id.as_str().to_owned());
    argv.push(args.lease_id.as_str().to_owned());
    argv.push(numbers::u64_text(args.lease_epoch.0));
    argv.push(wire::opt_u8(args.progress_pct));
    argv.push(wire::or_text(&args.progress_message, ""));
    Call { function: "ff_update_progress", keys, argv }
}

/// Issue a claim grant and claim in one step.
pub fn ff_issue_grant_and_claim(k: &ExecOpKeys, args: &ClaimExecutionArgs) -> (r: Call)
    ensures
        r.function == "ff_issue_grant_and_claim",
        r.keys_spec() == seq![
            k.ctx.core_key_spec(),
            k.ctx.claim_grant_spec(),
            k.idx.lane_eligible_spec(k.lane_id@),
            k.idx.lease_expiry_spec(),
            k.idx.worker_leases_spec(k.worker_instance_id@),
            k.ctx.attempts_spec(),
            k.ctx.lease_current_spec(),
            k.ctx.lease_history_spec(),
            k.idx.lane_active_spec(k.lane_id@),
            k.idx.attempt_timeout_spec(),
            k.idx.execution_deadline_spec(),
        ],
        r.argv_spec() == seq![
            args.execution_id@,
            args.worker_id@,
            args.worker_instance_id@,
            args.lane_id@,
            Seq::<char>::empty(),
            args.lease_id@,
            numbers::decimal(args.lease_ttl_ms as int),
            args.attempt_id@,
            args.attempt_policy_json@,
            wire::opt_u64_spec(args.attempt_timeout_ms),
            wire::opt_i64_spec(args.execution_deadline_at),
        ],
{
    let mut keys: Vec<String> = Vec::new();
    keys.push(k.ctx.core_key());
    keys.push(k.ctx.claim_grant());
    keys.push(k.idx.lane_eligible(k.lane_id));
    keys.push(k.idx.lease_expiry());
    keys.push(k.idx.worker_leases(k.worker_instance_id));
    keys.push(k.ctx.attempts());
    keys.push(k.ctx.lease_current());
    keys.push(k.ctx.lease_history());
    keys.push(k.idx.lane_active(k.lane_id));
    keys.push(k.idx.attempt_timeout());
    keys.push(k.idx.execution_deadline());
    let mut argv: Vec<String> = Vec::new();
    argv.push(args.execution_id.as_str().to_owned());
    argv.push(args.worker_id.as_str().to_owned());
    argv.push(args.worker_instance_id.as_str().to_owned());
    argv.push(args.lane_id.as_str().to_owned());
    argv.push(String::new());
    argv.push(args.lease_id.as_str().to_owned());
    argv.push(numbers::u64_text(args.lease_ttl_ms));
    argv.push(args.attempt_id.as_str().to_owned());
    argv.push(args.attempt_policy_json.as_str().to_owned());
    argv.push(wire::opt_u64(args.attempt_timeout_ms));
    argv.push(wire::opt_i64(args.execution_deadline_at));
    Call { function: "ff_issue_grant_and_claim", keys, argv }
}

/// Outcome of issuing a claim grant.
#[derive(Debug)]
pub enum IssueClaimGrantResult<I = ExecutionId> {
    Granted { execution_id: I },
}

impl View for IssueClaimGrantResult {
    type V = IssueClaimGrantResult<Seq<char>>;

    open spec fn view(&self) -> IssueClaimGrantResult<Seq<char>> {
        match *self {
            IssueClaimGrantResult::Granted { execution_id } => IssueClaimGrantResult::Granted {
                execution_id: execution_id@,
            },
        }
    }
}

/// The meaning of a reply to issuing a claim grant.
pub open spec fn grant_reply(raw: Value) -> Result<
    IssueClaimGrantResult<Seq<char>>,
    ScriptErrorView,
> {
    match result::accepted(raw) {
        Err(e) => Err(e),
        Ok(f) => match fields::execution_id_spec(
            f,
            0,
            "ff_issue_claim_grant"@,
            "bad execution_id: "@,
        ) {
            Err(e) => Err(e),
            Ok(execution_id) => Ok(IssueClaimGrantResult::Granted { execution_id }),
        },
    }
}

impl FromFcallResult for IssueClaimGrantResult {
    fn from_fcall_result(raw: &Value) -> (r: Result<IssueClaimGrantResult, ScriptError>)
        ensures
            fields::agrees(r, grant_reply(*raw)),
    {
        match result::accept(raw) {
            Err(e) => Err(e),
            Ok(f) => match fields::execution_id_field(
                &f,
                0,
                "ff_issue_claim_grant",
                "bad execution_id: ",
            ) {
                Err(e) => Err(e),
                Ok(execution_id) => Ok(IssueClaimGrantResult::Granted { execution_id }),
            },
        }
    }
}

/// Outcome of changing a priority, without the execution.
#[derive(Clone, Copy, Debug, PartialEq, Eq, Structural)]
pub enum ChangePriorityResultPartial {
    Changed,
}

/// Outcome of changing a priority.
#[derive(Debug)]
pub enum ChangePriorityResult {
    Changed { execution_id: ExecutionId },
}

impl ChangePriorityResultPartial {
    /// Attach the execution.
    pub fn complete(self, execution_id: ExecutionId) -> (r: ChangePriorityResult)
        ensures
            r == (ChangePriorityResult::Changed { execution_id }),
    {
        match self {
            ChangePriorityResultPartial::Changed => ChangePriorityResult::Changed { execution_id },
        }
    }
}

impl FromFcallResult for ChangePriorityResultPartial {
    fn from_fcall_result(raw: &Value) -> (r: Result<ChangePriorityResultPartial, ScriptError>)
        ensures
            match result::accepted(*raw) {
                Err(e) => r matches Err(x) && x@ == e,
                Ok(_) => r is Ok,
            },
    {
        match result::accept(raw) {
            Err(e) => Err(e),
            Ok(_) => Ok(ChangePriorityResultPartial::Changed),
        }
    }
}

/// Outcome of a progress report.
#[derive(Clone, Copy, Debug, PartialEq, Eq, Structural)]
pub enum UpdateProgressResult {
    Updated,
}

impl FromFcallResult for UpdateProgressResult {
    fn from_fcall_result(raw: &Value) -> (r: Result<UpdateProgressResult, ScriptError>)
        ensures
            match result::accepted(*raw) {
                Err(e) => r matches Err(x) && x@ == e,
                Ok(_) => r is Ok,
            },
    {
        match result::accept(raw) {
            Err(e) => Err(e),
            Ok(_) => Ok(UpdateProgressResult::Updated),
        }
    }
}

/// A lease that was granted and claimed in one step, as it is read.
#[derive(Debug)]
pub struct ClaimGrantOutcomePartial<L = LeaseId> {
    pub lease_id: L,
    pub lease_epoch: LeaseEpoch,
    pub attempt_index: AttemptIndex,
}

/// A lease that was granted and claimed in one step.
#[derive(Debug)]
pub struct ClaimGrantOutcome {
    pub lease_id: LeaseId,
    pub lease_epoch: LeaseEpoch,
    pub attempt_index: AttemptIndex,
}

impl View for ClaimGrantOutcomePartial {
    type V = ClaimGrantOutcomePartial<Seq<char>>;

    open spec fn view(&self) -> ClaimGrantOutcomePartial<Seq<char>> {
        ClaimGrantOutcomePartial {
            lease_id: self.lease_id@,
            lease_epoch: self.lease_epoch,
            attempt_index: self.attempt_index,
        }
    }
}

impl ClaimGrantOutcomePartial {
    /// The outcome.
    pub fn complete(self) -> (r: ClaimGrantOutcome)
        ensures
            r == (ClaimGrantOutcome {
                lease_id: self.lease_id,
                lease_epoch: self.lease_epoch,
                attempt_index: self.attempt_index,
            }),
    {
        ClaimGrantOutcome {
            lease_id: self.lease_id,
            lease_epoch: self.lease_epoch,
            attempt_index: self.attempt_index,
        }
    }
}

/// The name under which an unreadable reply is reported.
pub open spec fn outcome_name() -> Seq<char> {
    "ff_issue_grant_and_claim"@
}

/// The meaning of a reply to granting and claiming: lease, epoch, attempt index.
pub open spec fn outcome_reply(raw: Value) -> Result<
    ClaimGrantOutcomePartial<Seq<char>>,
    ScriptErrorView,
> {
    match result::accepted(raw) {
        Err(e) => Err(e),
        Ok(f) => match fields::lease_id_spec(f, 0, outcome_name(), "bad lease_id: "@) {
            Err(e) => Err(e),
            Ok(lease_id) => match fields::u64_spec(f, 1, outcome_name(), "bad epoch: "@) {
                Err(e) => Err(e),
                Ok(epoch) => match fields::u32_spec(
                    f,
                    2,
                    outcome_name(),
                    "bad attempt_index: "@,
                ) {
                    Err(e) => Err(e),
                    Ok(attempt_index) => Ok(
                        ClaimGrantOutcomePartial {
                            lease_id,
                            lease_epoch: LeaseEpoch(epoch),
                            attempt_index: AttemptIndex(attempt_index),
                        },
                    ),
                },
            },
        },
    }
}

impl FromFcallResult for ClaimGrantOutcomePartial {
    fn from_fcall_result(raw: &Value) -> (r: Result<ClaimGrantOutcomePartial, ScriptError>)
        ensures
            fields::agrees(r, outcome_reply(*raw)),
    {
        let f = match result::accept(raw) {
            Ok(f) => f,
            Err(e) => {
                return Err(e);
            },
        };
        let fcall = "ff_issue_grant_and_claim";
        let lease_id = match fields::lease_id_field(&f, 0, fcall, "bad lease_id: ") {
            Ok(x) => x,
            Err(e) => {
                return Err(e);
            },
        };
        let epoch: u64 = match fields::u64_field(&f, 1, fcall, "bad epoch: ") {
            Ok(x) => x,
            Err(e) => {
                return Err(e);
            },
        };
        match fields::u32_field(&f, 2, fcall, "bad attempt_index: ") {
            Err(e) => Err(e),
            Ok(attempt_index) => Ok(
                ClaimGrantOutcomePartial {
                    lease_id,
                    lease_epoch: LeaseEpoch(epoch),
                    attempt_index: AttemptIndex(attempt_index),
                },
            ),
        }
    }
}

} // verus!
