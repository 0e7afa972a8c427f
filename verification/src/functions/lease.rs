//! Calls on leases.

use vstd::prelude::*;
use vstd::string::*;

use crate::error;
use crate::error::{ScriptError, ScriptErrorView};
use crate::fields;
use crate::fields::FromFcallResult;
use crate::ids::{AttemptIndex, ExecutionId, TimestampMs};
use crate::keys::ExecKeyContext;
use crate::names::WorkerInstanceId;
use crate::numbers;
use crate::result;
use crate::text;
use crate::value::Value;
use crate::wire;
use crate::wire::{Call, LeaseFence};

verus! {

/// Key of the lease expiries in the execution's partition.
pub open spec fn lease_expiry_spec(ctx: ExecKeyContext) -> Seq<char> {
    "ff:idx:"@ + ctx.tag_spec() + ":lease_expiry"@
}

fn lease_expiry_key(ctx: &ExecKeyContext) -> (r: String)
    ensures
        r@ == lease_expiry_spec(*ctx),
{
    let mut out = "ff:idx:".to_owned();
    out.append(ctx.hash_tag());
    out.append(":lease_expiry");
    out
}

/// Key of a worker's leases in the execution's partition.
pub open spec fn worker_leases_spec(ctx: ExecKeyContext, worker: Seq<char>) -> Seq<char> {
    "ff:idx:"@ + ctx.tag_spec() + ":worker:"@ + worker + ":leases"@
}

fn worker_leases_key(ctx: &ExecKeyContext, worker: &WorkerInstanceId) -> (r: String)
    ensures
        r@ == worker_leases_spec(*ctx, worker@),
{
    let mut out = "ff:idx:".to_owned();
    out.append(ctx.hash_tag());
    out.append(":worker:");
    out.append(worker.as_str());
    out.append(":leases");
    out
}

/// Arguments of [`ff_renew_lease`].
pub struct RenewLeaseArgs {
    pub execution_id: ExecutionId,
    pub attempt_index: AttemptIndex,
    pub fence: Option<LeaseFence>,
    pub lease_ttl_ms: u64,
    pub lease_history_grace_ms: u64,
}

/// Renew a lease.
pub fn ff_renew_lease(ctx: &ExecKeyContext, args: &RenewLeaseArgs) -> (r: Call)
    ensures
        r.function == "ff_renew_lease",
        r.keys_spec() == seq![
            ctx.core_key_spec(),
            ctx.lease_current_spec(),
            ctx.lease_history_spec(),
            lease_expiry_spec(*ctx),
        ],
        r.argv_spec() == seq![
            args.execution_id@,
            numbers::decimal(args.attempt_index.0 as int),
            wire::fence_attempt_id_spec(args.fence),
            wire::fence_lease_id_spec(args.fence),
            wire::fence_lease_epoch_spec(args.fence),
            numbers::decimal(args.lease_ttl_ms as int),
            numbers::decimal(args.lease_history_grace_ms as int),
        ],
{
    let mut keys: Vec<String> = Vec::new();
    keys.push(ctx.core_key());
    keys.push(ctx.lease_current());
    keys.push(ctx.lease_history());
    keys.push(lease_expiry_key(ctx));
    let mut argv: Vec<String> = Vec::new();
    argv.push(args.execution_id.as_str().to_owned());
    argv.push(numbers::u64_text(args.attempt_index.0 as u64));
    argv.push(wire::fence_attempt_id(&args.fence));
    argv.push(wire::fence_lease_id(&args.fence));
    argv.push(wire::fence_lease_epoch(&args.fence));
    argv.push(numbers::u64_text(args.lease_ttl_ms));
    argv.push(numbers::u64_text(args.lease_history_grace_ms));
    Call { function: "ff_renew_lease", keys, argv }
}

/// Arguments of [`ff_mark_lease_expired_if_due`].
pub struct MarkLeaseExpiredArgs {
    pub execution_id: ExecutionId,
}

/// Mark a lease expired if it is due.
pub fn ff_mark_lease_expired_if_due(ctx: &ExecKeyContext, args: &MarkLeaseExpiredArgs) -> (r: Call)
    ensures
        r.function == "ff_mark_lease_expired_if_due",
        r.keys_spec() == seq![
            ctx.core_key_spec(),
            ctx.lease_current_spec(),
            lease_expiry_spec(*ctx),
            ctx.lease_history_spec(),
        ],
        r.argv_spec() == seq![
            args.execution_id@,
        ],
{
    let mut keys: Vec<String> = Vec::new();
    keys.push(ctx.core_key());
    keys.push(ctx.lease_current());
    keys.push(lease_expiry_key(ctx));
    keys.push(ctx.lease_history());
    let mut argv: Vec<String> = Vec::new();
    argv.push(args.execution_id.as_str().to_owned());
    Call { function: "ff_mark_lease_expired_if_due", keys, argv }
}

/// Arguments of [`ff_revoke_lease`].
pub struct RevokeLeaseArgs {
    pub execution_id: ExecutionId,
    pub expected_lease_id: Option<String>,
    pub worker_instance_id: WorkerInstanceId,
    pub reason: String,
}

/// Revoke a lease.
pub fn ff_revoke_lease(ctx: &ExecKeyContext, args: &RevokeLeaseArgs) -> (r: Call)
    ensures
        r.function == "ff_revoke_lease",
        r.keys_spec() == seq![
            ctx.core_key_spec(),
            ctx.lease_current_spec(),
            ctx.lease_history_spec(),
            lease_expiry_spec(*ctx),
            worker_leases_spec(*ctx, args.worker_instance_id@),
        ],
        r.argv_spec() == seq![
            args.execution_id@,
            wire::or_spec(args.expected_lease_id, ""@),
            args.reason@,
        ],
{
    let mut keys: Vec<String> = Vec::new();
    keys.push(ctx.core_key());
    keys.push(ctx.lease_current());
    keys.push(ctx.lease_history());
    keys.push(lease_expiry_key(ctx));
    keys.push(worker_leases_key(ctx, &args.worker_instance_id));
    let mut argv: Vec<String> = Vec::new();
    argv.push(args.execution_id.as_str().to_owned());
    argv.push(wire::or_text(&args.expected_lease_id, ""));
    argv.push(args.reason.as_str().to_owned());
    Call { function: "ff_revoke_lease", keys, argv }
}

/// Outcome of a renewal.
#[derive(Clone, Copy, Debug, PartialEq, Eq, Structural)]
pub enum RenewLeaseResult {
    Renewed { expires_at: TimestampMs },
}

impl View for RenewLeaseResult {
    type V = RenewLeaseResult;

    open spec fn view(&self) -> RenewLeaseResult {
        *self
    }
}

/// The meaning of a reply to a renewal.
pub open spec fn renew_reply(raw: Value) -> Result<RenewLeaseResult, ScriptErrorView> {
    match result::accepted(raw) {
        Err(e) => Err(e),
        Ok(f) => match numbers::parse_i64_spec(f.field(0)) {
            Ok(t) => Ok(RenewLeaseResult::Renewed { expires_at: TimestampMs(t) }),
            Err(_) => Err(
                error::parse_error("ff_renew_lease"@, "invalid expires_at: "@ + f.field(0)),
            ),
        },
    }
}

impl FromFcallResult for RenewLeaseResult {
    fn from_fcall_result(raw: &Value) -> (r: Result<RenewLeaseResult, ScriptError>)
        ensures
            fields::agrees(r, renew_reply(*raw)),
    {
        match result::accept(raw) {
            Err(e) => Err(e),
            Ok(f) => {
                let s = f.field_str(0);
                match numbers::parse_i64(s.as_str()) {
                    Ok(t) => Ok(RenewLeaseResult::Renewed { expires_at: TimestampMs(t) }),
                    Err(_) => Err(
                        error::unreadable(
                            "ff_renew_lease",
                            error::prefixed("invalid expires_at: ", s.as_str()),
                        ),
                    ),
                }
            },
        }
    }
}

/// Outcome of marking a lease expired.
#[derive(Debug)]
pub enum MarkLeaseExpiredResult<S = String> {
    MarkedExpired,
    AlreadySatisfied { reason: S },
}

impl View for MarkLeaseExpiredResult {
    type V = MarkLeaseExpiredResult<Seq<char>>;

    open spec fn view(&self) -> MarkLeaseExpiredResult<Seq<char>> {
        match *self {
            MarkLeaseExpiredResult::MarkedExpired => MarkLeaseExpiredResult::MarkedExpired,
            MarkLeaseExpiredResult::AlreadySatisfied { reason } => {
                MarkLeaseExpiredResult::AlreadySatisfied { reason: reason@ }
            },
        }
    }
}

/// The meaning of a reply to marking a lease expired.
pub open spec fn mark_reply(raw: Value) -> Result<
    MarkLeaseExpiredResult<Seq<char>>,
    ScriptErrorView,
> {
    match result::accepted(raw) {
        Err(e) => Err(e),
        Ok(f) => if f.status == "OK"@ {
            Ok(MarkLeaseExpiredResult::MarkedExpired)
        } else if f.status == "ALREADY_SATISFIED"@ {
            Ok(MarkLeaseExpiredResult::AlreadySatisfied { reason: f.field(0) })
        } else {
            Err(
                error::parse_error(
                    "ff_mark_lease_expired_if_due"@,
                    "unexpected status from ff_mark_lease_expired_if_due: "@ + f.status,
                ),
            )
        },
    }
}

impl FromFcallResult for MarkLeaseExpiredResult {
    fn from_fcall_result(raw: &Value) -> (r: Result<MarkLeaseExpiredResult, ScriptError>)
        ensures
            fields::agrees(r, mark_reply(*raw)),
    {
        match result::accept(raw) {
            Err(e) => Err(e),
            Ok(f) => if text::same(f.status.as_str(), "OK") {
                Ok(MarkLeaseExpiredResult::MarkedExpired)
            } else if text::same(f.status.as_str(), "ALREADY_SATISFIED") {
                Ok(MarkLeaseExpiredResult::AlreadySatisfied { reason: f.field_str(0) })
            } else {
                Err(
                    error::unreadable(
                        "ff_mark_lease_expired_if_due",
                        error::prefixed(
                            "unexpected status from ff_mark_lease_expired_if_due: ",
                            f.status.as_str(),
                        ),
                    ),
                )
            },
        }
    }
}

/// Outcome of a revocation. The lease is as the server renders it.
#[derive(Debug)]
pub enum RevokeLeaseResult<S = String> {
    Revoked { lease_id: S, lease_epoch: S },
    AlreadySatisfied { reason: S },
}

impl View for RevokeLeaseResult {
    type V = RevokeLeaseResult<Seq<char>>;

    open spec fn view(&self) -> RevokeLeaseResult<Seq<char>> {
        match *self {
            RevokeLeaseResult::Revoked { lease_id, lease_epoch } => RevokeLeaseResult::Revoked {
                lease_id: lease_id@,
                lease_epoch: lease_epoch@,
            },
            RevokeLeaseResult::AlreadySatisfied { reason } => RevokeLeaseResult::AlreadySatisfied {
                reason: reason@,
            },
        }
    }
}

/// The meaning of a reply to a revocation.
pub open spec fn revoke_reply(raw: Value) -> Result<RevokeLeaseResult<Seq<char>>, ScriptErrorView> {
    match result::accepted(raw) {
        Err(e) => Err(e),
        Ok(f) => if f.status == "OK"@ {
            Ok(RevokeLeaseResult::Revoked { lease_id: f.field(1), lease_epoch: f.field(2) })
        } else if f.status == "ALREADY_SATISFIED"@ {
            Ok(RevokeLeaseResult::AlreadySatisfied { reason: f.field(0) })
        } else {
            Err(
                error::parse_error(
                    "ff_revoke_lease"@,
                    "unexpected status from ff_revoke_lease: "@ + f.status,
                ),
            )
        },
    }
}

impl FromFcallResult for RevokeLeaseResult {
    fn from_fcall_result(raw: &Value) -> (r: Result<RevokeLeaseResult, ScriptError>)
        ensures
            fields::agrees(r, revoke_reply(*raw)),
    {
        match result::accept(raw) {
            Err(e) => Err(e),
            Ok(f) => if text::same(f.status.as_str(), "OK") {
                Ok(
                    RevokeLeaseResult::Revoked {
                        lease_id: f.field_str(1),
                        lease_epoch: f.field_str(2),
                    },
                )
            } else if text::same(f.status.as_str(), "ALREADY_SATISFIED") {
                Ok(RevokeLeaseResult::AlreadySatisfied { reason: f.field_str(0) })
            } else {
                Err(
                    error::unreadable(
                        "ff_revoke_lease",
                        error::prefixed(
                            "unexpected status from ff_revoke_lease: ",
                            f.status.as_str(),
                        ),
                    ),
                )
            },
        }
    }
}

} // verus!
