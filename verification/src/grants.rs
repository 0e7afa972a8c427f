//! Grants: what a scheduler hands to a worker so that it may claim an execution.

use vstd::prelude::*;
use vstd::string::*;

use crate::ids::{AttemptId, AttemptIndex, ExecutionId, LeaseId, TimestampMs};
use crate::names::{LaneId, WorkerId, WorkerInstanceId};
use crate::numbers;
use crate::partition;
use crate::partition::Partition;
use crate::sdk_error;
use crate::sdk_error::{SdkError, SdkErrorView};
use crate::text;

verus! {

/// A grant to claim an execution for the first time.
#[derive(Debug)]
pub struct ClaimGrant {
    pub execution_id: ExecutionId,
    /// The hash tag of the partition.
    pub partition_key: String,
    pub grant_key: String,
    pub expires_at_ms: u64,
}

/// A grant to claim a resumed execution.
#[derive(Debug)]
pub struct ResumeGrant {
    pub execution_id: ExecutionId,
    /// The hash tag of the partition.
    pub partition_key: String,
    pub grant_key: String,
    pub expires_at_ms: u64,
    pub lane_id: LaneId,
}

/// A grant to take over an execution whose lease was lost.
#[derive(Debug)]
pub struct ReclaimGrant {
    pub execution_id: ExecutionId,
    /// The hash tag of the partition.
    pub partition_key: String,
    pub grant_key: String,
    pub expires_at_ms: u64,
    pub lane_id: LaneId,
}

/// Arguments of taking over an execution.
pub struct ReclaimExecutionArgs {
    pub execution_id: ExecutionId,
    pub worker_id: WorkerId,
    pub worker_instance_id: WorkerInstanceId,
    pub lane_id: LaneId,
    pub capability_hash: Option<String>,
    pub lease_id: LeaseId,
    pub lease_ttl_ms: u64,
    pub attempt_id: AttemptId,
    pub attempt_policy_json: String,
    pub max_reclaim_count: Option<u32>,
    pub old_worker_instance_id: WorkerInstanceId,
    pub current_attempt_index: AttemptIndex,
}

/// The partition of a grant, or the refusal of its key under the name of the
/// operation, from what a reading of the key gave.
pub open spec fn read_or_refused(
    context: Seq<char>,
    read: Result<Partition, Seq<char>>,
) -> Result<Partition, SdkErrorView> {
    match read {
        Ok(p) => Ok(p),
        Err(e) => Err(sdk_error::field_error(context, "partition_key"@, e)),
    }
}

/// The partition of a grant, or the refusal of its key.
pub open spec fn partition_or_refusal(context: Seq<char>, key: Seq<char>) -> Result<
    Partition,
    SdkErrorView,
> {
    read_or_refused(context, partition::partition_of_key(key))
}

/// The partition of a grant, from what a reading of its key gave.
pub fn partition_as_read(context: &str, read: Result<Partition, String>) -> (r: Result<
    Partition,
    SdkError,
>)
    ensures
        match read {
            Ok(p) => r == Ok::<Partition, SdkError>(p),
            Err(e) => r matches Err(x) && x@ == sdk_error::field_error(
                context@,
                "partition_key"@,
                e@,
            ),
        },
{
    match read {
        Ok(p) => Ok(p),
        Err(e) => Err(sdk_error::bad_field(context, "partition_key", e)),
    }
}

/// The partition of a grant.
pub fn grant_partition(context: &str, key: &str) -> (r: Result<Partition, SdkError>)
    ensures
        match partition_or_refusal(context@, key@) {
            Ok(p) => r == Ok::<Partition, SdkError>(p),
            Err(e) => r matches Err(x) && x@ == e,
        },
{
    partition_as_read(context, partition::partition_from_key(key))
}

impl ClaimGrant {
    /// The partition that the grant's key names.
    pub fn partition(&self) -> (r: Result<Partition, String>)
        ensures
            partition::key_view(r) == partition::partition_of_key(self.partition_key@),
            partition::reads_back(self.partition_key@, r),
    {
        partition::partition_from_key(self.partition_key.as_str())
    }
}

// ── Taking over ──

/// The operation under whose name a bad grant is refused.
pub open spec fn reclaim_refused(field: Seq<char>, message: Seq<char>) -> SdkErrorView {
    sdk_error::field_error("claim_from_reclaim_grant"@, field, message)
}

/// Why a grant does not cover the arguments: another execution, another lane, or
/// too late, in this order. A grant that expires now is too late.
pub open spec fn reclaim_refusal(
    grant: ReclaimGrant,
    args: ReclaimExecutionArgs,
    now_ms: u64,
) -> Option<SdkErrorView> {
    if grant.execution_id@ != args.execution_id@ {
        Some(
            reclaim_refused(
                "execution_id"@,
                "grant.execution_id ("@ + grant.execution_id@
                    + ") does not match args.execution_id ("@ + args.execution_id@ + ")"@,
            ),
        )
    } else if grant.lane_id@ != args.lane_id@ {
        Some(
            reclaim_refused(
                "lane_id"@,
                "grant.lane_id ("@ + grant.lane_id@ + ") does not match args.lane_id ("@
                    + args.lane_id@ + ")"@,
            ),
        )
    } else if grant.expires_at_ms <= now_ms {
        Some(
            reclaim_refused(
                "expires_at_ms"@,
                "grant expired: expires_at_ms="@ + numbers::decimal(grant.expires_at_ms as int)
                    + " now_ms="@ + numbers::decimal(now_ms as int),
            ),
        )
    } else {
        None
    }
}

/// Check that a grant covers the arguments, so that a grant for one execution
/// cannot serve to take over another.
pub fn validate_reclaim_grant_against_args(
    grant: &ReclaimGrant,
    args: &ReclaimExecutionArgs,
    now_ms: u64,
) -> (r: Result<(), SdkError>)
    ensures
        match reclaim_refusal(*grant, *args, now_ms) {
            Some(e) => r matches Err(x) && x@ == e,
            None => r is Ok,
        },
{
    if !text::same(grant.execution_id.as_str(), args.execution_id.as_str()) {
        let mut m = "grant.execution_id (".to_owned();
        m.append(grant.execution_id.as_str());
        m.append(") does not match args.execution_id (");
        m.append(args.execution_id.as_str());
        m.append(")");
        return Err(sdk_error::bad_field("claim_from_reclaim_grant", "execution_id", m));
    }
    if !text::same(grant.lane_id.as_str(), args.lane_id.as_str()) {
        let mut m = "grant.lane_id (".to_owned();
        m.append(grant.lane_id.as_str());
        m.append(") does not match args.lane_id (");
        m.append(args.lane_id.as_str());
        m.append(")");
        return Err(sdk_error::bad_field("claim_from_reclaim_grant", "lane_id", m));
    }
    if grant.expires_at_ms <= now_ms {
        let mut m = "grant expired: expires_at_ms=".to_owned();
        m.append(numbers::u64_text(grant.expires_at_ms).as_str());
        m.append(" now_ms=");
        m.append(numbers::u64_text(now_ms).as_str());
        return Err(sdk_error::bad_field("claim_from_reclaim_grant", "expires_at_ms", m));
    }
    Ok(())
}

/// A time as an unsigned number. One before the epoch counts as the epoch, so that
/// it is not taken for one far ahead.
pub open spec fn clock_ms(now: TimestampMs) -> u64 {
    if now.0 < 0 {
        0
    } else {
        now.0 as u64
    }
}

/// What may be sent to take over an execution: the arguments, once the grant covers
/// them.
pub fn claim_from_reclaim_grant(
    grant: &ReclaimGrant,
    args: ReclaimExecutionArgs,
    now: TimestampMs,
) -> (r: Result<ReclaimExecutionArgs, SdkError>)
    ensures
        match reclaim_refusal(*grant, args, clock_ms(now)) {
            Some(e) => r matches Err(x) && x@ == e,
            None => r == Ok::<ReclaimExecutionArgs, SdkError>(args),
        },
{
    let now_ms: u64 = if now.0 < 0 {
        0
    } else {
        now.0 as u64
    };
    match validate_reclaim_grant_against_args(grant, &args, now_ms) {
        Err(e) => Err(e),
        Ok(_) => Ok(args),
    }
}

/// A grant that is refused at some time is refused ever after.
pub proof fn law_expiry_is_final(
    grant: ReclaimGrant,
    args: ReclaimExecutionArgs,
    now_ms: u64,
    later_ms: u64,
)
    requires
        now_ms <= later_ms,
        reclaim_refusal(grant, args, now_ms) is Some,
    ensures
        reclaim_refusal(grant, args, later_ms) is Some,
{
}

} // verus!
