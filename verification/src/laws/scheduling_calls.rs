//! Where a server finds what was asked for: calls of scheduling.

use vstd::prelude::*;
use vstd::string::*;

use crate::functions::execution::ClaimExecutionArgs;
use crate::functions::execution::ExecOpKeys;
use crate::functions::scheduling::{ChangePriorityArgs, IssueClaimGrantArgs, SchedOpKeys, UpdateProgressArgs, ff_change_priority, ff_issue_claim_grant, ff_issue_grant_and_claim, ff_update_progress};
use crate::numbers;
use crate::text;
use crate::wire::Call;

verus! {

/// A request for a grant tells the server, place by place, what was asked for.
pub proof fn law_issue_claim_grant_call(k: &SchedOpKeys<'_>, args: &IssueClaimGrantArgs, r: Call)
    requires
        call_ensures(ff_issue_claim_grant, (k, args), r),
    ensures
        r.function == "ff_issue_claim_grant",
        r.keys_spec().len() == 3,
        r.keys_spec()[0] == k.ctx.core_key_spec(),
        r.keys_spec()[1] == k.ctx.claim_grant_spec(),
        r.keys_spec()[2] == k.idx.lane_eligible_spec(k.lane_id@),
        r.argv_spec().len() == 9,
        r.argv_spec()[0] == args.execution_id@,
        r.argv_spec()[1] == args.worker_id@,
        r.argv_spec()[2] == args.worker_instance_id@,
        r.argv_spec()[3] == args.lane_id@,
        args.capability_hash matches Some(s) ==> r.argv_spec()[4] == s@,
        args.capability_hash is None ==> r.argv_spec()[4].len() == 0,
        r.argv_spec()[5] == numbers::decimal(args.grant_ttl_ms as int),
        args.route_snapshot_json matches Some(s) ==> r.argv_spec()[6] == s@,
        args.route_snapshot_json is None ==> r.argv_spec()[6].len() == 0,
        args.admission_summary matches Some(s) ==> r.argv_spec()[7] == s@,
        args.admission_summary is None ==> r.argv_spec()[7].len() == 0,
        r.argv_spec()[8] == text::joined(args.worker_capabilities.items_spec(), ","@),
{
    reveal_strlit("");
}

/// A change of priority tells the server, place by place, what was asked for.
pub proof fn law_change_priority_call(k: &SchedOpKeys<'_>, args: &ChangePriorityArgs, r: Call)
    requires
        call_ensures(ff_change_priority, (k, args), r),
    ensures
        r.function == "ff_change_priority",
        r.keys_spec().len() == 2,
        r.keys_spec()[0] == k.ctx.core_key_spec(),
        r.keys_spec()[1] == k.idx.lane_eligible_spec(k.lane_id@),
        r.argv_spec().len() == 2,
        r.argv_spec()[0] == args.execution_id@,
        r.argv_spec()[1] == numbers::decimal(args.new_priority as int),
{
}

/// A report of progress tells the server, place by place, what was asked for.
pub proof fn law_update_progress_call(k: &SchedOpKeys<'_>, args: &UpdateProgressArgs, r: Call)
    requires
        call_ensures(ff_update_progress, (k, args), r),
    ensures
        r.function == "ff_update_progress",
        r.keys_spec().len() == 1,
        r.keys_spec()[0] == k.ctx.core_key_spec(),
        r.argv_spec().len() == 5,
        r.argv_spec()[0] == args.execution_id@,
        r.argv_spec()[1] == args.lease_id@,
        r.argv_spec()[2] == numbers::decimal(args.lease_epoch.0 as int),
        args.progress_pct matches Some(n) ==> r.argv_spec()[3] == numbers::decimal(n as int),
        args.progress_pct is None ==> r.argv_spec()[3].len() == 0,
        args.progress_message matches Some(s) ==> r.argv_spec()[4] == s@,
        args.progress_message is None ==> r.argv_spec()[4].len() == 0,
{
    reveal_strlit("");
}

/// A grant with its claim tells the server, place by place, what was asked for.
pub proof fn law_issue_grant_and_claim_call(k: &ExecOpKeys<'_>, args: &ClaimExecutionArgs, r: Call)
    requires
        call_ensures(ff_issue_grant_and_claim, (k, args), r),
    ensures
        r.function == "ff_issue_grant_and_claim",
        r.keys_spec().len() == 11,
        r.keys_spec()[0] == k.ctx.core_key_spec(),
        r.keys_spec()[1] == k.ctx.claim_grant_spec(),
        r.keys_spec()[2] == k.idx.lane_eligible_spec(k.lane_id@),
        r.keys_spec()[3] == k.idx.lease_expiry_spec(),
        r.keys_spec()[4] == k.idx.worker_leases_spec(k.worker_instance_id@),
        r.keys_spec()[5] == k.ctx.attempts_spec(),
        r.keys_spec()[6] == k.ctx.lease_current_spec(),
        r.keys_spec()[7] == k.ctx.lease_history_spec(),
        r.keys_spec()[8] == k.idx.lane_active_spec(k.lane_id@),
        r.keys_spec()[9] == k.idx.attempt_timeout_spec(),
        r.keys_spec()[10] == k.idx.execution_deadline_spec(),
        r.argv_spec().len() == 11,
        r.argv_spec()[0] == args.execution_id@,
        r.argv_spec()[1] == args.worker_id@,
        r.argv_spec()[2] == args.worker_instance_id@,
        r.argv_spec()[3] == args.lane_id@,
        r.argv_spec()[4].len() == 0,
        r.argv_spec()[5] == args.lease_id@,
        r.argv_spec()[6] == numbers::decimal(args.lease_ttl_ms as int),
        r.argv_spec()[7] == args.attempt_id@,
        r.argv_spec()[8] == args.attempt_policy_json@,
        args.attempt_timeout_ms matches Some(n) ==> r.argv_spec()[9] == numbers::decimal(n as int),
        args.attempt_timeout_ms is None ==> r.argv_spec()[9].len() == 0,
        args.execution_deadline_at matches Some(n) ==> r.argv_spec()[10] == numbers::decimal(n as int),
        args.execution_deadline_at is None ==> r.argv_spec()[10].len() == 0,
{
}

} // verus!
