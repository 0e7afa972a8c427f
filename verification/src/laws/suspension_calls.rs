//! Where a server finds what was asked for: calls of suspensions.

use vstd::prelude::*;
use vstd::string::*;

use crate::functions::suspension::{CloseWaitpointArgs, CreatePendingWaitpointArgs, ExpireSuspensionArgs, ExpireSuspensionOpKeys, ResumeExecutionArgs, ResumeOpKeys, RotateWaitpointHmacSecretArgs, SuspendExecutionArgs, SuspendOpKeys, WaitpointOpKeys, ff_close_waitpoint, ff_create_pending_waitpoint, ff_expire_suspension, ff_list_waitpoint_hmac_kids, ff_resume_execution, ff_rotate_waitpoint_hmac_secret, ff_suspend_execution};
use crate::ids::TimestampMs;
use crate::keys::IndexKeys;
use crate::numbers;
use crate::wire::Call;

verus! {

/// A suspension tells the server, place by place, what was asked for.
pub proof fn law_suspend_execution_call(k: &SuspendOpKeys<'_>, args: &SuspendExecutionArgs, r: Call)
    requires
        call_ensures(ff_suspend_execution, (k, args), r),
    ensures
        r.function == "ff_suspend_execution",
        r.keys_spec().len() == 17,
        r.keys_spec()[0] == k.ctx.core_key_spec(),
        r.keys_spec()[1] == k.ctx.attempt_hash_spec(args.attempt_index),
        r.keys_spec()[2] == k.ctx.lease_current_spec(),
        r.keys_spec()[3] == k.ctx.lease_history_spec(),
        r.keys_spec()[4] == k.idx.lease_expiry_spec(),
        r.keys_spec()[5] == k.idx.worker_leases_spec(k.worker_instance_id@),
        r.keys_spec()[6] == k.ctx.suspension_current_spec(),
        r.keys_spec()[7] == k.ctx.waitpoint_spec(args.waitpoint_id@),
        r.keys_spec()[8] == k.ctx.waitpoint_signals_spec(args.waitpoint_id@),
        r.keys_spec()[9] == k.idx.suspension_timeout_spec(),
        r.keys_spec()[10] == k.idx.pending_waitpoint_expiry_spec(),
        r.keys_spec()[11] == k.idx.lane_active_spec(k.lane_id@),
        r.keys_spec()[12] == k.idx.lane_suspended_spec(k.lane_id@),
        r.keys_spec()[13] == k.ctx.waitpoints_spec(),
        r.keys_spec()[14] == k.ctx.waitpoint_condition_spec(args.waitpoint_id@),
        r.keys_spec()[15] == k.idx.attempt_timeout_spec(),
        r.keys_spec()[16] == k.idx.waitpoint_hmac_secrets_spec(),
        r.argv_spec().len() == 17,
        r.argv_spec()[0] == args.execution_id@,
        r.argv_spec()[1] == numbers::decimal(args.attempt_index.0 as int),
        args.fence matches Some(f) ==> r.argv_spec()[2] == f.attempt_id@,
        args.fence is None ==> r.argv_spec()[2].len() == 0,
        args.fence matches Some(f) ==> r.argv_spec()[3] == f.lease_id@,
        args.fence is None ==> r.argv_spec()[3].len() == 0,
        args.fence matches Some(f) ==> r.argv_spec()[4] == numbers::decimal(f.lease_epoch.0 as int),
        args.fence is None ==> r.argv_spec()[4].len() == 0,
        r.argv_spec()[5] == args.suspension_id@,
        r.argv_spec()[6] == args.waitpoint_id@,
        r.argv_spec()[7] == args.waitpoint_key@,
        r.argv_spec()[8] == args.reason_code@,
        r.argv_spec()[9] == args.requested_by@,
        args.timeout_at matches Some(t) ==> r.argv_spec()[10] == numbers::decimal(t.0 as int),
        args.timeout_at is None ==> r.argv_spec()[10].len() == 0,
        r.argv_spec()[11] == args.resume_condition_json@,
        r.argv_spec()[12] == args.resume_policy_json@,
        args.continuation_metadata_pointer matches Some(s) ==> r.argv_spec()[13] == s@,
        args.continuation_metadata_pointer is None ==> r.argv_spec()[13].len() == 0,
        args.use_pending_waitpoint ==> r.argv_spec()[14] == "1"@,
        !args.use_pending_waitpoint ==> r.argv_spec()[14].len() == 0,
        r.argv_spec()[15] == args.timeout_behavior@,
        r.argv_spec()[16] == "1000"@,
{
    reveal_strlit("");
}

/// A resumption tells the server, place by place, what was asked for.
pub proof fn law_resume_execution_call(k: &ResumeOpKeys<'_>, args: &ResumeExecutionArgs, r: Call)
    requires
        call_ensures(ff_resume_execution, (k, args), r),
    ensures
        r.function == "ff_resume_execution",
        r.keys_spec().len() == 8,
        r.keys_spec()[0] == k.ctx.core_key_spec(),
        r.keys_spec()[1] == k.ctx.suspension_current_spec(),
        r.keys_spec()[2] == k.ctx.waitpoint_spec(k.waitpoint_id@),
        r.keys_spec()[3] == k.ctx.waitpoint_signals_spec(k.waitpoint_id@),
        r.keys_spec()[4] == k.idx.suspension_timeout_spec(),
        r.keys_spec()[5] == k.idx.lane_eligible_spec(k.lane_id@),
        r.keys_spec()[6] == k.idx.lane_delayed_spec(k.lane_id@),
        r.keys_spec()[7] == k.idx.lane_suspended_spec(k.lane_id@),
        r.argv_spec().len() == 3,
        r.argv_spec()[0] == args.execution_id@,
        r.argv_spec()[1] == args.trigger_type@,
        r.argv_spec()[2] == numbers::decimal(args.resume_delay_ms as int),
{
}

/// A creation of a waitpoint tells the server, place by place, what was asked for.
pub proof fn law_create_pending_waitpoint_call(k: &WaitpointOpKeys<'_>, args: &CreatePendingWaitpointArgs, now: TimestampMs, r: Call)
    requires
        call_ensures(ff_create_pending_waitpoint, (k, args, now), r),
    ensures
        r.function == "ff_create_pending_waitpoint",
        r.keys_spec().len() == 3,
        r.keys_spec()[0] == k.ctx.core_key_spec(),
        r.keys_spec()[1] == k.ctx.waitpoint_spec(args.waitpoint_id@),
        r.keys_spec()[2] == k.idx.pending_waitpoint_expiry_spec(),
        r.argv_spec().len() == 5,
        r.argv_spec()[0] == args.execution_id@,
        r.argv_spec()[1] == numbers::decimal(args.attempt_index.0 as int),
        r.argv_spec()[2] == args.waitpoint_id@,
        r.argv_spec()[3] == args.waitpoint_key@,
        r.argv_spec()[4] == numbers::decimal(now.0 + numbers::signed(args.expires_in_ms)),
{
}

/// An expiry of a suspension tells the server, place by place, what was asked for.
pub proof fn law_expire_suspension_call(k: &ExpireSuspensionOpKeys<'_>, args: &ExpireSuspensionArgs, r: Call)
    requires
        call_ensures(ff_expire_suspension, (k, args), r),
    ensures
        r.function == "ff_expire_suspension",
        r.keys_spec().len() == 12,
        r.keys_spec()[0] == k.ctx.core_key_spec(),
        r.keys_spec()[1] == k.ctx.suspension_current_spec(),
        r.keys_spec()[2] == k.ctx.waitpoint_spec(k.waitpoint_id@),
        r.keys_spec()[3] == k.ctx.waitpoint_condition_spec(k.waitpoint_id@),
        r.keys_spec()[4] == k.ctx.attempt_hash_spec(k.attempt_index),
        r.keys_spec()[5] == k.ctx.stream_meta_spec(k.attempt_index),
        r.keys_spec()[6] == k.idx.suspension_timeout_spec(),
        r.keys_spec()[7] == k.idx.lane_suspended_spec(k.lane_id@),
        r.keys_spec()[8] == k.idx.lane_terminal_spec(k.lane_id@),
        r.keys_spec()[9] == k.idx.lane_eligible_spec(k.lane_id@),
        r.keys_spec()[10] == k.idx.lane_delayed_spec(k.lane_id@),
        r.keys_spec()[11] == k.ctx.lease_history_spec(),
        r.argv_spec().len() == 1,
        r.argv_spec()[0] == args.execution_id@,
{
}

/// A closing of a waitpoint tells the server, place by place, what was asked for.
pub proof fn law_close_waitpoint_call(k: &WaitpointOpKeys<'_>, args: &CloseWaitpointArgs, r: Call)
    requires
        call_ensures(ff_close_waitpoint, (k, args), r),
    ensures
        r.function == "ff_close_waitpoint",
        r.keys_spec().len() == 3,
        r.keys_spec()[0] == k.ctx.core_key_spec(),
        r.keys_spec()[1] == k.ctx.waitpoint_spec(args.waitpoint_id@),
        r.keys_spec()[2] == k.idx.pending_waitpoint_expiry_spec(),
        r.argv_spec().len() == 2,
        r.argv_spec()[0] == args.waitpoint_id@,
        r.argv_spec()[1] == args.reason@,
{
}

/// A rotation of a secret tells the server, place by place, what was asked for.
pub proof fn law_rotate_waitpoint_hmac_secret_call(k: &IndexKeys, args: &RotateWaitpointHmacSecretArgs, r: Call)
    requires
        call_ensures(ff_rotate_waitpoint_hmac_secret, (k, args), r),
    ensures
        r.function == "ff_rotate_waitpoint_hmac_secret",
        r.keys_spec().len() == 1,
        r.keys_spec()[0] == k.waitpoint_hmac_secrets_spec(),
        r.argv_spec().len() == 3,
        r.argv_spec()[0] == args.new_kid@,
        r.argv_spec()[1] == args.new_secret_hex@,
        r.argv_spec()[2] == numbers::decimal(args.grace_ms as int),
{
}

/// A list of secrets tells the server, place by place, what was asked for.
pub proof fn law_list_waitpoint_hmac_kids_call(k: &IndexKeys, r: Call)
    requires
        call_ensures(ff_list_waitpoint_hmac_kids, (k,), r),
    ensures
        r.function == "ff_list_waitpoint_hmac_kids",
        r.keys_spec().len() == 1,
        r.keys_spec()[0] == k.waitpoint_hmac_secrets_spec(),
        r.argv_spec().len() == 0,
{
}

} // verus!
