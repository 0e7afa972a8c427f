//! Where a server finds what was asked for: calls of the execution lifecycle.

use vstd::prelude::*;
use vstd::string::*;

use crate::field_map::FieldMap;
use crate::field_map;
use crate::functions::execution::ff_set_execution_tags;
use crate::functions::execution::{CancelExecutionArgs, ClaimExecutionArgs, CompleteExecutionArgs, CreateExecutionArgs, DelayExecutionArgs, ExecOpKeys, ExpireExecutionArgs, FailExecutionArgs, MoveToWaitingChildrenArgs, ff_cancel_execution, ff_claim_execution, ff_complete_execution, ff_create_execution, ff_delay_execution, ff_expire_execution, ff_fail_execution, ff_move_to_waiting_children};
use crate::ids::AttemptIndex;
use crate::json;
use crate::keys::ExecKeyContext;
use crate::keys;
use crate::numbers;
use crate::text;
use crate::wire::Call;
use crate::wire::CancelSource;

verus! {

/// A creation of an execution tells the server, place by place, what was asked for.
pub proof fn law_create_execution_call(k: &ExecOpKeys<'_>, args: &CreateExecutionArgs, r: Call)
    requires
        call_ensures(ff_create_execution, (k, args), r),
    ensures
        r.function == "ff_create_execution",
        r.keys_spec().len() == 8,
        r.keys_spec()[0] == k.ctx.core_key_spec(),
        r.keys_spec()[1] == k.ctx.payload_spec(),
        r.keys_spec()[2] == k.ctx.policy_spec(),
        r.keys_spec()[3] == k.ctx.tags_spec(),
        args.delay_until is Some ==> r.keys_spec()[4] == k.idx.lane_delayed_spec(k.lane_id@),
        args.delay_until is None ==> r.keys_spec()[4] == k.idx.lane_eligible_spec(k.lane_id@),
        (args.idempotency_key matches Some(s) && s@.len() > 0) ==> r.keys_spec()[5] == keys::idempotency_key_spec(k.ctx.tag_spec(), args.namespace@, args.idempotency_key->0@),
        !(args.idempotency_key matches Some(s) && s@.len() > 0) ==> r.keys_spec()[5] == k.ctx.noop_spec(),
        r.keys_spec()[6] == k.idx.execution_deadline_spec(),
        r.keys_spec()[7] == k.idx.all_executions_spec(),
        r.argv_spec().len() == 13,
        r.argv_spec()[0] == args.execution_id@,
        r.argv_spec()[1] == args.namespace@,
        r.argv_spec()[2] == args.lane_id@,
        r.argv_spec()[3] == args.execution_kind@,
        r.argv_spec()[4] == numbers::decimal(args.priority as int),
        r.argv_spec()[5] == args.creator_identity@,
        args.policy_json matches Some(s) ==> r.argv_spec()[6] == s@,
        args.policy_json is None ==> r.argv_spec()[6] == "{}"@,
        r.argv_spec()[7] == text::lossy_text(args.input_payload@),
        args.delay_until matches Some(t) ==> r.argv_spec()[8] == numbers::decimal(t.0 as int),
        args.delay_until is None ==> r.argv_spec()[8].len() == 0,
        args.idempotency_key is Some ==> r.argv_spec()[9] == "86400000"@,
        args.idempotency_key is None ==> r.argv_spec()[9].len() == 0,
        r.argv_spec()[10] == json::object_text(args.tags.pairs()),
        args.execution_deadline_at matches Some(t) ==> r.argv_spec()[11] == numbers::decimal(t.0 as int),
        args.execution_deadline_at is None ==> r.argv_spec()[11].len() == 0,
        r.argv_spec()[12] == numbers::decimal(args.partition_id as int),
{
}

/// A claim tells the server, place by place, what was asked for.
pub proof fn law_claim_execution_call(k: &ExecOpKeys<'_>, args: &ClaimExecutionArgs, r: Call)
    requires
        call_ensures(ff_claim_execution, (k, args), r),
    ensures
        r.function == "ff_claim_execution",
        r.keys_spec().len() == 14,
        r.keys_spec()[0] == k.ctx.core_key_spec(),
        r.keys_spec()[1] == k.ctx.claim_grant_spec(),
        r.keys_spec()[2] == k.idx.lane_eligible_spec(k.lane_id@),
        r.keys_spec()[3] == k.idx.lease_expiry_spec(),
        r.keys_spec()[4] == k.idx.worker_leases_spec(k.worker_instance_id@),
        r.keys_spec()[5] == k.ctx.attempt_hash_spec(args.expected_attempt_index),
        r.keys_spec()[6] == k.ctx.attempt_usage_spec(args.expected_attempt_index),
        r.keys_spec()[7] == k.ctx.attempt_policy_spec(args.expected_attempt_index),
        r.keys_spec()[8] == k.ctx.attempts_spec(),
        r.keys_spec()[9] == k.ctx.lease_current_spec(),
        r.keys_spec()[10] == k.ctx.lease_history_spec(),
        r.keys_spec()[11] == k.idx.lane_active_spec(k.lane_id@),
        r.keys_spec()[12] == k.idx.attempt_timeout_spec(),
        r.keys_spec()[13] == k.idx.execution_deadline_spec(),
        r.argv_spec().len() == 12,
        r.argv_spec()[0] == args.execution_id@,
        r.argv_spec()[1] == args.worker_id@,
        r.argv_spec()[2] == args.worker_instance_id@,
        r.argv_spec()[3] == args.lane_id@,
        r.argv_spec()[4].len() == 0,
        r.argv_spec()[5] == args.lease_id@,
        r.argv_spec()[6] == numbers::decimal(args.lease_ttl_ms as int),
        exists|n: int| r.argv_spec()[7] == #[trigger] numbers::decimal(n) && 3 * n <= 2 * args.lease_ttl_ms < 3 * (n + 1),
        r.argv_spec()[8] == args.attempt_id@,
        r.argv_spec()[9] == args.attempt_policy_json@,
        args.attempt_timeout_ms matches Some(n) ==> r.argv_spec()[10] == numbers::decimal(n as int),
        args.attempt_timeout_ms is None ==> r.argv_spec()[10].len() == 0,
        args.execution_deadline_at matches Some(n) ==> r.argv_spec()[11] == numbers::decimal(n as int),
        args.execution_deadline_at is None ==> r.argv_spec()[11].len() == 0,
{
    assert(r.argv_spec()[7] == numbers::decimal(args.lease_ttl_ms * 2 / 3));
}

/// A completion tells the server, place by place, what was asked for.
pub proof fn law_complete_execution_call(k: &ExecOpKeys<'_>, args: &CompleteExecutionArgs, r: Call)
    requires
        call_ensures(ff_complete_execution, (k, args), r),
    ensures
        r.function == "ff_complete_execution",
        r.keys_spec().len() == 12,
        r.keys_spec()[0] == k.ctx.core_key_spec(),
        r.keys_spec()[1] == k.ctx.attempt_hash_spec(args.attempt_index),
        r.keys_spec()[2] == k.idx.lease_expiry_spec(),
        r.keys_spec()[3] == k.idx.worker_leases_spec(k.worker_instance_id@),
        r.keys_spec()[4] == k.idx.lane_terminal_spec(k.lane_id@),
        r.keys_spec()[5] == k.ctx.lease_current_spec(),
        r.keys_spec()[6] == k.ctx.lease_history_spec(),
        r.keys_spec()[7] == k.idx.lane_active_spec(k.lane_id@),
        r.keys_spec()[8] == k.ctx.stream_meta_spec(args.attempt_index),
        r.keys_spec()[9] == k.ctx.result_spec(),
        r.keys_spec()[10] == k.idx.attempt_timeout_spec(),
        r.keys_spec()[11] == k.idx.execution_deadline_spec(),
        r.argv_spec().len() == 6,
        r.argv_spec()[0] == args.execution_id@,
        args.fence matches Some(f) ==> r.argv_spec()[1] == f.lease_id@,
        args.fence is None ==> r.argv_spec()[1].len() == 0,
        args.fence matches Some(f) ==> r.argv_spec()[2] == numbers::decimal(f.lease_epoch.0 as int),
        args.fence is None ==> r.argv_spec()[2].len() == 0,
        args.fence matches Some(f) ==> r.argv_spec()[3] == f.attempt_id@,
        args.fence is None ==> r.argv_spec()[3].len() == 0,
        args.result_payload matches Some(b) ==> r.argv_spec()[4] == text::lossy_text(b@),
        args.result_payload is None ==> r.argv_spec()[4].len() == 0,
        r.argv_spec()[5] == args.source.text_spec(),
{
}

/// A cancellation tells the server, place by place, what was asked for.
pub proof fn law_cancel_execution_call(k: &ExecOpKeys<'_>, args: &CancelExecutionArgs, r: Call)
    requires
        call_ensures(ff_cancel_execution, (k, args), r),
    ensures
        r.function == "ff_cancel_execution",
        r.keys_spec().len() == 21,
        r.keys_spec()[0] == k.ctx.core_key_spec(),
        r.keys_spec()[1] == k.ctx.attempt_hash_spec(AttemptIndex(0)),
        r.keys_spec()[2] == k.ctx.stream_meta_spec(AttemptIndex(0)),
        r.keys_spec()[3] == k.ctx.lease_current_spec(),
        r.keys_spec()[4] == k.ctx.lease_history_spec(),
        r.keys_spec()[5] == k.idx.lease_expiry_spec(),
        r.keys_spec()[6] == k.idx.worker_leases_spec(k.worker_instance_id@),
        r.keys_spec()[7] == k.ctx.suspension_current_spec(),
        r.keys_spec()[8] == k.ctx.suspension_current_spec(),
        r.keys_spec()[9] == k.ctx.suspension_current_spec(),
        r.keys_spec()[10] == k.idx.suspension_timeout_spec(),
        r.keys_spec()[11] == k.idx.lane_terminal_spec(k.lane_id@),
        r.keys_spec()[12] == k.idx.attempt_timeout_spec(),
        r.keys_spec()[13] == k.idx.execution_deadline_spec(),
        r.keys_spec()[14] == k.idx.lane_eligible_spec(k.lane_id@),
        r.keys_spec()[15] == k.idx.lane_delayed_spec(k.lane_id@),
        r.keys_spec()[16] == k.idx.lane_blocked_dependencies_spec(k.lane_id@),
        r.keys_spec()[17] == k.idx.lane_blocked_budget_spec(k.lane_id@),
        r.keys_spec()[18] == k.idx.lane_blocked_quota_spec(k.lane_id@),
        r.keys_spec()[19] == k.idx.lane_blocked_route_spec(k.lane_id@),
        r.keys_spec()[20] == k.idx.lane_blocked_operator_spec(k.lane_id@),
        r.argv_spec().len() == 5,
        r.argv_spec()[0] == args.execution_id@,
        r.argv_spec()[1] == args.reason@,
        r.argv_spec()[2] == args.source.text_spec(),
        args.lease_id matches Some(id) ==> r.argv_spec()[3] == id@,
        args.lease_id is None ==> r.argv_spec()[3].len() == 0,
        args.lease_epoch matches Some(t) ==> r.argv_spec()[4] == numbers::decimal(t.0 as int),
        args.lease_epoch is None ==> r.argv_spec()[4].len() == 0,
{
}

/// A delay tells the server, place by place, what was asked for.
pub proof fn law_delay_execution_call(k: &ExecOpKeys<'_>, args: &DelayExecutionArgs, r: Call)
    requires
        call_ensures(ff_delay_execution, (k, args), r),
    ensures
        r.function == "ff_delay_execution",
        r.keys_spec().len() == 9,
        r.keys_spec()[0] == k.ctx.core_key_spec(),
        r.keys_spec()[1] == k.ctx.attempt_hash_spec(args.attempt_index),
        r.keys_spec()[2] == k.ctx.lease_current_spec(),
        r.keys_spec()[3] == k.ctx.lease_history_spec(),
        r.keys_spec()[4] == k.idx.lease_expiry_spec(),
        r.keys_spec()[5] == k.idx.worker_leases_spec(k.worker_instance_id@),
        r.keys_spec()[6] == k.idx.lane_active_spec(k.lane_id@),
        r.keys_spec()[7] == k.idx.lane_delayed_spec(k.lane_id@),
        r.keys_spec()[8] == k.idx.attempt_timeout_spec(),
        r.argv_spec().len() == 6,
        r.argv_spec()[0] == args.execution_id@,
        args.fence matches Some(f) ==> r.argv_spec()[1] == f.lease_id@,
        args.fence is None ==> r.argv_spec()[1].len() == 0,
        args.fence matches Some(f) ==> r.argv_spec()[2] == numbers::decimal(f.lease_epoch.0 as int),
        args.fence is None ==> r.argv_spec()[2].len() == 0,
        args.fence matches Some(f) ==> r.argv_spec()[3] == f.attempt_id@,
        args.fence is None ==> r.argv_spec()[3].len() == 0,
        r.argv_spec()[4] == numbers::decimal(args.delay_until.0 as int),
        r.argv_spec()[5] == args.source.text_spec(),
{
}

/// A wait for children tells the server, place by place, what was asked for.
pub proof fn law_move_to_waiting_children_call(k: &ExecOpKeys<'_>, args: &MoveToWaitingChildrenArgs, r: Call)
    requires
        call_ensures(ff_move_to_waiting_children, (k, args), r),
    ensures
        r.function == "ff_move_to_waiting_children",
        r.keys_spec().len() == 9,
        r.keys_spec()[0] == k.ctx.core_key_spec(),
        r.keys_spec()[1] == k.ctx.attempt_hash_spec(args.attempt_index),
        r.keys_spec()[2] == k.ctx.lease_current_spec(),
        r.keys_spec()[3] == k.ctx.lease_history_spec(),
        r.keys_spec()[4] == k.idx.lease_expiry_spec(),
        r.keys_spec()[5] == k.idx.worker_leases_spec(k.worker_instance_id@),
        r.keys_spec()[6] == k.idx.lane_active_spec(k.lane_id@),
        r.keys_spec()[7] == k.idx.lane_blocked_dependencies_spec(k.lane_id@),
        r.keys_spec()[8] == k.idx.attempt_timeout_spec(),
        r.argv_spec().len() == 5,
        r.argv_spec()[0] == args.execution_id@,
        args.fence matches Some(f) ==> r.argv_spec()[1] == f.lease_id@,
        args.fence is None ==> r.argv_spec()[1].len() == 0,
        args.fence matches Some(f) ==> r.argv_spec()[2] == numbers::decimal(f.lease_epoch.0 as int),
        args.fence is None ==> r.argv_spec()[2].len() == 0,
        args.fence matches Some(f) ==> r.argv_spec()[3] == f.attempt_id@,
        args.fence is None ==> r.argv_spec()[3].len() == 0,
        r.argv_spec()[4] == args.source.text_spec(),
{
}

/// A failure tells the server, place by place, what was asked for.
pub proof fn law_fail_execution_call(k: &ExecOpKeys<'_>, args: &FailExecutionArgs, r: Call)
    requires
        call_ensures(ff_fail_execution, (k, args), r),
    ensures
        r.function == "ff_fail_execution",
        r.keys_spec().len() == 12,
        r.keys_spec()[0] == k.ctx.core_key_spec(),
        r.keys_spec()[1] == k.ctx.attempt_hash_spec(args.attempt_index),
        r.keys_spec()[2] == k.idx.lease_expiry_spec(),
        r.keys_spec()[3] == k.idx.worker_leases_spec(k.worker_instance_id@),
        r.keys_spec()[4] == k.idx.lane_terminal_spec(k.lane_id@),
        r.keys_spec()[5] == k.idx.lane_delayed_spec(k.lane_id@),
        r.keys_spec()[6] == k.ctx.lease_current_spec(),
        r.keys_spec()[7] == k.ctx.lease_history_spec(),
        r.keys_spec()[8] == k.idx.lane_active_spec(k.lane_id@),
        r.keys_spec()[9] == k.ctx.stream_meta_spec(args.attempt_index),
        r.keys_spec()[10] == k.idx.attempt_timeout_spec(),
        r.keys_spec()[11] == k.idx.execution_deadline_spec(),
        r.argv_spec().len() == 8,
        r.argv_spec()[0] == args.execution_id@,
        args.fence matches Some(f) ==> r.argv_spec()[1] == f.lease_id@,
        args.fence is None ==> r.argv_spec()[1].len() == 0,
        args.fence matches Some(f) ==> r.argv_spec()[2] == numbers::decimal(f.lease_epoch.0 as int),
        args.fence is None ==> r.argv_spec()[2].len() == 0,
        args.fence matches Some(f) ==> r.argv_spec()[3] == f.attempt_id@,
        args.fence is None ==> r.argv_spec()[3].len() == 0,
        r.argv_spec()[4] == args.failure_reason@,
        r.argv_spec()[5] == args.failure_category@,
        r.argv_spec()[6] == args.retry_policy_json@,
        r.argv_spec()[7] == args.source.text_spec(),
{
}

/// An expiry tells the server, place by place, what was asked for.
pub proof fn law_expire_execution_call(k: &ExecOpKeys<'_>, args: &ExpireExecutionArgs, r: Call)
    requires
        call_ensures(ff_expire_execution, (k, args), r),
    ensures
        r.function == "ff_expire_execution",
        r.keys_spec().len() == 14,
        r.keys_spec()[0] == k.ctx.core_key_spec(),
        r.keys_spec()[1] == k.ctx.attempt_hash_spec(AttemptIndex(0)),
        r.keys_spec()[2] == k.ctx.stream_meta_spec(AttemptIndex(0)),
        r.keys_spec()[3] == k.ctx.lease_current_spec(),
        r.keys_spec()[4] == k.ctx.lease_history_spec(),
        r.keys_spec()[5] == k.idx.lease_expiry_spec(),
        r.keys_spec()[6] == k.idx.worker_leases_spec(k.worker_instance_id@),
        r.keys_spec()[7] == k.idx.lane_active_spec(k.lane_id@),
        r.keys_spec()[8] == k.idx.lane_terminal_spec(k.lane_id@),
        r.keys_spec()[9] == k.idx.attempt_timeout_spec(),
        r.keys_spec()[10] == k.idx.execution_deadline_spec(),
        r.keys_spec()[11] == k.idx.lane_suspended_spec(k.lane_id@),
        r.keys_spec()[12] == k.idx.suspension_timeout_spec(),
        r.keys_spec()[13] == k.ctx.suspension_current_spec(),
        r.argv_spec().len() == 2,
        r.argv_spec()[0] == args.execution_id@,
        r.argv_spec()[1] == args.expire_reason@,
{
}

/// Every tag is sent, its key before its value, in the order of the keys, and nothing
/// else.
pub proof fn law_set_execution_tags_call(ctx: &ExecKeyContext, tags: &FieldMap, r: Call)
    requires
        call_ensures(ff_set_execution_tags, (ctx, tags), r),
    ensures
        r.function == "ff_set_execution_tags",
        r.keys_spec().len() == 2,
        r.keys_spec()[0] == ctx.core_key_spec(),
        r.keys_spec()[1] == ctx.tags_spec(),
        r.argv_spec().len() == 2 * tags.pairs().len(),
        forall|i: int|
            0 <= i < tags.pairs().len() ==> r.argv_spec()[2 * i] == (#[trigger] tags.pairs()[i]).0
                && r.argv_spec()[2 * i + 1] == tags.pairs()[i].1,
        field_map::ascending(tags.pairs()),
{
}

/// Who asks for an operation has a word of its own, but for one that brings its word.
pub proof fn law_source_words(source: CancelSource)
    ensures
        source is OperatorOverride ==> source.text_spec() == "operator_override"@,
        source is LeaseHolder ==> source.text_spec() == "lease_holder"@,
        source is FlowCascade ==> source.text_spec() == "flow_cascade"@,
        source is SystemTimeout ==> source.text_spec() == "system_timeout"@,
        source matches CancelSource::Custom(s) ==> source.text_spec() == s@,
{
}

/// Claims that send the same arguments claim the same execution for the same worker under
/// the same lease and attempt.
pub proof fn law_claims_are_told_apart(
    k: &ExecOpKeys<'_>,
    a: &ClaimExecutionArgs,
    b: &ClaimExecutionArgs,
    r: Call,
    s: Call,
)
    requires
        call_ensures(ff_claim_execution, (k, a), r),
        call_ensures(ff_claim_execution, (k, b), s),
        r.argv_spec() == s.argv_spec(),
    ensures
        a.execution_id@ == b.execution_id@,
        a.worker_id@ == b.worker_id@,
        a.worker_instance_id@ == b.worker_instance_id@,
        a.lane_id@ == b.lane_id@,
        a.lease_id@ == b.lease_id@,
        a.lease_ttl_ms == b.lease_ttl_ms,
        a.attempt_id@ == b.attempt_id@,
        a.attempt_policy_json@ == b.attempt_policy_json@,
{
    law_claim_execution_call(k, a, r);
    law_claim_execution_call(k, b, s);
    numbers::law_u64_round_trip(a.lease_ttl_ms);
    numbers::law_u64_round_trip(b.lease_ttl_ms);
}

} // verus!
