//! Where a server finds what was asked for: calls of signals.

use vstd::prelude::*;
use vstd::string::*;

use crate::functions::execution::ExecOpKeys;
use crate::functions::signal::{BufferSignalArgs, ClaimResumedExecutionArgs, DeliverSignalArgs, SignalOpKeys, ff_buffer_signal_for_pending_waitpoint, ff_claim_resumed_execution, ff_deliver_signal};
use crate::numbers;
use crate::text;
use crate::wire::Call;

verus! {

/// A delivery of a signal tells the server, place by place, what was asked for.
pub proof fn law_deliver_signal_call(k: &SignalOpKeys<'_>, args: &DeliverSignalArgs, r: Call)
    requires
        call_ensures(ff_deliver_signal, (k, args), r),
    ensures
        r.function == "ff_deliver_signal",
        r.keys_spec().len() == 13,
        r.keys_spec()[0] == k.ctx.core_key_spec(),
        r.keys_spec()[1] == k.ctx.waitpoint_condition_spec(args.waitpoint_id@),
        r.keys_spec()[2] == k.ctx.waitpoint_signals_spec(args.waitpoint_id@),
        r.keys_spec()[3] == k.ctx.exec_signals_spec(),
        r.keys_spec()[4] == k.ctx.signal_spec(args.signal_id@),
        r.keys_spec()[5] == k.ctx.signal_payload_spec(args.signal_id@),
        (args.idempotency_key matches Some(s) && s@.len() > 0) ==> r.keys_spec()[6] == k.ctx.signal_dedup_spec(args.waitpoint_id@, args.idempotency_key->0@),
        !(args.idempotency_key matches Some(s) && s@.len() > 0) ==> r.keys_spec()[6] == k.ctx.noop_spec(),
        r.keys_spec()[7] == k.ctx.waitpoint_spec(args.waitpoint_id@),
        r.keys_spec()[8] == k.ctx.suspension_current_spec(),
        r.keys_spec()[9] == k.idx.lane_eligible_spec(k.lane_id@),
        r.keys_spec()[10] == k.idx.lane_suspended_spec(k.lane_id@),
        r.keys_spec()[11] == k.idx.lane_delayed_spec(k.lane_id@),
        r.keys_spec()[12] == k.idx.suspension_timeout_spec(),
        r.argv_spec().len() == 17,
        r.argv_spec()[0] == args.signal_id@,
        r.argv_spec()[1] == args.execution_id@,
        r.argv_spec()[2] == args.waitpoint_id@,
        r.argv_spec()[3] == args.signal_name@,
        r.argv_spec()[4] == args.signal_category@,
        r.argv_spec()[5] == args.source_type@,
        r.argv_spec()[6] == args.source_identity@,
        args.payload matches Some(b) ==> r.argv_spec()[7] == text::lossy_text(b@),
        args.payload is None ==> r.argv_spec()[7].len() == 0,
        args.payload_encoding matches Some(s) ==> r.argv_spec()[8] == s@,
        args.payload_encoding is None ==> r.argv_spec()[8] == "json"@,
        args.idempotency_key matches Some(s) ==> r.argv_spec()[9] == s@,
        args.idempotency_key is None ==> r.argv_spec()[9].len() == 0,
        args.correlation_id matches Some(s) ==> r.argv_spec()[10] == s@,
        args.correlation_id is None ==> r.argv_spec()[10].len() == 0,
        r.argv_spec()[11] == args.target_scope@,
        args.created_at matches Some(t) ==> r.argv_spec()[12] == numbers::decimal(t.0 as int),
        args.created_at is None ==> r.argv_spec()[12].len() == 0,
        args.dedup_ttl_ms matches Some(n) ==> r.argv_spec()[13] == numbers::decimal(n as int),
        args.dedup_ttl_ms is None ==> r.argv_spec()[13] == numbers::decimal(86_400_000),
        args.resume_delay_ms matches Some(n) ==> r.argv_spec()[14] == numbers::decimal(n as int),
        args.resume_delay_ms is None ==> r.argv_spec()[14] == numbers::decimal(0),
        args.signal_maxlen matches Some(n) ==> r.argv_spec()[15] == numbers::decimal(n as int),
        args.signal_maxlen is None ==> r.argv_spec()[15] == numbers::decimal(1000),
        args.max_signals_per_execution matches Some(n) ==> r.argv_spec()[16] == numbers::decimal(n as int),
        args.max_signals_per_execution is None ==> r.argv_spec()[16] == numbers::decimal(10_000),
{
    reveal_strlit("");
}

/// A buffered signal tells the server, place by place, what was asked for.
pub proof fn law_buffer_signal_for_pending_waitpoint_call(k: &SignalOpKeys<'_>, args: &BufferSignalArgs, r: Call)
    requires
        call_ensures(ff_buffer_signal_for_pending_waitpoint, (k, args), r),
    ensures
        r.function == "ff_buffer_signal_for_pending_waitpoint",
        r.keys_spec().len() == 7,
        r.keys_spec()[0] == k.ctx.core_key_spec(),
        r.keys_spec()[1] == k.ctx.waitpoint_condition_spec(args.waitpoint_id@),
        r.keys_spec()[2] == k.ctx.waitpoint_signals_spec(args.waitpoint_id@),
        r.keys_spec()[3] == k.ctx.exec_signals_spec(),
        r.keys_spec()[4] == k.ctx.signal_spec(args.signal_id@),
        r.keys_spec()[5] == k.ctx.signal_payload_spec(args.signal_id@),
        (args.idempotency_key matches Some(s) && s@.len() > 0) ==> r.keys_spec()[6] == k.ctx.signal_dedup_spec(args.waitpoint_id@, args.idempotency_key->0@),
        !(args.idempotency_key matches Some(s) && s@.len() > 0) ==> r.keys_spec()[6] == k.ctx.noop_spec(),
        r.argv_spec().len() == 17,
        r.argv_spec()[0] == args.signal_id@,
        r.argv_spec()[1] == args.execution_id@,
        r.argv_spec()[2] == args.waitpoint_id@,
        r.argv_spec()[3] == args.signal_name@,
        r.argv_spec()[4] == args.signal_category@,
        r.argv_spec()[5] == args.source_type@,
        r.argv_spec()[6] == args.source_identity@,
        args.payload matches Some(b) ==> r.argv_spec()[7] == text::lossy_text(b@),
        args.payload is None ==> r.argv_spec()[7].len() == 0,
        args.payload_encoding matches Some(s) ==> r.argv_spec()[8] == s@,
        args.payload_encoding is None ==> r.argv_spec()[8] == "json"@,
        args.idempotency_key matches Some(s) ==> r.argv_spec()[9] == s@,
        args.idempotency_key is None ==> r.argv_spec()[9].len() == 0,
        r.argv_spec()[10].len() == 0,
        r.argv_spec()[11] == args.target_scope@,
        r.argv_spec()[12].len() == 0,
        r.argv_spec()[13].len() == 0,
        r.argv_spec()[14].len() == 0,
        r.argv_spec()[15].len() == 0,
        r.argv_spec()[16].len() == 0,
{
    reveal_strlit("");
}

/// A claim of a resumed execution tells the server, place by place, what was asked for.
pub proof fn law_claim_resumed_execution_call(k: &ExecOpKeys<'_>, args: &ClaimResumedExecutionArgs, r: Call)
    requires
        call_ensures(ff_claim_resumed_execution, (k, args), r),
    ensures
        r.function == "ff_claim_resumed_execution",
        r.keys_spec().len() == 11,
        r.keys_spec()[0] == k.ctx.core_key_spec(),
        r.keys_spec()[1] == k.ctx.claim_grant_spec(),
        r.keys_spec()[2] == k.idx.lane_eligible_spec(k.lane_id@),
        r.keys_spec()[3] == k.idx.lease_expiry_spec(),
        r.keys_spec()[4] == k.idx.worker_leases_spec(k.worker_instance_id@),
        r.keys_spec()[5] == k.ctx.attempt_hash_spec(args.current_attempt_index),
        r.keys_spec()[6] == k.ctx.lease_current_spec(),
        r.keys_spec()[7] == k.ctx.lease_history_spec(),
        r.keys_spec()[8] == k.idx.lane_active_spec(k.lane_id@),
        r.keys_spec()[9] == k.idx.attempt_timeout_spec(),
        r.keys_spec()[10] == k.idx.execution_deadline_spec(),
        r.argv_spec().len() == 8,
        r.argv_spec()[0] == args.execution_id@,
        r.argv_spec()[1] == args.worker_id@,
        r.argv_spec()[2] == args.worker_instance_id@,
        r.argv_spec()[3] == args.lane_id@,
        r.argv_spec()[4].len() == 0,
        r.argv_spec()[5] == args.lease_id@,
        r.argv_spec()[6] == numbers::decimal(args.lease_ttl_ms as int),
        args.remaining_attempt_timeout_ms matches Some(n) ==> r.argv_spec()[7] == numbers::decimal(n as int),
        args.remaining_attempt_timeout_ms is None ==> r.argv_spec()[7].len() == 0,
{
}

} // verus!
