//! Where a server finds what was asked for: calls of budgets.

use vstd::prelude::*;
use vstd::string::*;

use crate::functions::budget::{BlockExecutionArgs, BlockOpKeys, BudgetOpKeys, ResetBudgetArgs, UnblockExecutionArgs, ff_block_execution_for_admission, ff_reset_budget, ff_unblock_execution};
use crate::numbers;
use crate::wire::Call;

verus! {

/// A call to block an execution tells the server, place by place, what was asked for.
pub proof fn law_block_execution_for_admission_call(k: &BlockOpKeys<'_>, args: &BlockExecutionArgs, r: Call)
    requires
        call_ensures(ff_block_execution_for_admission, (k, args), r),
    ensures
        r.function == "ff_block_execution_for_admission",
        r.keys_spec().len() == 3,
        r.keys_spec()[0] == k.ctx.core_key_spec(),
        r.keys_spec()[1] == k.idx.lane_eligible_spec(k.lane_id@),
        args.blocking_reason@ == "waiting_for_quota"@ ==> r.keys_spec()[2] == k.idx.lane_blocked_quota_spec(k.lane_id@),
        args.blocking_reason@ != "waiting_for_quota"@ ==> r.keys_spec()[2] == k.idx.lane_blocked_budget_spec(k.lane_id@),
        r.argv_spec().len() == 4,
        r.argv_spec()[0] == args.execution_id@,
        r.argv_spec()[1] == args.blocking_reason@,
        args.blocking_detail matches Some(s) ==> r.argv_spec()[2] == s@,
        args.blocking_detail is None ==> r.argv_spec()[2].len() == 0,
        r.argv_spec()[3] == numbers::decimal(args.now.0 as int),
{
    reveal_strlit("");
    reveal_strlit("waiting_for_quota");
    reveal_strlit("waiting_for_budget");
    assert("waiting_for_quota"@.len() == 17 && "waiting_for_budget"@.len() == 18);
}

/// A call to unblock an execution tells the server, place by place, what was asked for.
pub proof fn law_unblock_execution_call(k: &BlockOpKeys<'_>, args: &UnblockExecutionArgs, r: Call)
    requires
        call_ensures(ff_unblock_execution, (k, args), r),
    ensures
        r.function == "ff_unblock_execution",
        r.keys_spec().len() == 3,
        r.keys_spec()[0] == k.ctx.core_key_spec(),
        (args.expected_blocking_reason matches Some(s) && s@ == "waiting_for_quota"@) ==> r.keys_spec()[1] == k.idx.lane_blocked_quota_spec(k.lane_id@),
        !(args.expected_blocking_reason matches Some(s) && s@ == "waiting_for_quota"@) ==> r.keys_spec()[1] == k.idx.lane_blocked_budget_spec(k.lane_id@),
        r.keys_spec()[2] == k.idx.lane_eligible_spec(k.lane_id@),
        r.argv_spec().len() == 3,
        r.argv_spec()[0] == args.execution_id@,
        r.argv_spec()[1] == numbers::decimal(args.now.0 as int),
        args.expected_blocking_reason matches Some(s) ==> r.argv_spec()[2] == s@,
        args.expected_blocking_reason is None ==> r.argv_spec()[2].len() == 0,
{
    reveal_strlit("");
    reveal_strlit("waiting_for_quota");
    reveal_strlit("waiting_for_budget");
    assert("waiting_for_quota"@.len() == 17 && "waiting_for_budget"@.len() == 18);
}

/// A reset of a budget tells the server, place by place, what was asked for.
pub proof fn law_reset_budget_call(k: &BudgetOpKeys<'_>, resets_zset: &str, args: &ResetBudgetArgs, r: Call)
    requires
        call_ensures(ff_reset_budget, (k, resets_zset, args), r),
    ensures
        r.function == "ff_reset_budget",
        r.keys_spec().len() == 3,
        r.keys_spec()[0] == k.def_key@,
        r.keys_spec()[1] == k.usage_key@,
        r.keys_spec()[2] == resets_zset@,
        r.argv_spec().len() == 2,
        r.argv_spec()[0] == args.budget_id@,
        r.argv_spec()[1] == numbers::decimal(args.now.0 as int),
{
}

} // verus!
