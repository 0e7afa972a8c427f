//! What a server writes is what is read: replies to calls on budgets.

use vstd::prelude::*;
use vstd::string::*;

use crate::error::ScriptError;
use crate::error_laws;
use crate::fields::FromFcallResult;
use crate::functions::budget::{BlockExecutionResult, CreateBudgetResult, ResetBudgetResult, UnblockExecutionResult};
use crate::ids;
use crate::laws::written::{refused, written};
use crate::laws::written;
use crate::numbers;
use crate::reply::ReportUsageResult;
use crate::value::Value;

verus! {

/// A budget that was made is told from one that was there.
pub proof fn law_create_budget_created(raw: &Value, id: Seq<char>, r: Result<CreateBudgetResult, ScriptError>)
    requires
        call_ensures(CreateBudgetResult::from_fcall_result, (raw,), r),
        written(*raw, "OK"@, seq![id]),
        ids::canonical_uuid(id),
    ensures
        r matches Ok(CreateBudgetResult::Created { budget_id }) && budget_id@ == id,
{
    let f = written::lemma_written(*raw, "OK"@, seq![id]);
    reveal_strlit("OK");
    reveal_strlit("ALREADY_SATISFIED");
    assert("OK"@.len() == 2);
    assert("ALREADY_SATISFIED"@.len() == 17);
}

/// A budget that was there is told from one that was made.
pub proof fn law_create_budget_already(raw: &Value, id: Seq<char>, r: Result<CreateBudgetResult, ScriptError>)
    requires
        call_ensures(CreateBudgetResult::from_fcall_result, (raw,), r),
        written(*raw, "ALREADY_SATISFIED"@, seq![id]),
        ids::canonical_uuid(id),
    ensures
        r matches Ok(CreateBudgetResult::AlreadySatisfied { budget_id }) && budget_id@ == id,
{
    let f = written::lemma_written(*raw, "ALREADY_SATISFIED"@, seq![id]);
    reveal_strlit("OK");
    reveal_strlit("ALREADY_SATISFIED");
    assert("OK"@.len() == 2);
    assert("ALREADY_SATISFIED"@.len() == 17);
}

/// No other status says that it is there.
pub proof fn law_create_budget_other_status(raw: &Value, status: Seq<char>, id: Seq<char>, r: Result<CreateBudgetResult, ScriptError>)
    requires
        call_ensures(CreateBudgetResult::from_fcall_result, (raw,), r),
        written(*raw, status, seq![id]),
        status != "OK"@,
        status != "ALREADY_SATISFIED"@,
    ensures
        r is Err,
{
    let f = written::lemma_written(*raw, status, seq![id]);
}

/// A refused creation of a budget is the error whose code was written.
pub proof fn law_create_budget_refusal(raw: &Value, e: ScriptError<Seq<char>>, r: Result<CreateBudgetResult, ScriptError>)
    requires
        call_ensures(CreateBudgetResult::from_fcall_result, (raw,), r),
        refused(*raw, e),
    ensures
        r matches Err(x) && x@ == error_laws::emptied(e),
{
    let f = written::lemma_refused(*raw, e);
}

/// A report that was counted.
pub proof fn law_report_applied(raw: &Value, r: Result<ReportUsageResult, ScriptError>)
    requires
        call_ensures(ReportUsageResult::from_fcall_result, (raw,), r),
        written(*raw, "OK"@, Seq::<Seq<char>>::empty()),
    ensures
        r matches Ok(ReportUsageResult::Applied),
{
    let f = written::lemma_written(*raw, "OK"@, Seq::<Seq<char>>::empty());
    reveal_strlit("OK");
    reveal_strlit("ALREADY_APPLIED");
    reveal_strlit("SOFT_BREACH");
    reveal_strlit("HARD_BREACH");
    assert("OK"@.len() == 2);
    assert("ALREADY_APPLIED"@.len() == 15);
    assert("SOFT_BREACH"@.len() == 11);
    assert("HARD_BREACH"@.len() == 11);
    assert("SOFT_BREACH"@[0] == 'S');
    assert("HARD_BREACH"@[0] == 'H');
}

/// A report that had been counted before is told from one that was counted.
pub proof fn law_report_repeated(raw: &Value, r: Result<ReportUsageResult, ScriptError>)
    requires
        call_ensures(ReportUsageResult::from_fcall_result, (raw,), r),
        written(*raw, "ALREADY_APPLIED"@, Seq::<Seq<char>>::empty()),
    ensures
        r matches Ok(ReportUsageResult::AlreadyApplied),
{
    let f = written::lemma_written(*raw, "ALREADY_APPLIED"@, Seq::<Seq<char>>::empty());
    reveal_strlit("OK");
    reveal_strlit("ALREADY_APPLIED");
    reveal_strlit("SOFT_BREACH");
    reveal_strlit("HARD_BREACH");
    assert("OK"@.len() == 2);
    assert("ALREADY_APPLIED"@.len() == 15);
    assert("SOFT_BREACH"@.len() == 11);
    assert("HARD_BREACH"@.len() == 11);
    assert("SOFT_BREACH"@[0] == 'S');
    assert("HARD_BREACH"@[0] == 'H');
}

/// A breach is read with its dimension, the usage and the limit that were written.
pub proof fn law_report_soft_breach(raw: &Value, d: Seq<char>, used: u64, limit: u64, r: Result<ReportUsageResult, ScriptError>)
    requires
        call_ensures(ReportUsageResult::from_fcall_result, (raw,), r),
        written(*raw, "SOFT_BREACH"@, seq![d, numbers::decimal(used as int), numbers::decimal(limit as int)]),
    ensures
        r matches Ok(ReportUsageResult::SoftBreach { dimension, current_usage, soft_limit }) && dimension@ == d && current_usage == used && soft_limit == limit,
{
    let f = written::lemma_written(*raw, "SOFT_BREACH"@, seq![d, numbers::decimal(used as int), numbers::decimal(limit as int)]);
    numbers::law_u64_round_trip(used);
    numbers::law_u64_round_trip(limit);
    reveal_strlit("OK");
    reveal_strlit("ALREADY_APPLIED");
    reveal_strlit("SOFT_BREACH");
    reveal_strlit("HARD_BREACH");
    assert("OK"@.len() == 2);
    assert("ALREADY_APPLIED"@.len() == 15);
    assert("SOFT_BREACH"@.len() == 11);
    assert("HARD_BREACH"@.len() == 11);
    assert("SOFT_BREACH"@[0] == 'S');
    assert("HARD_BREACH"@[0] == 'H');
}

/// A breach is read with its dimension, the usage and the limit that were written.
pub proof fn law_report_hard_breach(raw: &Value, d: Seq<char>, used: u64, limit: u64, r: Result<ReportUsageResult, ScriptError>)
    requires
        call_ensures(ReportUsageResult::from_fcall_result, (raw,), r),
        written(*raw, "HARD_BREACH"@, seq![d, numbers::decimal(used as int), numbers::decimal(limit as int)]),
    ensures
        r matches Ok(ReportUsageResult::HardBreach { dimension, current_usage, hard_limit }) && dimension@ == d && current_usage == used && hard_limit == limit,
{
    let f = written::lemma_written(*raw, "HARD_BREACH"@, seq![d, numbers::decimal(used as int), numbers::decimal(limit as int)]);
    numbers::law_u64_round_trip(used);
    numbers::law_u64_round_trip(limit);
    reveal_strlit("OK");
    reveal_strlit("ALREADY_APPLIED");
    reveal_strlit("SOFT_BREACH");
    reveal_strlit("HARD_BREACH");
    assert("OK"@.len() == 2);
    assert("ALREADY_APPLIED"@.len() == 15);
    assert("SOFT_BREACH"@.len() == 11);
    assert("HARD_BREACH"@.len() == 11);
    assert("SOFT_BREACH"@[0] == 'S');
    assert("HARD_BREACH"@[0] == 'H');
}

/// No other status says what became of a report.
pub proof fn law_report_other_status(raw: &Value, status: Seq<char>, r: Result<ReportUsageResult, ScriptError>)
    requires
        call_ensures(ReportUsageResult::from_fcall_result, (raw,), r),
        written(*raw, status, Seq::<Seq<char>>::empty()),
        status != "OK"@,
        status != "ALREADY_APPLIED"@,
        status != "SOFT_BREACH"@,
        status != "HARD_BREACH"@,
    ensures
        r is Err,
{
    let f = written::lemma_written(*raw, status, Seq::<Seq<char>>::empty());
}

/// A refused report is the error whose code was written.
pub proof fn law_report_refusal(raw: &Value, e: ScriptError<Seq<char>>, r: Result<ReportUsageResult, ScriptError>)
    requires
        call_ensures(ReportUsageResult::from_fcall_result, (raw,), r),
        refused(*raw, e),
    ensures
        r matches Err(x) && x@ == error_laws::emptied(e),
{
    let f = written::lemma_refused(*raw, e);
}

/// The time of the next reset is read as it was written.
pub proof fn law_reset_reads_back(raw: &Value, status: Seq<char>, next: i64, r: Result<ResetBudgetResult, ScriptError>)
    requires
        call_ensures(ResetBudgetResult::from_fcall_result, (raw,), r),
        written(*raw, status, seq![numbers::decimal(next as int)]),
    ensures
        r matches Ok(ResetBudgetResult::Reset { next_reset_at }) && next_reset_at.0 == next,
{
    let f = written::lemma_written(*raw, status, seq![numbers::decimal(next as int)]);
    numbers::law_i64_round_trip(next);
}

/// A refused reset is the error whose code was written.
pub proof fn law_reset_refusal(raw: &Value, e: ScriptError<Seq<char>>, r: Result<ResetBudgetResult, ScriptError>)
    requires
        call_ensures(ResetBudgetResult::from_fcall_result, (raw,), r),
        refused(*raw, e),
    ensures
        r matches Err(x) && x@ == error_laws::emptied(e),
{
    let f = written::lemma_refused(*raw, e);
}

/// A call to block that was accepted has happened.
pub proof fn law_block_accepted(raw: &Value, status: Seq<char>, fields: Seq<Seq<char>>, r: Result<BlockExecutionResult, ScriptError>)
    requires
        call_ensures(BlockExecutionResult::from_fcall_result, (raw,), r),
        written(*raw, status, fields),
    ensures
        r matches Ok(BlockExecutionResult::Blocked),
{
    let f = written::lemma_written(*raw, status, fields);
}

/// A call to block that was refused is the error whose code was written.
pub proof fn law_block_refusal(raw: &Value, e: ScriptError<Seq<char>>, r: Result<BlockExecutionResult, ScriptError>)
    requires
        call_ensures(BlockExecutionResult::from_fcall_result, (raw,), r),
        refused(*raw, e),
    ensures
        r matches Err(x) && x@ == error_laws::emptied(e),
{
    let f = written::lemma_refused(*raw, e);
}

/// A call to unblock that was accepted has happened.
pub proof fn law_unblock_accepted(raw: &Value, status: Seq<char>, fields: Seq<Seq<char>>, r: Result<UnblockExecutionResult, ScriptError>)
    requires
        call_ensures(UnblockExecutionResult::from_fcall_result, (raw,), r),
        written(*raw, status, fields),
    ensures
        r matches Ok(UnblockExecutionResult::Unblocked),
{
    let f = written::lemma_written(*raw, status, fields);
}

/// A call to unblock that was refused is the error whose code was written.
pub proof fn law_unblock_refusal(raw: &Value, e: ScriptError<Seq<char>>, r: Result<UnblockExecutionResult, ScriptError>)
    requires
        call_ensures(UnblockExecutionResult::from_fcall_result, (raw,), r),
        refused(*raw, e),
    ensures
        r matches Err(x) && x@ == error_laws::emptied(e),
{
    let f = written::lemma_refused(*raw, e);
}

} // verus!
