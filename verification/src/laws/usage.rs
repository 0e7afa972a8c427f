//! Budgets as lists: what a creation and a report of usage tell the server.

use vstd::prelude::*;
use vstd::string::*;

use crate::error::ScriptError;
use crate::functions::budget;
use crate::functions::budget::{
    ff_create_budget, ff_report_usage_and_check, BudgetOpKeys, CreateBudgetArgs, ReportUsageArgs,
};
use crate::numbers;
use crate::text;
use crate::wire::Call;

verus! {

/// A report is sent exactly where every dimension has its usage and they are not too
/// many. It tells the server how many there are, each dimension, the usage of each, the
/// time, and last the key by which a repeated report is known.
pub proof fn law_report_usage_call(
    k: &BudgetOpKeys<'_>,
    args: &ReportUsageArgs,
    r: Result<Call, ScriptError>,
)
    requires
        call_ensures(ff_report_usage_and_check, (k, args), r),
    ensures
        r is Ok <==> args.dimensions@.len() <= 64 && args.deltas@.len() == args.dimensions@.len(),
        r matches Err(x) ==> x is Parse,
        r matches Ok(c) ==> {
            let n = args.dimensions@.len() as int;
            &&& c.function == "ff_report_usage_and_check"
            &&& c.keys_spec().len() == 3
            &&& c.keys_spec()[0] == k.usage_key@
            &&& c.keys_spec()[1] == k.limits_key@
            &&& c.keys_spec()[2] == k.def_key@
            &&& c.argv_spec().len() == 2 * n + 3
            &&& c.argv_spec()[0] == numbers::decimal(n)
            &&& forall|i: int|
                0 <= i < n ==> c.argv_spec()[1 + i] == (#[trigger] args.dimensions@[i])@
            &&& forall|i: int|
                0 <= i < n ==> c.argv_spec()[1 + n + i] == numbers::decimal(
                    #[trigger] args.deltas@[i] as int,
                )
            &&& c.argv_spec()[1 + 2 * n] == numbers::decimal(args.now.0 as int)
            &&& args.dedup_key matches Some(d) ==> c.argv_spec().last() == d@
            &&& args.dedup_key is None ==> c.argv_spec().last().len() == 0
        },
{
    reveal_strlit("");
    if let Ok(c) = r {
        let n = args.dimensions@.len() as int;
        let head = seq![numbers::decimal(n)];
        let names = text::texts(args.dimensions@);
        let amounts = budget::decimals(args.deltas@);
        assert(c.argv_spec().len() == 2 * n + 3);
        assert forall|i: int| 0 <= i < n implies c.argv_spec()[1 + i] == (
        #[trigger] args.dimensions@[i])@ by {
            assert(names[i] == args.dimensions@[i]@);
        }
        assert forall|i: int| 0 <= i < n implies c.argv_spec()[1 + n + i] == numbers::decimal(
            #[trigger] args.deltas@[i] as int,
        ) by {
            assert(amounts[i] == numbers::decimal(args.deltas@[i] as int));
        }
    }
}

/// Reports that send the same arguments report the same usage of the same dimensions at
/// the same time under the same key: one that is sent again is known by its key, and one
/// under another key is not taken for it.
pub proof fn law_reports_are_told_apart(
    k: &BudgetOpKeys<'_>,
    a: &ReportUsageArgs,
    b: &ReportUsageArgs,
    r: Call,
    s: Call,
)
    requires
        call_ensures(ff_report_usage_and_check, (k, a), Ok::<Call, ScriptError>(r)),
        call_ensures(ff_report_usage_and_check, (k, b), Ok::<Call, ScriptError>(s)),
        r.argv_spec() == s.argv_spec(),
    ensures
        text::texts(a.dimensions@) == text::texts(b.dimensions@),
        a.deltas@ == b.deltas@,
        a.now == b.now,
        (a.dedup_key matches Some(d) && d@.len() > 0) ==> (b.dedup_key matches Some(d)
            && a.dedup_key->0@ == d@),
{
    law_report_usage_call(k, a, Ok(r));
    law_report_usage_call(k, b, Ok(s));
    let n = a.dimensions@.len() as int;
    assert(b.dimensions@.len() == n);
    assert(text::texts(a.dimensions@) =~= text::texts(b.dimensions@)) by {
        assert forall|i: int| 0 <= i < n implies text::texts(a.dimensions@)[i] == text::texts(
            b.dimensions@,
        )[i] by {
            assert(r.argv_spec()[1 + i] == a.dimensions@[i]@);
            assert(s.argv_spec()[1 + i] == b.dimensions@[i]@);
        }
    }
    assert(a.deltas@ =~= b.deltas@) by {
        assert forall|i: int| 0 <= i < n implies a.deltas@[i] == b.deltas@[i] by {
            assert(r.argv_spec()[1 + n + i] == numbers::decimal(a.deltas@[i] as int));
            assert(s.argv_spec()[1 + n + i] == numbers::decimal(b.deltas@[i] as int));
            numbers::law_u64_round_trip(a.deltas@[i]);
            numbers::law_u64_round_trip(b.deltas@[i]);
        }
    }
    numbers::law_i64_round_trip(a.now.0);
    numbers::law_i64_round_trip(b.now.0);
}

/// A budget is asked for exactly where every dimension has its two limits and they are
/// not too many. The server is told the budget, its scope, how it is enforced, when it
/// is reset, the time, how many dimensions there are, and for each its name, its hard
/// and its soft limit.
pub proof fn law_create_budget_call(
    k: &BudgetOpKeys<'_>,
    resets_zset: &str,
    policies_index: &str,
    args: &CreateBudgetArgs,
    r: Result<Call, ScriptError>,
)
    requires
        call_ensures(ff_create_budget, (k, resets_zset, policies_index, args), r),
    ensures
        r is Ok <==> args.dimensions@.len() <= 64 && args.hard_limits@.len()
            == args.dimensions@.len() && args.soft_limits@.len() == args.dimensions@.len(),
        r matches Err(x) ==> x is Parse,
        r matches Ok(c) ==> {
            let n = args.dimensions@.len() as int;
            &&& c.function == "ff_create_budget"
            &&& c.keys_spec().len() == 5
            &&& c.keys_spec()[0] == k.def_key@
            &&& c.keys_spec()[1] == k.limits_key@
            &&& c.keys_spec()[2] == k.usage_key@
            &&& c.keys_spec()[3] == resets_zset@
            &&& c.keys_spec()[4] == policies_index@
            &&& c.argv_spec().len() == 9 + 3 * n
            &&& c.argv_spec()[0] == args.budget_id@
            &&& c.argv_spec()[1] == args.scope_type@
            &&& c.argv_spec()[2] == args.scope_id@
            &&& c.argv_spec()[3] == args.enforcement_mode@
            &&& c.argv_spec()[4] == args.on_hard_limit@
            &&& c.argv_spec()[5] == args.on_soft_limit@
            &&& c.argv_spec()[6] == numbers::decimal(args.reset_interval_ms as int)
            &&& c.argv_spec()[7] == numbers::decimal(args.now.0 as int)
            &&& c.argv_spec()[8] == numbers::decimal(n)
            &&& forall|i: int|
                0 <= i < n ==> c.argv_spec()[9 + i] == (#[trigger] args.dimensions@[i])@
            &&& forall|i: int|
                0 <= i < n ==> c.argv_spec()[9 + n + i] == numbers::decimal(
                    #[trigger] args.hard_limits@[i] as int,
                )
            &&& forall|i: int|
                0 <= i < n ==> c.argv_spec()[9 + 2 * n + i] == numbers::decimal(
                    #[trigger] args.soft_limits@[i] as int,
                )
        },
{
    if let Ok(c) = r {
        let n = args.dimensions@.len() as int;
        let names = text::texts(args.dimensions@);
        let hard = budget::decimals(args.hard_limits@);
        let soft = budget::decimals(args.soft_limits@);
        assert(c.argv_spec().len() == 9 + 3 * n);
        assert forall|i: int| 0 <= i < n implies c.argv_spec()[9 + i] == (
        #[trigger] args.dimensions@[i])@ by {
            assert(names[i] == args.dimensions@[i]@);
        }
        assert forall|i: int| 0 <= i < n implies c.argv_spec()[9 + n + i] == numbers::decimal(
            #[trigger] args.hard_limits@[i] as int,
        ) by {
            assert(hard[i] == numbers::decimal(args.hard_limits@[i] as int));
        }
        assert forall|i: int| 0 <= i < n implies c.argv_spec()[9 + 2 * n + i] == numbers::decimal(
            #[trigger] args.soft_limits@[i] as int,
        ) by {
            assert(soft[i] == numbers::decimal(args.soft_limits@[i] as int));
        }
    }
}

} // verus!
