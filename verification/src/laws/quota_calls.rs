//! Where a server finds what was asked for: calls of quotas.

use vstd::prelude::*;
use vstd::string::*;

use crate::functions::quota::{CheckAdmissionArgs, CreateQuotaPolicyArgs, QuotaOpKeys, ff_check_admission_and_record, ff_create_quota_policy};
use crate::keys;
use crate::numbers;
use crate::wire::Call;

verus! {

/// A creation of a quota tells the server, place by place, what was asked for.
pub proof fn law_create_quota_policy_call(k: &QuotaOpKeys<'_>, args: &CreateQuotaPolicyArgs, r: Call)
    requires
        call_ensures(ff_create_quota_policy, (k, args), r),
    ensures
        r.function == "ff_create_quota_policy",
        r.keys_spec().len() == 5,
        r.keys_spec()[0] == k.ctx.definition_spec(),
        r.keys_spec()[1] == k.ctx.window_spec(k.dimension@),
        r.keys_spec()[2] == k.ctx.concurrency_spec(),
        r.keys_spec()[3] == k.ctx.admitted_set_spec(),
        r.keys_spec()[4] == keys::quota_policies_index_spec(k.ctx.tag_spec()),
        r.argv_spec().len() == 5,
        r.argv_spec()[0] == args.quota_policy_id@,
        r.argv_spec()[1] == numbers::decimal(args.window_seconds as int),
        r.argv_spec()[2] == numbers::decimal(args.max_requests_per_window as int),
        r.argv_spec()[3] == numbers::decimal(args.max_concurrent as int),
        r.argv_spec()[4] == numbers::decimal(args.now.0 as int),
{
}

/// A request for admission tells the server, place by place, what was asked for.
pub proof fn law_check_admission_and_record_call(k: &QuotaOpKeys<'_>, args: &CheckAdmissionArgs, r: Call)
    requires
        call_ensures(ff_check_admission_and_record, (k, args), r),
    ensures
        r.function == "ff_check_admission_and_record",
        r.keys_spec().len() == 5,
        r.keys_spec()[0] == k.ctx.window_spec(k.dimension@),
        r.keys_spec()[1] == k.ctx.concurrency_spec(),
        r.keys_spec()[2] == k.ctx.definition_spec(),
        r.keys_spec()[3] == k.ctx.admitted_spec(k.execution_id@),
        r.keys_spec()[4] == k.ctx.admitted_set_spec(),
        r.argv_spec().len() == 6,
        r.argv_spec()[0] == numbers::decimal(args.now.0 as int),
        r.argv_spec()[1] == numbers::decimal(args.window_seconds as int),
        r.argv_spec()[2] == numbers::decimal(args.rate_limit as int),
        r.argv_spec()[3] == numbers::decimal(args.concurrency_cap as int),
        r.argv_spec()[4] == args.execution_id@,
        args.jitter_ms matches Some(n) ==> r.argv_spec()[5] == numbers::decimal(n as int),
        args.jitter_ms is None ==> r.argv_spec()[5] == numbers::decimal(0),
{
}

} // verus!
