//! Where a server finds what was asked for: calls of leases.

use vstd::prelude::*;
use vstd::string::*;

use crate::functions::lease::{MarkLeaseExpiredArgs, RenewLeaseArgs, RevokeLeaseArgs, ff_mark_lease_expired_if_due, ff_renew_lease, ff_revoke_lease};
use crate::keys::ExecKeyContext;
use crate::keys::IndexKeys;
use crate::numbers;
use crate::wire::Call;

verus! {

/// A renewal tells the server, place by place, what was asked for.
pub proof fn law_renew_lease_call(ctx: &ExecKeyContext, args: &RenewLeaseArgs, idx: &IndexKeys, r: Call)
    requires
        call_ensures(ff_renew_lease, (ctx, args), r),
    ensures
        r.function == "ff_renew_lease",
        r.keys_spec().len() == 4,
        r.keys_spec()[0] == ctx.core_key_spec(),
        r.keys_spec()[1] == ctx.lease_current_spec(),
        r.keys_spec()[2] == ctx.lease_history_spec(),
        idx.tag_spec() == ctx.tag_spec() ==> r.keys_spec()[3] == idx.lease_expiry_spec(),
        r.argv_spec().len() == 7,
        r.argv_spec()[0] == args.execution_id@,
        r.argv_spec()[1] == numbers::decimal(args.attempt_index.0 as int),
        args.fence matches Some(f) ==> r.argv_spec()[2] == f.attempt_id@,
        args.fence is None ==> r.argv_spec()[2].len() == 0,
        args.fence matches Some(f) ==> r.argv_spec()[3] == f.lease_id@,
        args.fence is None ==> r.argv_spec()[3].len() == 0,
        args.fence matches Some(f) ==> r.argv_spec()[4] == numbers::decimal(f.lease_epoch.0 as int),
        args.fence is None ==> r.argv_spec()[4].len() == 0,
        r.argv_spec()[5] == numbers::decimal(args.lease_ttl_ms as int),
        r.argv_spec()[6] == numbers::decimal(args.lease_history_grace_ms as int),
{
}

/// A check of an expiry tells the server, place by place, what was asked for.
pub proof fn law_mark_lease_expired_if_due_call(ctx: &ExecKeyContext, args: &MarkLeaseExpiredArgs, idx: &IndexKeys, r: Call)
    requires
        call_ensures(ff_mark_lease_expired_if_due, (ctx, args), r),
    ensures
        r.function == "ff_mark_lease_expired_if_due",
        r.keys_spec().len() == 4,
        r.keys_spec()[0] == ctx.core_key_spec(),
        r.keys_spec()[1] == ctx.lease_current_spec(),
        idx.tag_spec() == ctx.tag_spec() ==> r.keys_spec()[2] == idx.lease_expiry_spec(),
        r.keys_spec()[3] == ctx.lease_history_spec(),
        r.argv_spec().len() == 1,
        r.argv_spec()[0] == args.execution_id@,
{
}

/// A revocation tells the server, place by place, what was asked for.
pub proof fn law_revoke_lease_call(ctx: &ExecKeyContext, args: &RevokeLeaseArgs, idx: &IndexKeys, r: Call)
    requires
        call_ensures(ff_revoke_lease, (ctx, args), r),
    ensures
        r.function == "ff_revoke_lease",
        r.keys_spec().len() == 5,
        r.keys_spec()[0] == ctx.core_key_spec(),
        r.keys_spec()[1] == ctx.lease_current_spec(),
        r.keys_spec()[2] == ctx.lease_history_spec(),
        idx.tag_spec() == ctx.tag_spec() ==> r.keys_spec()[3] == idx.lease_expiry_spec(),
        idx.tag_spec() == ctx.tag_spec() ==> r.keys_spec()[4] == idx.worker_leases_spec(args.worker_instance_id@),
        r.argv_spec().len() == 3,
        r.argv_spec()[0] == args.execution_id@,
        args.expected_lease_id matches Some(s) ==> r.argv_spec()[1] == s@,
        args.expected_lease_id is None ==> r.argv_spec()[1].len() == 0,
        r.argv_spec()[2] == args.reason@,
{
    reveal_strlit("");
}

} // verus!
