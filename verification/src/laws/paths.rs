//! Keys as paths: their parts, and a colon between any two.

use vstd::prelude::*;
use vstd::string::*;

use crate::ids::{AttemptIndex, EdgeId, ExecutionId, SignalId, WaitpointId};
use crate::keys;
use crate::keys::{ExecKeyContext, FlowIndexKeys, FlowKeyContext, IndexKeys, QuotaKeyContext};
use crate::names::{LaneId, WorkerInstanceId};
use crate::numbers;
use crate::text;

verus! {

/// Parts with a colon between any two.
pub open spec fn path(parts: Seq<Seq<char>>) -> Seq<char> {
    text::joined(parts, ":"@)
}

proof fn lemma_path2(a: Seq<char>, b: Seq<char>)
    ensures
        path(seq![a, b]) == a + ":"@ + b,
{
    assert(seq![a, b].drop_last() =~= seq![a]);
    assert(path(seq![a]) == a);
}

proof fn lemma_path3(a: Seq<char>, b: Seq<char>, c: Seq<char>)
    ensures
        path(seq![a, b, c]) == a + ":"@ + b + ":"@ + c,
{
    assert(seq![a, b, c].drop_last() =~= seq![a, b]);
    lemma_path2(a, b);
}

proof fn lemma_path4(a: Seq<char>, b: Seq<char>, c: Seq<char>, d: Seq<char>)
    ensures
        path(seq![a, b, c, d]) == a + ":"@ + b + ":"@ + c + ":"@ + d,
{
    assert(seq![a, b, c, d].drop_last() =~= seq![a, b, c]);
    lemma_path3(a, b, c);
}

proof fn lemma_path5(a: Seq<char>, b: Seq<char>, c: Seq<char>, d: Seq<char>, e: Seq<char>)
    ensures
        path(seq![a, b, c, d, e]) == a + ":"@ + b + ":"@ + c + ":"@ + d + ":"@ + e,
{
    assert(seq![a, b, c, d, e].drop_last() =~= seq![a, b, c, d]);
    lemma_path4(a, b, c, d);
}

proof fn lemma_path6(a: Seq<char>, b: Seq<char>, c: Seq<char>, d: Seq<char>, e: Seq<char>, f: Seq<char>)
    ensures
        path(seq![a, b, c, d, e, f]) == a + ":"@ + b + ":"@ + c + ":"@ + d + ":"@ + e + ":"@ + f,
{
    assert(seq![a, b, c, d, e, f].drop_last() =~= seq![a, b, c, d, e]);
    lemma_path5(a, b, c, d, e);
}

proof fn lemma_path7(a: Seq<char>, b: Seq<char>, c: Seq<char>, d: Seq<char>, e: Seq<char>, f: Seq<char>, g: Seq<char>)
    ensures
        path(seq![a, b, c, d, e, f, g]) == a + ":"@ + b + ":"@ + c + ":"@ + d + ":"@ + e + ":"@ + f + ":"@ + g,
{
    assert(seq![a, b, c, d, e, f, g].drop_last() =~= seq![a, b, c, d, e, f]);
    lemma_path6(a, b, c, d, e, f);
}

/// The `core_key` key of an execution, part by part.
pub proof fn law_exec_core_key_path(k: ExecKeyContext, r: String)
    requires
        call_ensures(ExecKeyContext::core_key, (&k,), r),
    ensures
        r@ == path(seq!["ff"@, "exec"@, k.tag_spec(), k.eid_spec(), "core"@]),
        k.core_key_spec() == path(seq!["ff"@, "exec"@, k.tag_spec(), k.eid_spec(), "core"@]),
{
    reveal_strlit(":");
    reveal_strlit(":core");
    reveal_strlit("core");
    reveal_strlit("exec");
    reveal_strlit("ff");
    reveal_strlit("ff:exec:");
    lemma_path5("ff"@, "exec"@, k.tag_spec(), k.eid_spec(), "core"@);
    assert(k.core_key_spec() =~= path(seq!["ff"@, "exec"@, k.tag_spec(), k.eid_spec(), "core"@]));
}

/// The `payload` key of an execution, part by part.
pub proof fn law_exec_payload_path(k: ExecKeyContext, r: String)
    requires
        call_ensures(ExecKeyContext::payload, (&k,), r),
    ensures
        r@ == path(seq!["ff"@, "exec"@, k.tag_spec(), k.eid_spec(), "payload"@]),
        k.payload_spec() == path(seq!["ff"@, "exec"@, k.tag_spec(), k.eid_spec(), "payload"@]),
{
    reveal_strlit(":");
    reveal_strlit(":payload");
    reveal_strlit("exec");
    reveal_strlit("ff");
    reveal_strlit("ff:exec:");
    reveal_strlit("payload");
    lemma_path5("ff"@, "exec"@, k.tag_spec(), k.eid_spec(), "payload"@);
    assert(k.payload_spec() =~= path(seq!["ff"@, "exec"@, k.tag_spec(), k.eid_spec(), "payload"@]));
}

/// The `result` key of an execution, part by part.
pub proof fn law_exec_result_path(k: ExecKeyContext, r: String)
    requires
        call_ensures(ExecKeyContext::result, (&k,), r),
    ensures
        r@ == path(seq!["ff"@, "exec"@, k.tag_spec(), k.eid_spec(), "result"@]),
        k.result_spec() == path(seq!["ff"@, "exec"@, k.tag_spec(), k.eid_spec(), "result"@]),
{
    reveal_strlit(":");
    reveal_strlit(":result");
    reveal_strlit("exec");
    reveal_strlit("ff");
    reveal_strlit("ff:exec:");
    reveal_strlit("result");
    lemma_path5("ff"@, "exec"@, k.tag_spec(), k.eid_spec(), "result"@);
    assert(k.result_spec() =~= path(seq!["ff"@, "exec"@, k.tag_spec(), k.eid_spec(), "result"@]));
}

/// The `policy` key of an execution, part by part.
pub proof fn law_exec_policy_path(k: ExecKeyContext, r: String)
    requires
        call_ensures(ExecKeyContext::policy, (&k,), r),
    ensures
        r@ == path(seq!["ff"@, "exec"@, k.tag_spec(), k.eid_spec(), "policy"@]),
        k.policy_spec() == path(seq!["ff"@, "exec"@, k.tag_spec(), k.eid_spec(), "policy"@]),
{
    reveal_strlit(":");
    reveal_strlit(":policy");
    reveal_strlit("exec");
    reveal_strlit("ff");
    reveal_strlit("ff:exec:");
    reveal_strlit("policy");
    lemma_path5("ff"@, "exec"@, k.tag_spec(), k.eid_spec(), "policy"@);
    assert(k.policy_spec() =~= path(seq!["ff"@, "exec"@, k.tag_spec(), k.eid_spec(), "policy"@]));
}

/// The `tags` key of an execution, part by part.
pub proof fn law_exec_tags_path(k: ExecKeyContext, r: String)
    requires
        call_ensures(ExecKeyContext::tags, (&k,), r),
    ensures
        r@ == path(seq!["ff"@, "exec"@, k.tag_spec(), k.eid_spec(), "tags"@]),
        k.tags_spec() == path(seq!["ff"@, "exec"@, k.tag_spec(), k.eid_spec(), "tags"@]),
{
    reveal_strlit(":");
    reveal_strlit(":tags");
    reveal_strlit("exec");
    reveal_strlit("ff");
    reveal_strlit("ff:exec:");
    reveal_strlit("tags");
    lemma_path5("ff"@, "exec"@, k.tag_spec(), k.eid_spec(), "tags"@);
    assert(k.tags_spec() =~= path(seq!["ff"@, "exec"@, k.tag_spec(), k.eid_spec(), "tags"@]));
}

/// The `lease_current` key of an execution, part by part.
pub proof fn law_exec_lease_current_path(k: ExecKeyContext, r: String)
    requires
        call_ensures(ExecKeyContext::lease_current, (&k,), r),
    ensures
        r@ == path(seq!["ff"@, "exec"@, k.tag_spec(), k.eid_spec(), "lease"@, "current"@]),
        k.lease_current_spec() == path(seq!["ff"@, "exec"@, k.tag_spec(), k.eid_spec(), "lease"@, "current"@]),
{
    reveal_strlit(":");
    reveal_strlit(":lease:current");
    reveal_strlit("current");
    reveal_strlit("exec");
    reveal_strlit("ff");
    reveal_strlit("ff:exec:");
    reveal_strlit("lease");
    lemma_path6("ff"@, "exec"@, k.tag_spec(), k.eid_spec(), "lease"@, "current"@);
    assert(k.lease_current_spec() =~= path(seq!["ff"@, "exec"@, k.tag_spec(), k.eid_spec(), "lease"@, "current"@]));
}

/// The `lease_history` key of an execution, part by part.
pub proof fn law_exec_lease_history_path(k: ExecKeyContext, r: String)
    requires
        call_ensures(ExecKeyContext::lease_history, (&k,), r),
    ensures
        r@ == path(seq!["ff"@, "exec"@, k.tag_spec(), k.eid_spec(), "lease"@, "history"@]),
        k.lease_history_spec() == path(seq!["ff"@, "exec"@, k.tag_spec(), k.eid_spec(), "lease"@, "history"@]),
{
    reveal_strlit(":");
    reveal_strlit(":lease:history");
    reveal_strlit("exec");
    reveal_strlit("ff");
    reveal_strlit("ff:exec:");
    reveal_strlit("history");
    reveal_strlit("lease");
    lemma_path6("ff"@, "exec"@, k.tag_spec(), k.eid_spec(), "lease"@, "history"@);
    assert(k.lease_history_spec() =~= path(seq!["ff"@, "exec"@, k.tag_spec(), k.eid_spec(), "lease"@, "history"@]));
}

/// The `claim_grant` key of an execution, part by part.
pub proof fn law_exec_claim_grant_path(k: ExecKeyContext, r: String)
    requires
        call_ensures(ExecKeyContext::claim_grant, (&k,), r),
    ensures
        r@ == path(seq!["ff"@, "exec"@, k.tag_spec(), k.eid_spec(), "claim_grant"@]),
        k.claim_grant_spec() == path(seq!["ff"@, "exec"@, k.tag_spec(), k.eid_spec(), "claim_grant"@]),
{
    reveal_strlit(":");
    reveal_strlit(":claim_grant");
    reveal_strlit("claim_grant");
    reveal_strlit("exec");
    reveal_strlit("ff");
    reveal_strlit("ff:exec:");
    lemma_path5("ff"@, "exec"@, k.tag_spec(), k.eid_spec(), "claim_grant"@);
    assert(k.claim_grant_spec() =~= path(seq!["ff"@, "exec"@, k.tag_spec(), k.eid_spec(), "claim_grant"@]));
}

/// The `attempts` key of an execution, part by part.
pub proof fn law_exec_attempts_path(k: ExecKeyContext, r: String)
    requires
        call_ensures(ExecKeyContext::attempts, (&k,), r),
    ensures
        r@ == path(seq!["ff"@, "exec"@, k.tag_spec(), k.eid_spec(), "attempts"@]),
        k.attempts_spec() == path(seq!["ff"@, "exec"@, k.tag_spec(), k.eid_spec(), "attempts"@]),
{
    reveal_strlit(":");
    reveal_strlit(":attempts");
    reveal_strlit("attempts");
    reveal_strlit("exec");
    reveal_strlit("ff");
    reveal_strlit("ff:exec:");
    lemma_path5("ff"@, "exec"@, k.tag_spec(), k.eid_spec(), "attempts"@);
    assert(k.attempts_spec() =~= path(seq!["ff"@, "exec"@, k.tag_spec(), k.eid_spec(), "attempts"@]));
}

/// The `attempt_hash` key of an execution, part by part.
pub proof fn law_exec_attempt_hash_path(k: ExecKeyContext, index: AttemptIndex, r: String)
    requires
        call_ensures(ExecKeyContext::attempt_hash, (&k, index), r),
    ensures
        r@ == path(seq!["ff"@, "attempt"@, k.tag_spec(), k.eid_spec(), numbers::decimal(index.0 as int)]),
        k.attempt_hash_spec(index) == path(seq!["ff"@, "attempt"@, k.tag_spec(), k.eid_spec(), numbers::decimal(index.0 as int)]),
{
    reveal_strlit(":");
    reveal_strlit("attempt");
    reveal_strlit("ff");
    reveal_strlit("ff:attempt:");
    lemma_path5("ff"@, "attempt"@, k.tag_spec(), k.eid_spec(), numbers::decimal(index.0 as int));
    assert(k.attempt_hash_spec(index) =~= path(seq!["ff"@, "attempt"@, k.tag_spec(), k.eid_spec(), numbers::decimal(index.0 as int)]));
}

/// The `attempt_usage` key of an execution, part by part.
pub proof fn law_exec_attempt_usage_path(k: ExecKeyContext, index: AttemptIndex, r: String)
    requires
        call_ensures(ExecKeyContext::attempt_usage, (&k, index), r),
    ensures
        r@ == path(seq!["ff"@, "attempt"@, k.tag_spec(), k.eid_spec(), numbers::decimal(index.0 as int), "usage"@]),
        k.attempt_usage_spec(index) == path(seq!["ff"@, "attempt"@, k.tag_spec(), k.eid_spec(), numbers::decimal(index.0 as int), "usage"@]),
{
    reveal_strlit(":");
    reveal_strlit(":usage");
    reveal_strlit("attempt");
    reveal_strlit("ff");
    reveal_strlit("ff:attempt:");
    reveal_strlit("usage");
    lemma_path6("ff"@, "attempt"@, k.tag_spec(), k.eid_spec(), numbers::decimal(index.0 as int), "usage"@);
    assert(k.attempt_usage_spec(index) =~= path(seq!["ff"@, "attempt"@, k.tag_spec(), k.eid_spec(), numbers::decimal(index.0 as int), "usage"@]));
}

/// The `attempt_policy` key of an execution, part by part.
pub proof fn law_exec_attempt_policy_path(k: ExecKeyContext, index: AttemptIndex, r: String)
    requires
        call_ensures(ExecKeyContext::attempt_policy, (&k, index), r),
    ensures
        r@ == path(seq!["ff"@, "attempt"@, k.tag_spec(), k.eid_spec(), numbers::decimal(index.0 as int), "policy"@]),
        k.attempt_policy_spec(index) == path(seq!["ff"@, "attempt"@, k.tag_spec(), k.eid_spec(), numbers::decimal(index.0 as int), "policy"@]),
{
    reveal_strlit(":");
    reveal_strlit(":policy");
    reveal_strlit("attempt");
    reveal_strlit("ff");
    reveal_strlit("ff:attempt:");
    reveal_strlit("policy");
    lemma_path6("ff"@, "attempt"@, k.tag_spec(), k.eid_spec(), numbers::decimal(index.0 as int), "policy"@);
    assert(k.attempt_policy_spec(index) =~= path(seq!["ff"@, "attempt"@, k.tag_spec(), k.eid_spec(), numbers::decimal(index.0 as int), "policy"@]));
}

/// The `stream` key of an execution, part by part.
pub proof fn law_exec_stream_path(k: ExecKeyContext, index: AttemptIndex, r: String)
    requires
        call_ensures(ExecKeyContext::stream, (&k, index), r),
    ensures
        r@ == path(seq!["ff"@, "stream"@, k.tag_spec(), k.eid_spec(), numbers::decimal(index.0 as int)]),
        k.stream_spec(index) == path(seq!["ff"@, "stream"@, k.tag_spec(), k.eid_spec(), numbers::decimal(index.0 as int)]),
{
    reveal_strlit(":");
    reveal_strlit("ff");
    reveal_strlit("ff:stream:");
    reveal_strlit("stream");
    lemma_path5("ff"@, "stream"@, k.tag_spec(), k.eid_spec(), numbers::decimal(index.0 as int));
    assert(k.stream_spec(index) =~= path(seq!["ff"@, "stream"@, k.tag_spec(), k.eid_spec(), numbers::decimal(index.0 as int)]));
}

/// The `stream_meta` key of an execution, part by part.
pub proof fn law_exec_stream_meta_path(k: ExecKeyContext, index: AttemptIndex, r: String)
    requires
        call_ensures(ExecKeyContext::stream_meta, (&k, index), r),
    ensures
        r@ == path(seq!["ff"@, "stream"@, k.tag_spec(), k.eid_spec(), numbers::decimal(index.0 as int), "meta"@]),
        k.stream_meta_spec(index) == path(seq!["ff"@, "stream"@, k.tag_spec(), k.eid_spec(), numbers::decimal(index.0 as int), "meta"@]),
{
    reveal_strlit(":");
    reveal_strlit(":meta");
    reveal_strlit("ff");
    reveal_strlit("ff:stream:");
    reveal_strlit("meta");
    reveal_strlit("stream");
    lemma_path6("ff"@, "stream"@, k.tag_spec(), k.eid_spec(), numbers::decimal(index.0 as int), "meta"@);
    assert(k.stream_meta_spec(index) =~= path(seq!["ff"@, "stream"@, k.tag_spec(), k.eid_spec(), numbers::decimal(index.0 as int), "meta"@]));
}

/// The `suspension_current` key of an execution, part by part.
pub proof fn law_exec_suspension_current_path(k: ExecKeyContext, r: String)
    requires
        call_ensures(ExecKeyContext::suspension_current, (&k,), r),
    ensures
        r@ == path(seq!["ff"@, "exec"@, k.tag_spec(), k.eid_spec(), "suspension"@, "current"@]),
        k.suspension_current_spec() == path(seq!["ff"@, "exec"@, k.tag_spec(), k.eid_spec(), "suspension"@, "current"@]),
{
    reveal_strlit(":");
    reveal_strlit(":suspension:current");
    reveal_strlit("current");
    reveal_strlit("exec");
    reveal_strlit("ff");
    reveal_strlit("ff:exec:");
    reveal_strlit("suspension");
    lemma_path6("ff"@, "exec"@, k.tag_spec(), k.eid_spec(), "suspension"@, "current"@);
    assert(k.suspension_current_spec() =~= path(seq!["ff"@, "exec"@, k.tag_spec(), k.eid_spec(), "suspension"@, "current"@]));
}

/// The `waitpoints` key of an execution, part by part.
pub proof fn law_exec_waitpoints_path(k: ExecKeyContext, r: String)
    requires
        call_ensures(ExecKeyContext::waitpoints, (&k,), r),
    ensures
        r@ == path(seq!["ff"@, "exec"@, k.tag_spec(), k.eid_spec(), "waitpoints"@]),
        k.waitpoints_spec() == path(seq!["ff"@, "exec"@, k.tag_spec(), k.eid_spec(), "waitpoints"@]),
{
    reveal_strlit(":");
    reveal_strlit(":waitpoints");
    reveal_strlit("exec");
    reveal_strlit("ff");
    reveal_strlit("ff:exec:");
    reveal_strlit("waitpoints");
    lemma_path5("ff"@, "exec"@, k.tag_spec(), k.eid_spec(), "waitpoints"@);
    assert(k.waitpoints_spec() =~= path(seq!["ff"@, "exec"@, k.tag_spec(), k.eid_spec(), "waitpoints"@]));
}

/// The `waitpoint` key of an execution, part by part.
pub proof fn law_exec_waitpoint_path(k: ExecKeyContext, wp_id: &WaitpointId, r: String)
    requires
        call_ensures(ExecKeyContext::waitpoint, (&k, wp_id), r),
    ensures
        r@ == path(seq!["ff"@, "wp"@, k.tag_spec(), wp_id@]),
        k.waitpoint_spec(wp_id@) == path(seq!["ff"@, "wp"@, k.tag_spec(), wp_id@]),
{
    reveal_strlit(":");
    reveal_strlit("ff");
    reveal_strlit("ff:wp:");
    reveal_strlit("wp");
    lemma_path4("ff"@, "wp"@, k.tag_spec(), wp_id@);
    assert(k.waitpoint_spec(wp_id@) =~= path(seq!["ff"@, "wp"@, k.tag_spec(), wp_id@]));
}

/// The `waitpoint_signals` key of an execution, part by part.
pub proof fn law_exec_waitpoint_signals_path(k: ExecKeyContext, wp_id: &WaitpointId, r: String)
    requires
        call_ensures(ExecKeyContext::waitpoint_signals, (&k, wp_id), r),
    ensures
        r@ == path(seq!["ff"@, "wp"@, k.tag_spec(), wp_id@, "signals"@]),
        k.waitpoint_signals_spec(wp_id@) == path(seq!["ff"@, "wp"@, k.tag_spec(), wp_id@, "signals"@]),
{
    reveal_strlit(":");
    reveal_strlit(":signals");
    reveal_strlit("ff");
    reveal_strlit("ff:wp:");
    reveal_strlit("signals");
    reveal_strlit("wp");
    lemma_path5("ff"@, "wp"@, k.tag_spec(), wp_id@, "signals"@);
    assert(k.waitpoint_signals_spec(wp_id@) =~= path(seq!["ff"@, "wp"@, k.tag_spec(), wp_id@, "signals"@]));
}

/// The `waitpoint_condition` key of an execution, part by part.
pub proof fn law_exec_waitpoint_condition_path(k: ExecKeyContext, wp_id: &WaitpointId, r: String)
    requires
        call_ensures(ExecKeyContext::waitpoint_condition, (&k, wp_id), r),
    ensures
        r@ == path(seq!["ff"@, "wp"@, k.tag_spec(), wp_id@, "condition"@]),
        k.waitpoint_condition_spec(wp_id@) == path(seq!["ff"@, "wp"@, k.tag_spec(), wp_id@, "condition"@]),
{
    reveal_strlit(":");
    reveal_strlit(":condition");
    reveal_strlit("condition");
    reveal_strlit("ff");
    reveal_strlit("ff:wp:");
    reveal_strlit("wp");
    lemma_path5("ff"@, "wp"@, k.tag_spec(), wp_id@, "condition"@);
    assert(k.waitpoint_condition_spec(wp_id@) =~= path(seq!["ff"@, "wp"@, k.tag_spec(), wp_id@, "condition"@]));
}

/// The `signal` key of an execution, part by part.
pub proof fn law_exec_signal_path(k: ExecKeyContext, sig_id: &SignalId, r: String)
    requires
        call_ensures(ExecKeyContext::signal, (&k, sig_id), r),
    ensures
        r@ == path(seq!["ff"@, "signal"@, k.tag_spec(), sig_id@]),
        k.signal_spec(sig_id@) == path(seq!["ff"@, "signal"@, k.tag_spec(), sig_id@]),
{
    reveal_strlit(":");
    reveal_strlit("ff");
    reveal_strlit("ff:signal:");
    reveal_strlit("signal");
    lemma_path4("ff"@, "signal"@, k.tag_spec(), sig_id@);
    assert(k.signal_spec(sig_id@) =~= path(seq!["ff"@, "signal"@, k.tag_spec(), sig_id@]));
}

/// The `signal_payload` key of an execution, part by part.
pub proof fn law_exec_signal_payload_path(k: ExecKeyContext, sig_id: &SignalId, r: String)
    requires
        call_ensures(ExecKeyContext::signal_payload, (&k, sig_id), r),
    ensures
        r@ == path(seq!["ff"@, "signal"@, k.tag_spec(), sig_id@, "payload"@]),
        k.signal_payload_spec(sig_id@) == path(seq!["ff"@, "signal"@, k.tag_spec(), sig_id@, "payload"@]),
{
    reveal_strlit(":");
    reveal_strlit(":payload");
    reveal_strlit("ff");
    reveal_strlit("ff:signal:");
    reveal_strlit("payload");
    reveal_strlit("signal");
    lemma_path5("ff"@, "signal"@, k.tag_spec(), sig_id@, "payload"@);
    assert(k.signal_payload_spec(sig_id@) =~= path(seq!["ff"@, "signal"@, k.tag_spec(), sig_id@, "payload"@]));
}

/// The `exec_signals` key of an execution, part by part.
pub proof fn law_exec_exec_signals_path(k: ExecKeyContext, r: String)
    requires
        call_ensures(ExecKeyContext::exec_signals, (&k,), r),
    ensures
        r@ == path(seq!["ff"@, "exec"@, k.tag_spec(), k.eid_spec(), "signals"@]),
        k.exec_signals_spec() == path(seq!["ff"@, "exec"@, k.tag_spec(), k.eid_spec(), "signals"@]),
{
    reveal_strlit(":");
    reveal_strlit(":signals");
    reveal_strlit("exec");
    reveal_strlit("ff");
    reveal_strlit("ff:exec:");
    reveal_strlit("signals");
    lemma_path5("ff"@, "exec"@, k.tag_spec(), k.eid_spec(), "signals"@);
    assert(k.exec_signals_spec() =~= path(seq!["ff"@, "exec"@, k.tag_spec(), k.eid_spec(), "signals"@]));
}

/// The `signal_dedup` key of an execution, part by part.
pub proof fn law_exec_signal_dedup_path(k: ExecKeyContext, wp_id: &WaitpointId, idempotency_key: &str, r: String)
    requires
        call_ensures(ExecKeyContext::signal_dedup, (&k, wp_id, idempotency_key), r),
    ensures
        r@ == path(seq!["ff"@, "sigdedup"@, k.tag_spec(), wp_id@, idempotency_key@]),
        k.signal_dedup_spec(wp_id@, idempotency_key@) == path(seq!["ff"@, "sigdedup"@, k.tag_spec(), wp_id@, idempotency_key@]),
{
    reveal_strlit(":");
    reveal_strlit("ff");
    reveal_strlit("ff:sigdedup:");
    reveal_strlit("sigdedup");
    lemma_path5("ff"@, "sigdedup"@, k.tag_spec(), wp_id@, idempotency_key@);
    assert(k.signal_dedup_spec(wp_id@, idempotency_key@) =~= path(seq!["ff"@, "sigdedup"@, k.tag_spec(), wp_id@, idempotency_key@]));
}

/// The `deps_meta` key of an execution, part by part.
pub proof fn law_exec_deps_meta_path(k: ExecKeyContext, r: String)
    requires
        call_ensures(ExecKeyContext::deps_meta, (&k,), r),
    ensures
        r@ == path(seq!["ff"@, "exec"@, k.tag_spec(), k.eid_spec(), "deps"@, "meta"@]),
        k.deps_meta_spec() == path(seq!["ff"@, "exec"@, k.tag_spec(), k.eid_spec(), "deps"@, "meta"@]),
{
    reveal_strlit(":");
    reveal_strlit(":deps:meta");
    reveal_strlit("deps");
    reveal_strlit("exec");
    reveal_strlit("ff");
    reveal_strlit("ff:exec:");
    reveal_strlit("meta");
    lemma_path6("ff"@, "exec"@, k.tag_spec(), k.eid_spec(), "deps"@, "meta"@);
    assert(k.deps_meta_spec() =~= path(seq!["ff"@, "exec"@, k.tag_spec(), k.eid_spec(), "deps"@, "meta"@]));
}

/// The `dep_edge` key of an execution, part by part.
pub proof fn law_exec_dep_edge_path(k: ExecKeyContext, edge_id: &EdgeId, r: String)
    requires
        call_ensures(ExecKeyContext::dep_edge, (&k, edge_id), r),
    ensures
        r@ == path(seq!["ff"@, "exec"@, k.tag_spec(), k.eid_spec(), "dep"@, edge_id@]),
        k.dep_edge_spec(edge_id@) == path(seq!["ff"@, "exec"@, k.tag_spec(), k.eid_spec(), "dep"@, edge_id@]),
{
    reveal_strlit(":");
    reveal_strlit(":dep:");
    reveal_strlit("dep");
    reveal_strlit("exec");
    reveal_strlit("ff");
    reveal_strlit("ff:exec:");
    lemma_path6("ff"@, "exec"@, k.tag_spec(), k.eid_spec(), "dep"@, edge_id@);
    assert(k.dep_edge_spec(edge_id@) =~= path(seq!["ff"@, "exec"@, k.tag_spec(), k.eid_spec(), "dep"@, edge_id@]));
}

/// The `deps_unresolved` key of an execution, part by part.
pub proof fn law_exec_deps_unresolved_path(k: ExecKeyContext, r: String)
    requires
        call_ensures(ExecKeyContext::deps_unresolved, (&k,), r),
    ensures
        r@ == path(seq!["ff"@, "exec"@, k.tag_spec(), k.eid_spec(), "deps"@, "unresolved"@]),
        k.deps_unresolved_spec() == path(seq!["ff"@, "exec"@, k.tag_spec(), k.eid_spec(), "deps"@, "unresolved"@]),
{
    reveal_strlit(":");
    reveal_strlit(":deps:unresolved");
    reveal_strlit("deps");
    reveal_strlit("exec");
    reveal_strlit("ff");
    reveal_strlit("ff:exec:");
    reveal_strlit("unresolved");
    lemma_path6("ff"@, "exec"@, k.tag_spec(), k.eid_spec(), "deps"@, "unresolved"@);
    assert(k.deps_unresolved_spec() =~= path(seq!["ff"@, "exec"@, k.tag_spec(), k.eid_spec(), "deps"@, "unresolved"@]));
}

/// The `deps_all_edges` key of an execution, part by part.
pub proof fn law_exec_deps_all_edges_path(k: ExecKeyContext, r: String)
    requires
        call_ensures(ExecKeyContext::deps_all_edges, (&k,), r),
    ensures
        r@ == path(seq!["ff"@, "exec"@, k.tag_spec(), k.eid_spec(), "deps"@, "all_edges"@]),
        k.deps_all_edges_spec() == path(seq!["ff"@, "exec"@, k.tag_spec(), k.eid_spec(), "deps"@, "all_edges"@]),
{
    reveal_strlit(":");
    reveal_strlit(":deps:all_edges");
    reveal_strlit("all_edges");
    reveal_strlit("deps");
    reveal_strlit("exec");
    reveal_strlit("ff");
    reveal_strlit("ff:exec:");
    lemma_path6("ff"@, "exec"@, k.tag_spec(), k.eid_spec(), "deps"@, "all_edges"@);
    assert(k.deps_all_edges_spec() =~= path(seq!["ff"@, "exec"@, k.tag_spec(), k.eid_spec(), "deps"@, "all_edges"@]));
}

/// The `noop` key of an execution, part by part.
pub proof fn law_exec_noop_path(k: ExecKeyContext, r: String)
    requires
        call_ensures(ExecKeyContext::noop, (&k,), r),
    ensures
        r@ == path(seq!["ff"@, "noop"@, k.tag_spec()]),
        k.noop_spec() == path(seq!["ff"@, "noop"@, k.tag_spec()]),
{
    reveal_strlit(":");
    reveal_strlit("ff");
    reveal_strlit("ff:noop:");
    reveal_strlit("noop");
    lemma_path3("ff"@, "noop"@, k.tag_spec());
    assert(k.noop_spec() =~= path(seq!["ff"@, "noop"@, k.tag_spec()]));
}

/// The `lane_eligible` key of a partition, part by part.
pub proof fn law_index_lane_eligible_path(k: IndexKeys, lane_id: &LaneId, r: String)
    requires
        call_ensures(IndexKeys::lane_eligible, (&k, lane_id), r),
    ensures
        r@ == path(seq!["ff"@, "idx"@, k.tag_spec(), "lane"@, lane_id@, "eligible"@]),
        k.lane_eligible_spec(lane_id@) == path(seq!["ff"@, "idx"@, k.tag_spec(), "lane"@, lane_id@, "eligible"@]),
{
    reveal_strlit(":");
    reveal_strlit(":eligible");
    reveal_strlit(":lane:");
    reveal_strlit("eligible");
    reveal_strlit("ff");
    reveal_strlit("ff:idx:");
    reveal_strlit("idx");
    reveal_strlit("lane");
    lemma_path6("ff"@, "idx"@, k.tag_spec(), "lane"@, lane_id@, "eligible"@);
    assert(k.lane_eligible_spec(lane_id@) =~= path(seq!["ff"@, "idx"@, k.tag_spec(), "lane"@, lane_id@, "eligible"@]));
}

/// The `lane_delayed` key of a partition, part by part.
pub proof fn law_index_lane_delayed_path(k: IndexKeys, lane_id: &LaneId, r: String)
    requires
        call_ensures(IndexKeys::lane_delayed, (&k, lane_id), r),
    ensures
        r@ == path(seq!["ff"@, "idx"@, k.tag_spec(), "lane"@, lane_id@, "delayed"@]),
        k.lane_delayed_spec(lane_id@) == path(seq!["ff"@, "idx"@, k.tag_spec(), "lane"@, lane_id@, "delayed"@]),
{
    reveal_strlit(":");
    reveal_strlit(":delayed");
    reveal_strlit(":lane:");
    reveal_strlit("delayed");
    reveal_strlit("ff");
    reveal_strlit("ff:idx:");
    reveal_strlit("idx");
    reveal_strlit("lane");
    lemma_path6("ff"@, "idx"@, k.tag_spec(), "lane"@, lane_id@, "delayed"@);
    assert(k.lane_delayed_spec(lane_id@) =~= path(seq!["ff"@, "idx"@, k.tag_spec(), "lane"@, lane_id@, "delayed"@]));
}

/// The `lane_active` key of a partition, part by part.
pub proof fn law_index_lane_active_path(k: IndexKeys, lane_id: &LaneId, r: String)
    requires
        call_ensures(IndexKeys::lane_active, (&k, lane_id), r),
    ensures
        r@ == path(seq!["ff"@, "idx"@, k.tag_spec(), "lane"@, lane_id@, "active"@]),
        k.lane_active_spec(lane_id@) == path(seq!["ff"@, "idx"@, k.tag_spec(), "lane"@, lane_id@, "active"@]),
{
    reveal_strlit(":");
    reveal_strlit(":active");
    reveal_strlit(":lane:");
    reveal_strlit("active");
    reveal_strlit("ff");
    reveal_strlit("ff:idx:");
    reveal_strlit("idx");
    reveal_strlit("lane");
    lemma_path6("ff"@, "idx"@, k.tag_spec(), "lane"@, lane_id@, "active"@);
    assert(k.lane_active_spec(lane_id@) =~= path(seq!["ff"@, "idx"@, k.tag_spec(), "lane"@, lane_id@, "active"@]));
}

/// The `lane_terminal` key of a partition, part by part.
pub proof fn law_index_lane_terminal_path(k: IndexKeys, lane_id: &LaneId, r: String)
    requires
        call_ensures(IndexKeys::lane_terminal, (&k, lane_id), r),
    ensures
        r@ == path(seq!["ff"@, "idx"@, k.tag_spec(), "lane"@, lane_id@, "terminal"@]),
        k.lane_terminal_spec(lane_id@) == path(seq!["ff"@, "idx"@, k.tag_spec(), "lane"@, lane_id@, "terminal"@]),
{
    reveal_strlit(":");
    reveal_strlit(":lane:");
    reveal_strlit(":terminal");
    reveal_strlit("ff");
    reveal_strlit("ff:idx:");
    reveal_strlit("idx");
    reveal_strlit("lane");
    reveal_strlit("terminal");
    lemma_path6("ff"@, "idx"@, k.tag_spec(), "lane"@, lane_id@, "terminal"@);
    assert(k.lane_terminal_spec(lane_id@) =~= path(seq!["ff"@, "idx"@, k.tag_spec(), "lane"@, lane_id@, "terminal"@]));
}

/// The `lane_blocked_dependencies` key of a partition, part by part.
pub proof fn law_index_lane_blocked_dependencies_path(k: IndexKeys, lane_id: &LaneId, r: String)
    requires
        call_ensures(IndexKeys::lane_blocked_dependencies, (&k, lane_id), r),
    ensures
        r@ == path(seq!["ff"@, "idx"@, k.tag_spec(), "lane"@, lane_id@, "blocked"@, "dependencies"@]),
        k.lane_blocked_dependencies_spec(lane_id@) == path(seq!["ff"@, "idx"@, k.tag_spec(), "lane"@, lane_id@, "blocked"@, "dependencies"@]),
{
    reveal_strlit(":");
    reveal_strlit(":blocked:dependencies");
    reveal_strlit(":lane:");
    reveal_strlit("blocked");
    reveal_strlit("dependencies");
    reveal_strlit("ff");
    reveal_strlit("ff:idx:");
    reveal_strlit("idx");
    reveal_strlit("lane");
    lemma_path7("ff"@, "idx"@, k.tag_spec(), "lane"@, lane_id@, "blocked"@, "dependencies"@);
    assert(k.lane_blocked_dependencies_spec(lane_id@) =~= path(seq!["ff"@, "idx"@, k.tag_spec(), "lane"@, lane_id@, "blocked"@, "dependencies"@]));
}

/// The `lane_blocked_budget` key of a partition, part by part.
pub proof fn law_index_lane_blocked_budget_path(k: IndexKeys, lane_id: &LaneId, r: String)
    requires
        call_ensures(IndexKeys::lane_blocked_budget, (&k, lane_id), r),
    ensures
        r@ == path(seq!["ff"@, "idx"@, k.tag_spec(), "lane"@, lane_id@, "blocked"@, "budget"@]),
        k.lane_blocked_budget_spec(lane_id@) == path(seq!["ff"@, "idx"@, k.tag_spec(), "lane"@, lane_id@, "blocked"@, "budget"@]),
{
    reveal_strlit(":");
    reveal_strlit(":blocked:budget");
    reveal_strlit(":lane:");
    reveal_strlit("blocked");
    reveal_strlit("budget");
    reveal_strlit("ff");
    reveal_strlit("ff:idx:");
    reveal_strlit("idx");
    reveal_strlit("lane");
    lemma_path7("ff"@, "idx"@, k.tag_spec(), "lane"@, lane_id@, "blocked"@, "budget"@);
    assert(k.lane_blocked_budget_spec(lane_id@) =~= path(seq!["ff"@, "idx"@, k.tag_spec(), "lane"@, lane_id@, "blocked"@, "budget"@]));
}

/// The `lane_blocked_quota` key of a partition, part by part.
pub proof fn law_index_lane_blocked_quota_path(k: IndexKeys, lane_id: &LaneId, r: String)
    requires
        call_ensures(IndexKeys::lane_blocked_quota, (&k, lane_id), r),
    ensures
        r@ == path(seq!["ff"@, "idx"@, k.tag_spec(), "lane"@, lane_id@, "blocked"@, "quota"@]),
        k.lane_blocked_quota_spec(lane_id@) == path(seq!["ff"@, "idx"@, k.tag_spec(), "lane"@, lane_id@, "blocked"@, "quota"@]),
{
    reveal_strlit(":");
    reveal_strlit(":blocked:quota");
    reveal_strlit(":lane:");
    reveal_strlit("blocked");
    reveal_strlit("ff");
    reveal_strlit("ff:idx:");
    reveal_strlit("idx");
    reveal_strlit("lane");
    reveal_strlit("quota");
    lemma_path7("ff"@, "idx"@, k.tag_spec(), "lane"@, lane_id@, "blocked"@, "quota"@);
    assert(k.lane_blocked_quota_spec(lane_id@) =~= path(seq!["ff"@, "idx"@, k.tag_spec(), "lane"@, lane_id@, "blocked"@, "quota"@]));
}

/// The `lane_blocked_route` key of a partition, part by part.
pub proof fn law_index_lane_blocked_route_path(k: IndexKeys, lane_id: &LaneId, r: String)
    requires
        call_ensures(IndexKeys::lane_blocked_route, (&k, lane_id), r),
    ensures
        r@ == path(seq!["ff"@, "idx"@, k.tag_spec(), "lane"@, lane_id@, "blocked"@, "route"@]),
        k.lane_blocked_route_spec(lane_id@) == path(seq!["ff"@, "idx"@, k.tag_spec(), "lane"@, lane_id@, "blocked"@, "route"@]),
{
    reveal_strlit(":");
    reveal_strlit(":blocked:route");
    reveal_strlit(":lane:");
    reveal_strlit("blocked");
    reveal_strlit("ff");
    reveal_strlit("ff:idx:");
    reveal_strlit("idx");
    reveal_strlit("lane");
    reveal_strlit("route");
    lemma_path7("ff"@, "idx"@, k.tag_spec(), "lane"@, lane_id@, "blocked"@, "route"@);
    assert(k.lane_blocked_route_spec(lane_id@) =~= path(seq!["ff"@, "idx"@, k.tag_spec(), "lane"@, lane_id@, "blocked"@, "route"@]));
}

/// The `lane_blocked_operator` key of a partition, part by part.
pub proof fn law_index_lane_blocked_operator_path(k: IndexKeys, lane_id: &LaneId, r: String)
    requires
        call_ensures(IndexKeys::lane_blocked_operator, (&k, lane_id), r),
    ensures
        r@ == path(seq!["ff"@, "idx"@, k.tag_spec(), "lane"@, lane_id@, "blocked"@, "operator"@]),
        k.lane_blocked_operator_spec(lane_id@) == path(seq!["ff"@, "idx"@, k.tag_spec(), "lane"@, lane_id@, "blocked"@, "operator"@]),
{
    reveal_strlit(":");
    reveal_strlit(":blocked:operator");
    reveal_strlit(":lane:");
    reveal_strlit("blocked");
    reveal_strlit("ff");
    reveal_strlit("ff:idx:");
    reveal_strlit("idx");
    reveal_strlit("lane");
    reveal_strlit("operator");
    lemma_path7("ff"@, "idx"@, k.tag_spec(), "lane"@, lane_id@, "blocked"@, "operator"@);
    assert(k.lane_blocked_operator_spec(lane_id@) =~= path(seq!["ff"@, "idx"@, k.tag_spec(), "lane"@, lane_id@, "blocked"@, "operator"@]));
}

/// The `lane_suspended` key of a partition, part by part.
pub proof fn law_index_lane_suspended_path(k: IndexKeys, lane_id: &LaneId, r: String)
    requires
        call_ensures(IndexKeys::lane_suspended, (&k, lane_id), r),
    ensures
        r@ == path(seq!["ff"@, "idx"@, k.tag_spec(), "lane"@, lane_id@, "suspended"@]),
        k.lane_suspended_spec(lane_id@) == path(seq!["ff"@, "idx"@, k.tag_spec(), "lane"@, lane_id@, "suspended"@]),
{
    reveal_strlit(":");
    reveal_strlit(":lane:");
    reveal_strlit(":suspended");
    reveal_strlit("ff");
    reveal_strlit("ff:idx:");
    reveal_strlit("idx");
    reveal_strlit("lane");
    reveal_strlit("suspended");
    lemma_path6("ff"@, "idx"@, k.tag_spec(), "lane"@, lane_id@, "suspended"@);
    assert(k.lane_suspended_spec(lane_id@) =~= path(seq!["ff"@, "idx"@, k.tag_spec(), "lane"@, lane_id@, "suspended"@]));
}

/// The `waitpoint_hmac_secrets` key of a partition, part by part.
pub proof fn law_index_waitpoint_hmac_secrets_path(k: IndexKeys, r: String)
    requires
        call_ensures(IndexKeys::waitpoint_hmac_secrets, (&k,), r),
    ensures
        r@ == path(seq!["ff"@, "sec"@, k.tag_spec(), "waitpoint_hmac"@]),
        k.waitpoint_hmac_secrets_spec() == path(seq!["ff"@, "sec"@, k.tag_spec(), "waitpoint_hmac"@]),
{
    reveal_strlit(":");
    reveal_strlit(":waitpoint_hmac");
    reveal_strlit("ff");
    reveal_strlit("ff:sec:");
    reveal_strlit("sec");
    reveal_strlit("waitpoint_hmac");
    lemma_path4("ff"@, "sec"@, k.tag_spec(), "waitpoint_hmac"@);
    assert(k.waitpoint_hmac_secrets_spec() =~= path(seq!["ff"@, "sec"@, k.tag_spec(), "waitpoint_hmac"@]));
}

/// The `lease_expiry` key of a partition, part by part.
pub proof fn law_index_lease_expiry_path(k: IndexKeys, r: String)
    requires
        call_ensures(IndexKeys::lease_expiry, (&k,), r),
    ensures
        r@ == path(seq!["ff"@, "idx"@, k.tag_spec(), "lease_expiry"@]),
        k.lease_expiry_spec() == path(seq!["ff"@, "idx"@, k.tag_spec(), "lease_expiry"@]),
{
    reveal_strlit(":");
    reveal_strlit(":lease_expiry");
    reveal_strlit("ff");
    reveal_strlit("ff:idx:");
    reveal_strlit("idx");
    reveal_strlit("lease_expiry");
    lemma_path4("ff"@, "idx"@, k.tag_spec(), "lease_expiry"@);
    assert(k.lease_expiry_spec() =~= path(seq!["ff"@, "idx"@, k.tag_spec(), "lease_expiry"@]));
}

/// The `worker_leases` key of a partition, part by part.
pub proof fn law_index_worker_leases_path(k: IndexKeys, wid: &WorkerInstanceId, r: String)
    requires
        call_ensures(IndexKeys::worker_leases, (&k, wid), r),
    ensures
        r@ == path(seq!["ff"@, "idx"@, k.tag_spec(), "worker"@, wid@, "leases"@]),
        k.worker_leases_spec(wid@) == path(seq!["ff"@, "idx"@, k.tag_spec(), "worker"@, wid@, "leases"@]),
{
    reveal_strlit(":");
    reveal_strlit(":leases");
    reveal_strlit(":worker:");
    reveal_strlit("ff");
    reveal_strlit("ff:idx:");
    reveal_strlit("idx");
    reveal_strlit("leases");
    reveal_strlit("worker");
    lemma_path6("ff"@, "idx"@, k.tag_spec(), "worker"@, wid@, "leases"@);
    assert(k.worker_leases_spec(wid@) =~= path(seq!["ff"@, "idx"@, k.tag_spec(), "worker"@, wid@, "leases"@]));
}

/// The `suspension_timeout` key of a partition, part by part.
pub proof fn law_index_suspension_timeout_path(k: IndexKeys, r: String)
    requires
        call_ensures(IndexKeys::suspension_timeout, (&k,), r),
    ensures
        r@ == path(seq!["ff"@, "idx"@, k.tag_spec(), "suspension_timeout"@]),
        k.suspension_timeout_spec() == path(seq!["ff"@, "idx"@, k.tag_spec(), "suspension_timeout"@]),
{
    reveal_strlit(":");
    reveal_strlit(":suspension_timeout");
    reveal_strlit("ff");
    reveal_strlit("ff:idx:");
    reveal_strlit("idx");
    reveal_strlit("suspension_timeout");
    lemma_path4("ff"@, "idx"@, k.tag_spec(), "suspension_timeout"@);
    assert(k.suspension_timeout_spec() =~= path(seq!["ff"@, "idx"@, k.tag_spec(), "suspension_timeout"@]));
}

/// The `pending_waitpoint_expiry` key of a partition, part by part.
pub proof fn law_index_pending_waitpoint_expiry_path(k: IndexKeys, r: String)
    requires
        call_ensures(IndexKeys::pending_waitpoint_expiry, (&k,), r),
    ensures
        r@ == path(seq!["ff"@, "idx"@, k.tag_spec(), "pending_waitpoint_expiry"@]),
        k.pending_waitpoint_expiry_spec() == path(seq!["ff"@, "idx"@, k.tag_spec(), "pending_waitpoint_expiry"@]),
{
    reveal_strlit(":");
    reveal_strlit(":pending_waitpoint_expiry");
    reveal_strlit("ff");
    reveal_strlit("ff:idx:");
    reveal_strlit("idx");
    reveal_strlit("pending_waitpoint_expiry");
    lemma_path4("ff"@, "idx"@, k.tag_spec(), "pending_waitpoint_expiry"@);
    assert(k.pending_waitpoint_expiry_spec() =~= path(seq!["ff"@, "idx"@, k.tag_spec(), "pending_waitpoint_expiry"@]));
}

/// The `attempt_timeout` key of a partition, part by part.
pub proof fn law_index_attempt_timeout_path(k: IndexKeys, r: String)
    requires
        call_ensures(IndexKeys::attempt_timeout, (&k,), r),
    ensures
        r@ == path(seq!["ff"@, "idx"@, k.tag_spec(), "attempt_timeout"@]),
        k.attempt_timeout_spec() == path(seq!["ff"@, "idx"@, k.tag_spec(), "attempt_timeout"@]),
{
    reveal_strlit(":");
    reveal_strlit(":attempt_timeout");
    reveal_strlit("attempt_timeout");
    reveal_strlit("ff");
    reveal_strlit("ff:idx:");
    reveal_strlit("idx");
    lemma_path4("ff"@, "idx"@, k.tag_spec(), "attempt_timeout"@);
    assert(k.attempt_timeout_spec() =~= path(seq!["ff"@, "idx"@, k.tag_spec(), "attempt_timeout"@]));
}

/// The `execution_deadline` key of a partition, part by part.
pub proof fn law_index_execution_deadline_path(k: IndexKeys, r: String)
    requires
        call_ensures(IndexKeys::execution_deadline, (&k,), r),
    ensures
        r@ == path(seq!["ff"@, "idx"@, k.tag_spec(), "execution_deadline"@]),
        k.execution_deadline_spec() == path(seq!["ff"@, "idx"@, k.tag_spec(), "execution_deadline"@]),
{
    reveal_strlit(":");
    reveal_strlit(":execution_deadline");
    reveal_strlit("execution_deadline");
    reveal_strlit("ff");
    reveal_strlit("ff:idx:");
    reveal_strlit("idx");
    lemma_path4("ff"@, "idx"@, k.tag_spec(), "execution_deadline"@);
    assert(k.execution_deadline_spec() =~= path(seq!["ff"@, "idx"@, k.tag_spec(), "execution_deadline"@]));
}

/// The `all_executions` key of a partition, part by part.
pub proof fn law_index_all_executions_path(k: IndexKeys, r: String)
    requires
        call_ensures(IndexKeys::all_executions, (&k,), r),
    ensures
        r@ == path(seq!["ff"@, "idx"@, k.tag_spec(), "all_executions"@]),
        k.all_executions_spec() == path(seq!["ff"@, "idx"@, k.tag_spec(), "all_executions"@]),
{
    reveal_strlit(":");
    reveal_strlit(":all_executions");
    reveal_strlit("all_executions");
    reveal_strlit("ff");
    reveal_strlit("ff:idx:");
    reveal_strlit("idx");
    lemma_path4("ff"@, "idx"@, k.tag_spec(), "all_executions"@);
    assert(k.all_executions_spec() =~= path(seq!["ff"@, "idx"@, k.tag_spec(), "all_executions"@]));
}

/// The `core_key` key of a flow, part by part.
pub proof fn law_flow_core_key_path(k: FlowKeyContext, r: String)
    requires
        call_ensures(FlowKeyContext::core_key, (&k,), r),
    ensures
        r@ == path(seq!["ff"@, "flow"@, k.tag_spec(), k.fid_spec(), "core"@]),
        k.core_key_spec() == path(seq!["ff"@, "flow"@, k.tag_spec(), k.fid_spec(), "core"@]),
{
    reveal_strlit(":");
    reveal_strlit(":core");
    reveal_strlit("core");
    reveal_strlit("ff");
    reveal_strlit("ff:flow:");
    reveal_strlit("flow");
    lemma_path5("ff"@, "flow"@, k.tag_spec(), k.fid_spec(), "core"@);
    assert(k.core_key_spec() =~= path(seq!["ff"@, "flow"@, k.tag_spec(), k.fid_spec(), "core"@]));
}

/// The `members` key of a flow, part by part.
pub proof fn law_flow_members_path(k: FlowKeyContext, r: String)
    requires
        call_ensures(FlowKeyContext::members, (&k,), r),
    ensures
        r@ == path(seq!["ff"@, "flow"@, k.tag_spec(), k.fid_spec(), "members"@]),
        k.members_spec() == path(seq!["ff"@, "flow"@, k.tag_spec(), k.fid_spec(), "members"@]),
{
    reveal_strlit(":");
    reveal_strlit(":members");
    reveal_strlit("ff");
    reveal_strlit("ff:flow:");
    reveal_strlit("flow");
    reveal_strlit("members");
    lemma_path5("ff"@, "flow"@, k.tag_spec(), k.fid_spec(), "members"@);
    assert(k.members_spec() =~= path(seq!["ff"@, "flow"@, k.tag_spec(), k.fid_spec(), "members"@]));
}

/// The `tags` key of a flow, part by part.
pub proof fn law_flow_tags_path(k: FlowKeyContext, r: String)
    requires
        call_ensures(FlowKeyContext::tags, (&k,), r),
    ensures
        r@ == path(seq!["ff"@, "flow"@, k.tag_spec(), k.fid_spec(), "tags"@]),
        k.tags_spec() == path(seq!["ff"@, "flow"@, k.tag_spec(), k.fid_spec(), "tags"@]),
{
    reveal_strlit(":");
    reveal_strlit(":tags");
    reveal_strlit("ff");
    reveal_strlit("ff:flow:");
    reveal_strlit("flow");
    reveal_strlit("tags");
    lemma_path5("ff"@, "flow"@, k.tag_spec(), k.fid_spec(), "tags"@);
    assert(k.tags_spec() =~= path(seq!["ff"@, "flow"@, k.tag_spec(), k.fid_spec(), "tags"@]));
}

/// The `edge` key of a flow, part by part.
pub proof fn law_flow_edge_path(k: FlowKeyContext, edge_id: &EdgeId, r: String)
    requires
        call_ensures(FlowKeyContext::edge, (&k, edge_id), r),
    ensures
        r@ == path(seq!["ff"@, "flow"@, k.tag_spec(), k.fid_spec(), "edge"@, edge_id@]),
        k.edge_spec(edge_id@) == path(seq!["ff"@, "flow"@, k.tag_spec(), k.fid_spec(), "edge"@, edge_id@]),
{
    reveal_strlit(":");
    reveal_strlit(":edge:");
    reveal_strlit("edge");
    reveal_strlit("ff");
    reveal_strlit("ff:flow:");
    reveal_strlit("flow");
    lemma_path6("ff"@, "flow"@, k.tag_spec(), k.fid_spec(), "edge"@, edge_id@);
    assert(k.edge_spec(edge_id@) =~= path(seq!["ff"@, "flow"@, k.tag_spec(), k.fid_spec(), "edge"@, edge_id@]));
}

/// The `outgoing` key of a flow, part by part.
pub proof fn law_flow_outgoing_path(k: FlowKeyContext, upstream_eid: &ExecutionId, r: String)
    requires
        call_ensures(FlowKeyContext::outgoing, (&k, upstream_eid), r),
    ensures
        r@ == path(seq!["ff"@, "flow"@, k.tag_spec(), k.fid_spec(), "out"@, upstream_eid@]),
        k.outgoing_spec(upstream_eid@) == path(seq!["ff"@, "flow"@, k.tag_spec(), k.fid_spec(), "out"@, upstream_eid@]),
{
    reveal_strlit(":");
    reveal_strlit(":out:");
    reveal_strlit("ff");
    reveal_strlit("ff:flow:");
    reveal_strlit("flow");
    reveal_strlit("out");
    lemma_path6("ff"@, "flow"@, k.tag_spec(), k.fid_spec(), "out"@, upstream_eid@);
    assert(k.outgoing_spec(upstream_eid@) =~= path(seq!["ff"@, "flow"@, k.tag_spec(), k.fid_spec(), "out"@, upstream_eid@]));
}

/// The `incoming` key of a flow, part by part.
pub proof fn law_flow_incoming_path(k: FlowKeyContext, downstream_eid: &ExecutionId, r: String)
    requires
        call_ensures(FlowKeyContext::incoming, (&k, downstream_eid), r),
    ensures
        r@ == path(seq!["ff"@, "flow"@, k.tag_spec(), k.fid_spec(), "in"@, downstream_eid@]),
        k.incoming_spec(downstream_eid@) == path(seq!["ff"@, "flow"@, k.tag_spec(), k.fid_spec(), "in"@, downstream_eid@]),
{
    reveal_strlit(":");
    reveal_strlit(":in:");
    reveal_strlit("ff");
    reveal_strlit("ff:flow:");
    reveal_strlit("flow");
    reveal_strlit("in");
    lemma_path6("ff"@, "flow"@, k.tag_spec(), k.fid_spec(), "in"@, downstream_eid@);
    assert(k.incoming_spec(downstream_eid@) =~= path(seq!["ff"@, "flow"@, k.tag_spec(), k.fid_spec(), "in"@, downstream_eid@]));
}

/// The `edgegroup` key of a flow, part by part.
pub proof fn law_flow_edgegroup_path(k: FlowKeyContext, downstream_eid: &ExecutionId, r: String)
    requires
        call_ensures(FlowKeyContext::edgegroup, (&k, downstream_eid), r),
    ensures
        r@ == path(seq!["ff"@, "flow"@, k.tag_spec(), k.fid_spec(), "edgegroup"@, downstream_eid@]),
        k.edgegroup_spec(downstream_eid@) == path(seq!["ff"@, "flow"@, k.tag_spec(), k.fid_spec(), "edgegroup"@, downstream_eid@]),
{
    reveal_strlit(":");
    reveal_strlit(":edgegroup:");
    reveal_strlit("edgegroup");
    reveal_strlit("ff");
    reveal_strlit("ff:flow:");
    reveal_strlit("flow");
    lemma_path6("ff"@, "flow"@, k.tag_spec(), k.fid_spec(), "edgegroup"@, downstream_eid@);
    assert(k.edgegroup_spec(downstream_eid@) =~= path(seq!["ff"@, "flow"@, k.tag_spec(), k.fid_spec(), "edgegroup"@, downstream_eid@]));
}

/// The `grant` key of a flow, part by part.
pub proof fn law_flow_grant_path(k: FlowKeyContext, mutation_id: &str, r: String)
    requires
        call_ensures(FlowKeyContext::grant, (&k, mutation_id), r),
    ensures
        r@ == path(seq!["ff"@, "flow"@, k.tag_spec(), k.fid_spec(), "grant"@, mutation_id@]),
        k.grant_spec(mutation_id@) == path(seq!["ff"@, "flow"@, k.tag_spec(), k.fid_spec(), "grant"@, mutation_id@]),
{
    reveal_strlit(":");
    reveal_strlit(":grant:");
    reveal_strlit("ff");
    reveal_strlit("ff:flow:");
    reveal_strlit("flow");
    reveal_strlit("grant");
    lemma_path6("ff"@, "flow"@, k.tag_spec(), k.fid_spec(), "grant"@, mutation_id@);
    assert(k.grant_spec(mutation_id@) =~= path(seq!["ff"@, "flow"@, k.tag_spec(), k.fid_spec(), "grant"@, mutation_id@]));
}

/// The `pending_cancels` key of a flow, part by part.
pub proof fn law_flow_pending_cancels_path(k: FlowKeyContext, r: String)
    requires
        call_ensures(FlowKeyContext::pending_cancels, (&k,), r),
    ensures
        r@ == path(seq!["ff"@, "flow"@, k.tag_spec(), k.fid_spec(), "pending_cancels"@]),
        k.pending_cancels_spec() == path(seq!["ff"@, "flow"@, k.tag_spec(), k.fid_spec(), "pending_cancels"@]),
{
    reveal_strlit(":");
    reveal_strlit(":pending_cancels");
    reveal_strlit("ff");
    reveal_strlit("ff:flow:");
    reveal_strlit("flow");
    reveal_strlit("pending_cancels");
    lemma_path5("ff"@, "flow"@, k.tag_spec(), k.fid_spec(), "pending_cancels"@);
    assert(k.pending_cancels_spec() =~= path(seq!["ff"@, "flow"@, k.tag_spec(), k.fid_spec(), "pending_cancels"@]));
}

/// The `flow_index` key of a flow's partition, part by part.
pub proof fn law_flow_index_flow_index_path(k: FlowIndexKeys, r: String)
    requires
        call_ensures(FlowIndexKeys::flow_index, (&k,), r),
    ensures
        r@ == path(seq!["ff"@, "idx"@, k.tag_spec(), "flow_index"@]),
        k.flow_index_spec() == path(seq!["ff"@, "idx"@, k.tag_spec(), "flow_index"@]),
{
    reveal_strlit(":");
    reveal_strlit(":flow_index");
    reveal_strlit("ff");
    reveal_strlit("ff:idx:");
    reveal_strlit("flow_index");
    reveal_strlit("idx");
    lemma_path4("ff"@, "idx"@, k.tag_spec(), "flow_index"@);
    assert(k.flow_index_spec() =~= path(seq!["ff"@, "idx"@, k.tag_spec(), "flow_index"@]));
}

/// The `cancel_backlog` key of a flow's partition, part by part.
pub proof fn law_flow_index_cancel_backlog_path(k: FlowIndexKeys, r: String)
    requires
        call_ensures(FlowIndexKeys::cancel_backlog, (&k,), r),
    ensures
        r@ == path(seq!["ff"@, "idx"@, k.tag_spec(), "cancel_backlog"@]),
        k.cancel_backlog_spec() == path(seq!["ff"@, "idx"@, k.tag_spec(), "cancel_backlog"@]),
{
    reveal_strlit(":");
    reveal_strlit(":cancel_backlog");
    reveal_strlit("cancel_backlog");
    reveal_strlit("ff");
    reveal_strlit("ff:idx:");
    reveal_strlit("idx");
    lemma_path4("ff"@, "idx"@, k.tag_spec(), "cancel_backlog"@);
    assert(k.cancel_backlog_spec() =~= path(seq!["ff"@, "idx"@, k.tag_spec(), "cancel_backlog"@]));
}

/// The `pending_cancel_groups` key of a flow's partition, part by part.
pub proof fn law_flow_index_pending_cancel_groups_path(k: FlowIndexKeys, r: String)
    requires
        call_ensures(FlowIndexKeys::pending_cancel_groups, (&k,), r),
    ensures
        r@ == path(seq!["ff"@, "idx"@, k.tag_spec(), "pending_cancel_groups"@]),
        k.pending_cancel_groups_spec() == path(seq!["ff"@, "idx"@, k.tag_spec(), "pending_cancel_groups"@]),
{
    reveal_strlit(":");
    reveal_strlit(":pending_cancel_groups");
    reveal_strlit("ff");
    reveal_strlit("ff:idx:");
    reveal_strlit("idx");
    reveal_strlit("pending_cancel_groups");
    lemma_path4("ff"@, "idx"@, k.tag_spec(), "pending_cancel_groups"@);
    assert(k.pending_cancel_groups_spec() =~= path(seq!["ff"@, "idx"@, k.tag_spec(), "pending_cancel_groups"@]));
}

/// The `definition` key of a quota policy, part by part.
pub proof fn law_quota_definition_path(k: QuotaKeyContext, r: String)
    requires
        call_ensures(QuotaKeyContext::definition, (&k,), r),
    ensures
        r@ == path(seq!["ff"@, "quota"@, k.tag_spec(), k.qid_spec()]),
        k.definition_spec() == path(seq!["ff"@, "quota"@, k.tag_spec(), k.qid_spec()]),
{
    reveal_strlit(":");
    reveal_strlit("ff");
    reveal_strlit("ff:quota:");
    reveal_strlit("quota");
    lemma_path4("ff"@, "quota"@, k.tag_spec(), k.qid_spec());
    assert(k.definition_spec() =~= path(seq!["ff"@, "quota"@, k.tag_spec(), k.qid_spec()]));
}

/// The `window` key of a quota policy, part by part.
pub proof fn law_quota_window_path(k: QuotaKeyContext, dimension: &str, r: String)
    requires
        call_ensures(QuotaKeyContext::window, (&k, dimension), r),
    ensures
        r@ == path(seq!["ff"@, "quota"@, k.tag_spec(), k.qid_spec(), "window"@, dimension@]),
        k.window_spec(dimension@) == path(seq!["ff"@, "quota"@, k.tag_spec(), k.qid_spec(), "window"@, dimension@]),
{
    reveal_strlit(":");
    reveal_strlit(":window:");
    reveal_strlit("ff");
    reveal_strlit("ff:quota:");
    reveal_strlit("quota");
    reveal_strlit("window");
    lemma_path6("ff"@, "quota"@, k.tag_spec(), k.qid_spec(), "window"@, dimension@);
    assert(k.window_spec(dimension@) =~= path(seq!["ff"@, "quota"@, k.tag_spec(), k.qid_spec(), "window"@, dimension@]));
}

/// The `concurrency` key of a quota policy, part by part.
pub proof fn law_quota_concurrency_path(k: QuotaKeyContext, r: String)
    requires
        call_ensures(QuotaKeyContext::concurrency, (&k,), r),
    ensures
        r@ == path(seq!["ff"@, "quota"@, k.tag_spec(), k.qid_spec(), "concurrency"@]),
        k.concurrency_spec() == path(seq!["ff"@, "quota"@, k.tag_spec(), k.qid_spec(), "concurrency"@]),
{
    reveal_strlit(":");
    reveal_strlit(":concurrency");
    reveal_strlit("concurrency");
    reveal_strlit("ff");
    reveal_strlit("ff:quota:");
    reveal_strlit("quota");
    lemma_path5("ff"@, "quota"@, k.tag_spec(), k.qid_spec(), "concurrency"@);
    assert(k.concurrency_spec() =~= path(seq!["ff"@, "quota"@, k.tag_spec(), k.qid_spec(), "concurrency"@]));
}

/// The `admitted` key of a quota policy, part by part.
pub proof fn law_quota_admitted_path(k: QuotaKeyContext, eid: &ExecutionId, r: String)
    requires
        call_ensures(QuotaKeyContext::admitted, (&k, eid), r),
    ensures
        r@ == path(seq!["ff"@, "quota"@, k.tag_spec(), k.qid_spec(), "admitted"@, eid@]),
        k.admitted_spec(eid@) == path(seq!["ff"@, "quota"@, k.tag_spec(), k.qid_spec(), "admitted"@, eid@]),
{
    reveal_strlit(":");
    reveal_strlit(":admitted:");
    reveal_strlit("admitted");
    reveal_strlit("ff");
    reveal_strlit("ff:quota:");
    reveal_strlit("quota");
    lemma_path6("ff"@, "quota"@, k.tag_spec(), k.qid_spec(), "admitted"@, eid@);
    assert(k.admitted_spec(eid@) =~= path(seq!["ff"@, "quota"@, k.tag_spec(), k.qid_spec(), "admitted"@, eid@]));
}

/// The `admitted_set` key of a quota policy, part by part.
pub proof fn law_quota_admitted_set_path(k: QuotaKeyContext, r: String)
    requires
        call_ensures(QuotaKeyContext::admitted_set, (&k,), r),
    ensures
        r@ == path(seq!["ff"@, "quota"@, k.tag_spec(), k.qid_spec(), "admitted_set"@]),
        k.admitted_set_spec() == path(seq!["ff"@, "quota"@, k.tag_spec(), k.qid_spec(), "admitted_set"@]),
{
    reveal_strlit(":");
    reveal_strlit(":admitted_set");
    reveal_strlit("admitted_set");
    reveal_strlit("ff");
    reveal_strlit("ff:quota:");
    reveal_strlit("quota");
    lemma_path5("ff"@, "quota"@, k.tag_spec(), k.qid_spec(), "admitted_set"@);
    assert(k.admitted_set_spec() =~= path(seq!["ff"@, "quota"@, k.tag_spec(), k.qid_spec(), "admitted_set"@]));
}

/// The `quota_policies_index` key of a partition, part by part.
pub proof fn law_shared_quota_policies_index_path(tag: &str, r: String)
    requires
        call_ensures(keys::quota_policies_index, (tag,), r),
    ensures
        r@ == path(seq!["ff"@, "idx"@, tag@, "quota_policies"@]),
        keys::quota_policies_index_spec(tag@) == path(seq!["ff"@, "idx"@, tag@, "quota_policies"@]),
{
    reveal_strlit(":");
    reveal_strlit(":quota_policies");
    reveal_strlit("ff");
    reveal_strlit("ff:idx:");
    reveal_strlit("idx");
    reveal_strlit("quota_policies");
    lemma_path4("ff"@, "idx"@, tag@, "quota_policies"@);
    assert(keys::quota_policies_index_spec(tag@) =~= path(seq!["ff"@, "idx"@, tag@, "quota_policies"@]));
}

/// The `idempotency_key` key of a partition, part by part.
pub proof fn law_shared_idempotency_key_path(tag: &str, namespace: &str, idem_key: &str, r: String)
    requires
        call_ensures(keys::idempotency_key, (tag, namespace, idem_key), r),
    ensures
        r@ == path(seq!["ff"@, "idem"@, tag@, namespace@, idem_key@]),
        keys::idempotency_key_spec(tag@, namespace@, idem_key@) == path(seq!["ff"@, "idem"@, tag@, namespace@, idem_key@]),
{
    reveal_strlit(":");
    reveal_strlit("ff");
    reveal_strlit("ff:idem:");
    reveal_strlit("idem");
    lemma_path5("ff"@, "idem"@, tag@, namespace@, idem_key@);
    assert(keys::idempotency_key_spec(tag@, namespace@, idem_key@) =~= path(seq!["ff"@, "idem"@, tag@, namespace@, idem_key@]));
}

} // verus!
