//! Where keys live: every key of an object carries the hash tag of its partition
//! first, so that they all lie in one slot and one call may name them together.

use vstd::prelude::*;

use crate::ids::AttemptIndex;
use crate::keys::{ExecKeyContext, FlowIndexKeys, FlowKeyContext, IndexKeys, QuotaKeyContext};
use crate::numbers;
use crate::partition::Partition;
use crate::suspend;
use crate::suspend::{SuspendRequest, Suspender};

verus! {

/// A tag between two texts.
pub open spec fn around(pre: Seq<char>, tag: Seq<char>, post: Seq<char>) -> Seq<char> {
    pre + tag + post
}

/// Whether a key is routed by a tag: the first opening brace of the key is the
/// tag's.
pub open spec fn routed_by(key: Seq<char>, tag: Seq<char>) -> bool {
    exists|pre: Seq<char>, post: Seq<char>|
        !pre.contains('{') && key == #[trigger] around(pre, tag, post)
}

proof fn lemma_routed(pre: Seq<char>, tag: Seq<char>, post: Seq<char>, key: Seq<char>)
    requires
        !pre.contains('{'),
        key =~= pre + tag + post,
    ensures
        routed_by(key, tag),
{
    assert(key == around(pre, tag, post));
}

proof fn lemma_digits(n: nat)
    ensures
        forall|i: int|
            0 <= i < numbers::decimal_nat(n).len() ==> (#[trigger] numbers::decimal_nat(n)[i])
                != '}',
    decreases n,
{
    let all = numbers::decimal_nat(n);
    if n >= 10 {
        lemma_digits(n / 10);
    }
    assert forall|i: int| 0 <= i < all.len() implies (#[trigger] all[i]) != '}' by {
        if n < 10 {
            assert(all[i] == numbers::digit_char(n));
        } else if i < all.len() - 1 {
            assert(all[i] == numbers::decimal_nat(n / 10)[i]);
        } else {
            assert(all[i] == numbers::digit_char(n % 10));
        }
    }
}

/// A key is routed by one partition's tag at most.
pub proof fn law_tag_is_unique(key: Seq<char>, p: Partition, q: Partition)
    requires
        routed_by(key, p.tag_spec()),
        routed_by(key, q.tag_spec()),
    ensures
        p.tag_spec() == q.tag_spec(),
{
    let (a, x) = choose|pre: Seq<char>, post: Seq<char>|
        !pre.contains('{') && key == #[trigger] around(pre, p.tag_spec(), post);
    let (b, y) = choose|pre: Seq<char>, post: Seq<char>|
        !pre.contains('{') && key == #[trigger] around(pre, q.tag_spec(), post);
    lemma_tag_shape(p);
    lemma_tag_shape(q);
    let s = p.tag_spec();
    let t = q.tag_spec();
    assert(key[a.len() as int] == s[0]);
    assert(key[b.len() as int] == t[0]);
    assert(a.len() == b.len()) by {
        if a.len() < b.len() {
            assert(b[a.len() as int] == key[a.len() as int]);
        } else if b.len() < a.len() {
            assert(a[b.len() as int] == key[b.len() as int]);
        }
    }
    let at = a.len() as int;
    assert(s.len() == t.len()) by {
        if s.len() < t.len() {
            assert(key[at + s.len() - 1] == s[s.len() - 1]);
            assert(key[at + s.len() - 1] == t[s.len() - 1]);
        } else if t.len() < s.len() {
            assert(key[at + t.len() - 1] == t[t.len() - 1]);
            assert(key[at + t.len() - 1] == s[t.len() - 1]);
        }
    }
    assert forall|i: int| 0 <= i < s.len() implies s[i] == t[i] by {
        assert(key[at + i] == s[i]);
        assert(key[at + i] == t[i]);
    }
    assert(s =~= t);
}

/// A tag starts with an opening brace, and its only closing brace ends it.
proof fn lemma_tag_shape(p: Partition)
    ensures
        p.tag_spec().len() >= 2,
        p.tag_spec()[0] == '{',
        p.tag_spec().last() == '}',
        forall|i: int| 0 <= i < p.tag_spec().len() - 1 ==> (#[trigger] p.tag_spec()[i]) != '}',
{
    reveal_strlit("{");
    reveal_strlit("fp");
    reveal_strlit("b");
    reveal_strlit("q");
    reveal_strlit(":");
    reveal_strlit("}");
    lemma_digits(p.index as nat);
    let prefix = p.family.prefix_spec()@;
    let digits = numbers::decimal(p.index as int);
    assert(digits == numbers::decimal_nat(p.index as nat));
    let tag = p.tag_spec();
    let head = "{"@ + prefix + ":"@;
    assert(tag =~= head + digits + "}"@);
    assert forall|i: int| 0 <= i < tag.len() - 1 implies (#[trigger] tag[i]) != '}' by {
        if i < head.len() {
            assert(tag[i] == head[i]);
        } else {
            assert(tag[i] == digits[i - head.len()]);
        }
    }
}

/// No opening brace stands before the tag of a key.
proof fn lemma_heads()
    ensures
        !"ff:attempt:"@.contains('{'),
        !"ff:exec:"@.contains('{'),
        !"ff:flow:"@.contains('{'),
        !"ff:idx:"@.contains('{'),
        !"ff:noop:"@.contains('{'),
        !"ff:quota:"@.contains('{'),
        !"ff:sec:"@.contains('{'),
        !"ff:sigdedup:"@.contains('{'),
        !"ff:signal:"@.contains('{'),
        !"ff:stream:"@.contains('{'),
        !"ff:wp:"@.contains('{'),
{
    reveal_strlit("ff:attempt:");
    assert("ff:attempt:"@ =~= seq!['f', 'f', ':', 'a', 't', 't', 'e', 'm', 'p', 't', ':']);
    reveal_strlit("ff:exec:");
    assert("ff:exec:"@ =~= seq!['f', 'f', ':', 'e', 'x', 'e', 'c', ':']);
    reveal_strlit("ff:flow:");
    assert("ff:flow:"@ =~= seq!['f', 'f', ':', 'f', 'l', 'o', 'w', ':']);
    reveal_strlit("ff:idx:");
    assert("ff:idx:"@ =~= seq!['f', 'f', ':', 'i', 'd', 'x', ':']);
    reveal_strlit("ff:noop:");
    assert("ff:noop:"@ =~= seq!['f', 'f', ':', 'n', 'o', 'o', 'p', ':']);
    reveal_strlit("ff:quota:");
    assert("ff:quota:"@ =~= seq!['f', 'f', ':', 'q', 'u', 'o', 't', 'a', ':']);
    reveal_strlit("ff:sec:");
    assert("ff:sec:"@ =~= seq!['f', 'f', ':', 's', 'e', 'c', ':']);
    reveal_strlit("ff:sigdedup:");
    assert("ff:sigdedup:"@ =~= seq!['f', 'f', ':', 's', 'i', 'g', 'd', 'e', 'd', 'u', 'p', ':']);
    reveal_strlit("ff:signal:");
    assert("ff:signal:"@ =~= seq!['f', 'f', ':', 's', 'i', 'g', 'n', 'a', 'l', ':']);
    reveal_strlit("ff:stream:");
    assert("ff:stream:"@ =~= seq!['f', 'f', ':', 's', 't', 'r', 'e', 'a', 'm', ':']);
    reveal_strlit("ff:wp:");
    assert("ff:wp:"@ =~= seq!['f', 'f', ':', 'w', 'p', ':']);
}

/// Every key of an execution is routed by the tag of its partition.
pub proof fn law_exec_keys_share_a_slot(
    k: ExecKeyContext,
    index: AttemptIndex,
    wp_id: Seq<char>,
    sig_id: Seq<char>,
    idempotency_key: Seq<char>,
    edge_id: Seq<char>,
)
    ensures
        routed_by(k.core_key_spec(), k.tag_spec()),
        routed_by(k.payload_spec(), k.tag_spec()),
        routed_by(k.result_spec(), k.tag_spec()),
        routed_by(k.policy_spec(), k.tag_spec()),
        routed_by(k.tags_spec(), k.tag_spec()),
        routed_by(k.lease_current_spec(), k.tag_spec()),
        routed_by(k.lease_history_spec(), k.tag_spec()),
        routed_by(k.claim_grant_spec(), k.tag_spec()),
        routed_by(k.attempts_spec(), k.tag_spec()),
        routed_by(k.attempt_hash_spec(index), k.tag_spec()),
        routed_by(k.attempt_usage_spec(index), k.tag_spec()),
        routed_by(k.attempt_policy_spec(index), k.tag_spec()),
        routed_by(k.stream_spec(index), k.tag_spec()),
        routed_by(k.stream_meta_spec(index), k.tag_spec()),
        routed_by(k.suspension_current_spec(), k.tag_spec()),
        routed_by(k.waitpoints_spec(), k.tag_spec()),
        routed_by(k.waitpoint_spec(wp_id), k.tag_spec()),
        routed_by(k.waitpoint_signals_spec(wp_id), k.tag_spec()),
        routed_by(k.waitpoint_condition_spec(wp_id), k.tag_spec()),
        routed_by(k.signal_spec(sig_id), k.tag_spec()),
        routed_by(k.signal_payload_spec(sig_id), k.tag_spec()),
        routed_by(k.exec_signals_spec(), k.tag_spec()),
        routed_by(k.signal_dedup_spec(wp_id, idempotency_key), k.tag_spec()),
        routed_by(k.deps_meta_spec(), k.tag_spec()),
        routed_by(k.dep_edge_spec(edge_id), k.tag_spec()),
        routed_by(k.deps_unresolved_spec(), k.tag_spec()),
        routed_by(k.deps_all_edges_spec(), k.tag_spec()),
        routed_by(k.noop_spec(), k.tag_spec()),
{
    lemma_heads();
    lemma_routed(
        "ff:exec:"@,
        k.tag_spec(),
        ":"@ + k.eid_spec() + ":core"@,
        k.core_key_spec(),
    );
    lemma_routed(
        "ff:exec:"@,
        k.tag_spec(),
        ":"@ + k.eid_spec() + ":payload"@,
        k.payload_spec(),
    );
    lemma_routed(
        "ff:exec:"@,
        k.tag_spec(),
        ":"@ + k.eid_spec() + ":result"@,
        k.result_spec(),
    );
    lemma_routed(
        "ff:exec:"@,
        k.tag_spec(),
        ":"@ + k.eid_spec() + ":policy"@,
        k.policy_spec(),
    );
    lemma_routed(
        "ff:exec:"@,
        k.tag_spec(),
        ":"@ + k.eid_spec() + ":tags"@,
        k.tags_spec(),
    );
    lemma_routed(
        "ff:exec:"@,
        k.tag_spec(),
        ":"@ + k.eid_spec() + ":lease:current"@,
        k.lease_current_spec(),
    );
    lemma_routed(
        "ff:exec:"@,
        k.tag_spec(),
        ":"@ + k.eid_spec() + ":lease:history"@,
        k.lease_history_spec(),
    );
    lemma_routed(
        "ff:exec:"@,
        k.tag_spec(),
        ":"@ + k.eid_spec() + ":claim_grant"@,
        k.claim_grant_spec(),
    );
    lemma_routed(
        "ff:exec:"@,
        k.tag_spec(),
        ":"@ + k.eid_spec() + ":attempts"@,
        k.attempts_spec(),
    );
    lemma_routed(
        "ff:attempt:"@,
        k.tag_spec(),
        ":"@ + k.eid_spec() + ":"@ + numbers::decimal(index.0 as int),
        k.attempt_hash_spec(index),
    );
    lemma_routed(
        "ff:attempt:"@,
        k.tag_spec(),
        ":"@ + k.eid_spec() + ":"@ + numbers::decimal(index.0 as int) + ":usage"@,
        k.attempt_usage_spec(index),
    );
    lemma_routed(
        "ff:attempt:"@,
        k.tag_spec(),
        ":"@ + k.eid_spec() + ":"@ + numbers::decimal(index.0 as int) + ":policy"@,
        k.attempt_policy_spec(index),
    );
    lemma_routed(
        "ff:stream:"@,
        k.tag_spec(),
        ":"@ + k.eid_spec() + ":"@ + numbers::decimal(index.0 as int),
        k.stream_spec(index),
    );
    lemma_routed(
        "ff:stream:"@,
        k.tag_spec(),
        ":"@ + k.eid_spec() + ":"@ + numbers::decimal(index.0 as int) + ":meta"@,
        k.stream_meta_spec(index),
    );
    lemma_routed(
        "ff:exec:"@,
        k.tag_spec(),
        ":"@ + k.eid_spec() + ":suspension:current"@,
        k.suspension_current_spec(),
    );
    lemma_routed(
        "ff:exec:"@,
        k.tag_spec(),
        ":"@ + k.eid_spec() + ":waitpoints"@,
        k.waitpoints_spec(),
    );
    lemma_routed(
        "ff:wp:"@,
        k.tag_spec(),
        ":"@ + wp_id,
        k.waitpoint_spec(wp_id),
    );
    lemma_routed(
        "ff:wp:"@,
        k.tag_spec(),
        ":"@ + wp_id + ":signals"@,
        k.waitpoint_signals_spec(wp_id),
    );
    lemma_routed(
        "ff:wp:"@,
        k.tag_spec(),
        ":"@ + wp_id + ":condition"@,
        k.waitpoint_condition_spec(wp_id),
    );
    lemma_routed(
        "ff:signal:"@,
        k.tag_spec(),
        ":"@ + sig_id,
        k.signal_spec(sig_id),
    );
    lemma_routed(
        "ff:signal:"@,
        k.tag_spec(),
        ":"@ + sig_id + ":payload"@,
        k.signal_payload_spec(sig_id),
    );
    lemma_routed(
        "ff:exec:"@,
        k.tag_spec(),
        ":"@ + k.eid_spec() + ":signals"@,
        k.exec_signals_spec(),
    );
    lemma_routed(
        "ff:sigdedup:"@,
        k.tag_spec(),
        ":"@ + wp_id + ":"@ + idempotency_key,
        k.signal_dedup_spec(wp_id, idempotency_key),
    );
    lemma_routed(
        "ff:exec:"@,
        k.tag_spec(),
        ":"@ + k.eid_spec() + ":deps:meta"@,
        k.deps_meta_spec(),
    );
    lemma_routed(
        "ff:exec:"@,
        k.tag_spec(),
        ":"@ + k.eid_spec() + ":dep:"@ + edge_id,
        k.dep_edge_spec(edge_id),
    );
    lemma_routed(
        "ff:exec:"@,
        k.tag_spec(),
        ":"@ + k.eid_spec() + ":deps:unresolved"@,
        k.deps_unresolved_spec(),
    );
    lemma_routed(
        "ff:exec:"@,
        k.tag_spec(),
        ":"@ + k.eid_spec() + ":deps:all_edges"@,
        k.deps_all_edges_spec(),
    );
    lemma_routed(
        "ff:noop:"@,
        k.tag_spec(),
        Seq::<char>::empty(),
        k.noop_spec(),
    );
}

/// Every key of a partition's indexes is routed by the tag of its partition.
pub proof fn law_index_keys_share_a_slot(
    k: IndexKeys,
    lane_id: Seq<char>,
    wid: Seq<char>,
)
    ensures
        routed_by(k.lane_eligible_spec(lane_id), k.tag_spec()),
        routed_by(k.lane_delayed_spec(lane_id), k.tag_spec()),
        routed_by(k.lane_active_spec(lane_id), k.tag_spec()),
        routed_by(k.lane_terminal_spec(lane_id), k.tag_spec()),
        routed_by(k.lane_blocked_dependencies_spec(lane_id), k.tag_spec()),
        routed_by(k.lane_blocked_budget_spec(lane_id), k.tag_spec()),
        routed_by(k.lane_blocked_quota_spec(lane_id), k.tag_spec()),
        routed_by(k.lane_blocked_route_spec(lane_id), k.tag_spec()),
        routed_by(k.lane_blocked_operator_spec(lane_id), k.tag_spec()),
        routed_by(k.lane_suspended_spec(lane_id), k.tag_spec()),
        routed_by(k.waitpoint_hmac_secrets_spec(), k.tag_spec()),
        routed_by(k.lease_expiry_spec(), k.tag_spec()),
        routed_by(k.worker_leases_spec(wid), k.tag_spec()),
        routed_by(k.suspension_timeout_spec(), k.tag_spec()),
        routed_by(k.pending_waitpoint_expiry_spec(), k.tag_spec()),
        routed_by(k.attempt_timeout_spec(), k.tag_spec()),
        routed_by(k.execution_deadline_spec(), k.tag_spec()),
        routed_by(k.all_executions_spec(), k.tag_spec()),
{
    lemma_heads();
    lemma_routed(
        "ff:idx:"@,
        k.tag_spec(),
        ":lane:"@ + lane_id + ":eligible"@,
        k.lane_eligible_spec(lane_id),
    );
    lemma_routed(
        "ff:idx:"@,
        k.tag_spec(),
        ":lane:"@ + lane_id + ":delayed"@,
        k.lane_delayed_spec(lane_id),
    );
    lemma_routed(
        "ff:idx:"@,
        k.tag_spec(),
        ":lane:"@ + lane_id + ":active"@,
        k.lane_active_spec(lane_id),
    );
    lemma_routed(
        "ff:idx:"@,
        k.tag_spec(),
        ":lane:"@ + lane_id + ":terminal"@,
        k.lane_terminal_spec(lane_id),
    );
    lemma_routed(
        "ff:idx:"@,
        k.tag_spec(),
        ":lane:"@ + lane_id + ":blocked:dependencies"@,
        k.lane_blocked_dependencies_spec(lane_id),
    );
    lemma_routed(
        "ff:idx:"@,
        k.tag_spec(),
        ":lane:"@ + lane_id + ":blocked:budget"@,
        k.lane_blocked_budget_spec(lane_id),
    );
    lemma_routed(
        "ff:idx:"@,
        k.tag_spec(),
        ":lane:"@ + lane_id + ":blocked:quota"@,
        k.lane_blocked_quota_spec(lane_id),
    );
    lemma_routed(
        "ff:idx:"@,
        k.tag_spec(),
        ":lane:"@ + lane_id + ":blocked:route"@,
        k.lane_blocked_route_spec(lane_id),
    );
    lemma_routed(
        "ff:idx:"@,
        k.tag_spec(),
        ":lane:"@ + lane_id + ":blocked:operator"@,
        k.lane_blocked_operator_spec(lane_id),
    );
    lemma_routed(
        "ff:idx:"@,
        k.tag_spec(),
        ":lane:"@ + lane_id + ":suspended"@,
        k.lane_suspended_spec(lane_id),
    );
    lemma_routed(
        "ff:sec:"@,
        k.tag_spec(),
        ":waitpoint_hmac"@,
        k.waitpoint_hmac_secrets_spec(),
    );
    lemma_routed(
        "ff:idx:"@,
        k.tag_spec(),
        ":lease_expiry"@,
        k.lease_expiry_spec(),
    );
    lemma_routed(
        "ff:idx:"@,
        k.tag_spec(),
        ":worker:"@ + wid + ":leases"@,
        k.worker_leases_spec(wid),
    );
    lemma_routed(
        "ff:idx:"@,
        k.tag_spec(),
        ":suspension_timeout"@,
        k.suspension_timeout_spec(),
    );
    lemma_routed(
        "ff:idx:"@,
        k.tag_spec(),
        ":pending_waitpoint_expiry"@,
        k.pending_waitpoint_expiry_spec(),
    );
    lemma_routed(
        "ff:idx:"@,
        k.tag_spec(),
        ":attempt_timeout"@,
        k.attempt_timeout_spec(),
    );
    lemma_routed(
        "ff:idx:"@,
        k.tag_spec(),
        ":execution_deadline"@,
        k.execution_deadline_spec(),
    );
    lemma_routed(
        "ff:idx:"@,
        k.tag_spec(),
        ":all_executions"@,
        k.all_executions_spec(),
    );
}

/// Every key of a flow is routed by the tag of its partition.
pub proof fn law_flow_keys_share_a_slot(
    k: FlowKeyContext,
    edge_id: Seq<char>,
    upstream_eid: Seq<char>,
    downstream_eid: Seq<char>,
    mutation_id: Seq<char>,
)
    ensures
        routed_by(k.core_key_spec(), k.tag_spec()),
        routed_by(k.members_spec(), k.tag_spec()),
        routed_by(k.tags_spec(), k.tag_spec()),
        routed_by(k.edge_spec(edge_id), k.tag_spec()),
        routed_by(k.outgoing_spec(upstream_eid), k.tag_spec()),
        routed_by(k.incoming_spec(downstream_eid), k.tag_spec()),
        routed_by(k.edgegroup_spec(downstream_eid), k.tag_spec()),
        routed_by(k.grant_spec(mutation_id), k.tag_spec()),
        routed_by(k.pending_cancels_spec(), k.tag_spec()),
{
    lemma_heads();
    lemma_routed(
        "ff:flow:"@,
        k.tag_spec(),
        ":"@ + k.fid_spec() + ":core"@,
        k.core_key_spec(),
    );
    lemma_routed(
        "ff:flow:"@,
        k.tag_spec(),
        ":"@ + k.fid_spec() + ":members"@,
        k.members_spec(),
    );
    lemma_routed(
        "ff:flow:"@,
        k.tag_spec(),
        ":"@ + k.fid_spec() + ":tags"@,
        k.tags_spec(),
    );
    lemma_routed(
        "ff:flow:"@,
        k.tag_spec(),
        ":"@ + k.fid_spec() + ":edge:"@ + edge_id,
        k.edge_spec(edge_id),
    );
    lemma_routed(
        "ff:flow:"@,
        k.tag_spec(),
        ":"@ + k.fid_spec() + ":out:"@ + upstream_eid,
        k.outgoing_spec(upstream_eid),
    );
    lemma_routed(
        "ff:flow:"@,
        k.tag_spec(),
        ":"@ + k.fid_spec() + ":in:"@ + downstream_eid,
        k.incoming_spec(downstream_eid),
    );
    lemma_routed(
        "ff:flow:"@,
        k.tag_spec(),
        ":"@ + k.fid_spec() + ":edgegroup:"@ + downstream_eid,
        k.edgegroup_spec(downstream_eid),
    );
    lemma_routed(
        "ff:flow:"@,
        k.tag_spec(),
        ":"@ + k.fid_spec() + ":grant:"@ + mutation_id,
        k.grant_spec(mutation_id),
    );
    lemma_routed(
        "ff:flow:"@,
        k.tag_spec(),
        ":"@ + k.fid_spec() + ":pending_cancels"@,
        k.pending_cancels_spec(),
    );
}

/// Every key of a partition's flow indexes is routed by the tag of its partition.
pub proof fn law_flow_index_keys_share_a_slot(
    k: FlowIndexKeys,
)
    ensures
        routed_by(k.flow_index_spec(), k.tag_spec()),
        routed_by(k.cancel_backlog_spec(), k.tag_spec()),
        routed_by(k.pending_cancel_groups_spec(), k.tag_spec()),
{
    lemma_heads();
    lemma_routed(
        "ff:idx:"@,
        k.tag_spec(),
        ":flow_index"@,
        k.flow_index_spec(),
    );
    lemma_routed(
        "ff:idx:"@,
        k.tag_spec(),
        ":cancel_backlog"@,
        k.cancel_backlog_spec(),
    );
    lemma_routed(
        "ff:idx:"@,
        k.tag_spec(),
        ":pending_cancel_groups"@,
        k.pending_cancel_groups_spec(),
    );
}

/// Every key of a quota policy is routed by the tag of its partition.
pub proof fn law_quota_keys_share_a_slot(
    k: QuotaKeyContext,
    dimension: Seq<char>,
    eid: Seq<char>,
)
    ensures
        routed_by(k.definition_spec(), k.tag_spec()),
        routed_by(k.window_spec(dimension), k.tag_spec()),
        routed_by(k.concurrency_spec(), k.tag_spec()),
        routed_by(k.admitted_spec(eid), k.tag_spec()),
        routed_by(k.admitted_set_spec(), k.tag_spec()),
{
    lemma_heads();
    lemma_routed(
        "ff:quota:"@,
        k.tag_spec(),
        ":"@ + k.qid_spec(),
        k.definition_spec(),
    );
    lemma_routed(
        "ff:quota:"@,
        k.tag_spec(),
        ":"@ + k.qid_spec() + ":window:"@ + dimension,
        k.window_spec(dimension),
    );
    lemma_routed(
        "ff:quota:"@,
        k.tag_spec(),
        ":"@ + k.qid_spec() + ":concurrency"@,
        k.concurrency_spec(),
    );
    lemma_routed(
        "ff:quota:"@,
        k.tag_spec(),
        ":"@ + k.qid_spec() + ":admitted:"@ + eid,
        k.admitted_spec(eid),
    );
    lemma_routed(
        "ff:quota:"@,
        k.tag_spec(),
        ":"@ + k.qid_spec() + ":admitted_set"@,
        k.admitted_set_spec(),
    );
}

/// Every key of a suspension lies in the slot of its execution, provided that both
/// key contexts are of the execution's partition.
pub proof fn law_suspension_is_one_slot(t: Suspender<'_>, q: SuspendRequest<'_>, i: int)
    requires
        t.idx.tag_spec() == t.ctx.tag_spec(),
        0 <= i < suspend::suspend_keys(t, q).len(),
    ensures
        routed_by(suspend::suspend_keys(t, q)[i], t.ctx.tag_spec()),
{
    law_exec_keys_share_a_slot(*t.ctx, t.attempt_index, q.waitpoint_id@, q.waitpoint_id@, q.waitpoint_id@, q.waitpoint_id@);
    law_index_keys_share_a_slot(*t.idx, t.lane_id@, t.worker_instance_id@);
}

} // verus!
