//! Storage keys.
//!
//! Every key of a partition carries the partition's hash tag, so that one server
//! function can reach all of them.

use vstd::prelude::*;
use vstd::string::*;

use crate::ids::{AttemptIndex, EdgeId, ExecutionId, FlowId, QuotaPolicyId, SignalId, WaitpointId};
use crate::names::{LaneId, WorkerInstanceId};
use crate::numbers;
use crate::partition::Partition;

verus! {

/// Keys of one execution.
pub struct ExecKeyContext {
    tag: String,
    eid: String,
}

impl ExecKeyContext {
    /// The hash tag in every key.
    pub closed spec fn tag_spec(self) -> Seq<char> {
        self.tag@
    }

    /// The text of the execution.
    pub closed spec fn eid_spec(self) -> Seq<char> {
        self.eid@
    }

    /// Keys of the execution in its partition.
    pub fn new(partition: &Partition, eid: &ExecutionId) -> (r: ExecKeyContext)
        ensures
            r.tag_spec() == partition.tag_spec(),
            r.eid_spec() == eid@,
    {
        ExecKeyContext { tag: partition.hash_tag(), eid: eid.as_str().to_owned() }
    }

    /// The hash tag in every key.
    pub fn hash_tag(&self) -> (r: &str)
        ensures
            r@ == self.tag_spec(),
    {
        self.tag.as_str()
    }

    /// `ff:exec:<..>:<..>:core`.
    pub open spec fn core_key_spec(self) -> Seq<char> {
        "ff:exec:"@ + self.tag_spec() + ":"@ + self.eid_spec() + ":core"@
    }

    /// `ff:exec:<..>:<..>:core`.
    pub fn core_key(&self) -> (r: String)
        ensures
            r@ == self.core_key_spec(),
    {
        let mut out = "ff:exec:".to_owned();
        out.append(self.tag.as_str());
        out.append(":");
        out.append(self.eid.as_str());
        out.append(":core");
        out
    }

    /// `ff:exec:<..>:<..>:payload`.
    pub open spec fn payload_spec(self) -> Seq<char> {
        "ff:exec:"@ + self.tag_spec() + ":"@ + self.eid_spec() + ":payload"@
    }

    /// `ff:exec:<..>:<..>:payload`.
    pub fn payload(&self) -> (r: String)
        ensures
            r@ == self.payload_spec(),
    {
        let mut out = "ff:exec:".to_owned();
        out.append(self.tag.as_str());
        out.append(":");
        out.append(self.eid.as_str());
        out.append(":payload");
        out
    }

    /// `ff:exec:<..>:<..>:result`.
    pub open spec fn result_spec(self) -> Seq<char> {
        "ff:exec:"@ + self.tag_spec() + ":"@ + self.eid_spec() + ":result"@
    }

    /// `ff:exec:<..>:<..>:result`.
    pub fn result(&self) -> (r: String)
        ensures
            r@ == self.result_spec(),
    {
        let mut out = "ff:exec:".to_owned();
        out.append(self.tag.as_str());
        out.append(":");
        out.append(self.eid.as_str());
        out.append(":result");
        out
    }

    /// `ff:exec:<..>:<..>:policy`.
    pub open spec fn policy_spec(self) -> Seq<char> {
        "ff:exec:"@ + self.tag_spec() + ":"@ + self.eid_spec() + ":policy"@
    }

    /// `ff:exec:<..>:<..>:policy`.
    pub fn policy(&self) -> (r: String)
        ensures
            r@ == self.policy_spec(),
    {
        let mut out = "ff:exec:".to_owned();
        out.append(self.tag.as_str());
        out.append(":");
        out.append(self.eid.as_str());
        out.append(":policy");
        out
    }

    /// `ff:exec:<..>:<..>:tags`.
    pub open spec fn tags_spec(self) -> Seq<char> {
        "ff:exec:"@ + self.tag_spec() + ":"@ + self.eid_spec() + ":tags"@
    }

    /// `ff:exec:<..>:<..>:tags`.
    pub fn tags(&self) -> (r: String)
        ensures
            r@ == self.tags_spec(),
    {
        let mut out = "ff:exec:".to_owned();
        out.append(self.tag.as_str());
        out.append(":");
        out.append(self.eid.as_str());
        out.append(":tags");
        out
    }

    /// `ff:exec:<..>:<..>:lease:current`.
    pub open spec fn lease_current_spec(self) -> Seq<char> {
        "ff:exec:"@ + self.tag_spec() + ":"@ + self.eid_spec() + ":lease:current"@
    }

    /// `ff:exec:<..>:<..>:lease:current`.
    pub fn lease_current(&self) -> (r: String)
        ensures
            r@ == self.lease_current_spec(),
    {
        let mut out = "ff:exec:".to_owned();
        out.append(self.tag.as_str());
        out.append(":");
        out.append(self.eid.as_str());
        out.append(":lease:current");
        out
    }

    /// `ff:exec:<..>:<..>:lease:history`.
    pub open spec fn lease_history_spec(self) -> Seq<char> {
        "ff:exec:"@ + self.tag_spec() + ":"@ + self.eid_spec() + ":lease:history"@
    }

    /// `ff:exec:<..>:<..>:lease:history`.
    pub fn lease_history(&self) -> (r: String)
        ensures
            r@ == self.lease_history_spec(),
    {
        let mut out = "ff:exec:".to_owned();
        out.append(self.tag.as_str());
        out.append(":");
        out.append(self.eid.as_str());
        out.append(":lease:history");
        out
    }

    /// `ff:exec:<..>:<..>:claim_grant`.
    pub open spec fn claim_grant_spec(self) -> Seq<char> {
        "ff:exec:"@ + self.tag_spec() + ":"@ + self.eid_spec() + ":claim_grant"@
    }

    /// `ff:exec:<..>:<..>:claim_grant`.
    pub fn claim_grant(&self) -> (r: String)
        ensures
            r@ == self.claim_grant_spec(),
    {
        let mut out = "ff:exec:".to_owned();
        out.append(self.tag.as_str());
        out.append(":");
        out.append(self.eid.as_str());
        out.append(":claim_grant");
        out
    }

    /// `ff:exec:<..>:<..>:attempts`.
    pub open spec fn attempts_spec(self) -> Seq<char> {
        "ff:exec:"@ + self.tag_spec() + ":"@ + self.eid_spec() + ":attempts"@
    }

    /// `ff:exec:<..>:<..>:attempts`.
    pub fn attempts(&self) -> (r: String)
        ensures
            r@ == self.attempts_spec(),
    {
        let mut out = "ff:exec:".to_owned();
        out.append(self.tag.as_str());
        out.append(":");
        out.append(self.eid.as_str());
        out.append(":attempts");
        out
    }

    /// `ff:attempt:<..>:<..>:<..>`.
    pub open spec fn attempt_hash_spec(self, index: AttemptIndex) -> Seq<char> {
        "ff:attempt:"@ + self.tag_spec() + ":"@ + self.eid_spec() + ":"@ + numbers::decimal(index.0 as int)
    }

    /// `ff:attempt:<..>:<..>:<..>`.
    pub fn attempt_hash(&self, index: AttemptIndex) -> (r: String)
        ensures
            r@ == self.attempt_hash_spec(index),
    {
        let mut out = "ff:attempt:".to_owned();
        out.append(self.tag.as_str());
        out.append(":");
        out.append(self.eid.as_str());
        out.append(":");
        out.append(numbers::u64_text(index.0 as u64).as_str());
        out
    }

    /// `ff:attempt:<..>:<..>:<..>:usage`.
    pub open spec fn attempt_usage_spec(self, index: AttemptIndex) -> Seq<char> {
        "ff:attempt:"@ + self.tag_spec() + ":"@ + self.eid_spec() + ":"@ + numbers::decimal(index.0 as int) + ":usage"@
    }

    /// `ff:attempt:<..>:<..>:<..>:usage`.
    pub fn attempt_usage(&self, index: AttemptIndex) -> (r: String)
        ensures
            r@ == self.attempt_usage_spec(index),
    {
        let mut out = "ff:attempt:".to_owned();
        out.append(self.tag.as_str());
        out.append(":");
        out.append(self.eid.as_str());
        out.append(":");
        out.append(numbers::u64_text(index.0 as u64).as_str());
        out.append(":usage");
        out
    }

    /// `ff:attempt:<..>:<..>:<..>:policy`.
    pub open spec fn attempt_policy_spec(self, index: AttemptIndex) -> Seq<char> {
        "ff:attempt:"@ + self.tag_spec() + ":"@ + self.eid_spec() + ":"@ + numbers::decimal(index.0 as int) + ":policy"@
    }

    /// `ff:attempt:<..>:<..>:<..>:policy`.
    pub fn attempt_policy(&self, index: AttemptIndex) -> (r: String)
        ensures
            r@ == self.attempt_policy_spec(index),
    {
        let mut out = "ff:attempt:".to_owned();
        out.append(self.tag.as_str());
        out.append(":");
        out.append(self.eid.as_str());
        out.append(":");
        out.append(numbers::u64_text(index.0 as u64).as_str());
        out.append(":policy");
        out
    }

    /// `ff:stream:<..>:<..>:<..>`.
    pub open spec fn stream_spec(self, index: AttemptIndex) -> Seq<char> {
        "ff:stream:"@ + self.tag_spec() + ":"@ + self.eid_spec() + ":"@ + numbers::decimal(index.0 as int)
    }

    /// `ff:stream:<..>:<..>:<..>`.
    pub fn stream(&self, index: AttemptIndex) -> (r: String)
        ensures
            r@ == self.stream_spec(index),
    {
        let mut out = "ff:stream:".to_owned();
        out.append(self.tag.as_str());
        out.append(":");
        out.append(self.eid.as_str());
        out.append(":");
        out.append(numbers::u64_text(index.0 as u64).as_str());
        out
    }

    /// `ff:stream:<..>:<..>:<..>:meta`.
    pub open spec fn stream_meta_spec(self, index: AttemptIndex) -> Seq<char> {
        "ff:stream:"@ + self.tag_spec() + ":"@ + self.eid_spec() + ":"@ + numbers::decimal(index.0 as int) + ":meta"@
    }

    /// `ff:stream:<..>:<..>:<..>:meta`.
    pub fn stream_meta(&self, index: AttemptIndex) -> (r: String)
        ensures
            r@ == self.stream_meta_spec(index),
    {
        let mut out = "ff:stream:".to_owned();
        out.append(self.tag.as_str());
        out.append(":");
        out.append(self.eid.as_str());
        out.append(":");
        out.append(numbers::u64_text(index.0 as u64).as_str());
        out.append(":meta");
        out
    }

    /// `ff:exec:<..>:<..>:suspension:current`.
    pub open spec fn suspension_current_spec(self) -> Seq<char> {
        "ff:exec:"@ + self.tag_spec() + ":"@ + self.eid_spec() + ":suspension:current"@
    }

    /// `ff:exec:<..>:<..>:suspension:current`.
    pub fn suspension_current(&self) -> (r: String)
        ensures
            r@ == self.suspension_current_spec(),
    {
        let mut out = "ff:exec:".to_owned();
        out.append(self.tag.as_str());
        out.append(":");
        out.append(self.eid.as_str());
        out.append(":suspension:current");
        out
    }

    /// `ff:exec:<..>:<..>:waitpoints`.
    pub open spec fn waitpoints_spec(self) -> Seq<char> {
        "ff:exec:"@ + self.tag_spec() + ":"@ + self.eid_spec() + ":waitpoints"@
    }

    /// `ff:exec:<..>:<..>:waitpoints`.
    pub fn waitpoints(&self) -> (r: String)
        ensures
            r@ == self.waitpoints_spec(),
    {
        let mut out = "ff:exec:".to_owned();
        out.append(self.tag.as_str());
        out.append(":");
        out.append(self.eid.as_str());
        out.append(":waitpoints");
        out
    }

    /// `ff:wp:<..>:<..>`.
    pub open spec fn waitpoint_spec(self, wp_id: Seq<char>) -> Seq<char> {
        "ff:wp:"@ + self.tag_spec() + ":"@ + wp_id
    }

    /// `ff:wp:<..>:<..>`.
    pub fn waitpoint(&self, wp_id: &WaitpointId) -> (r: String)
        ensures
            r@ == self.waitpoint_spec(wp_id@),
    {
        let mut out = "ff:wp:".to_owned();
        out.append(self.tag.as_str());
        out.append(":");
        out.append(wp_id.as_str());
        out
    }

    /// `ff:wp:<..>:<..>:signals`.
    pub open spec fn waitpoint_signals_spec(self, wp_id: Seq<char>) -> Seq<char> {
        "ff:wp:"@ + self.tag_spec() + ":"@ + wp_id + ":signals"@
    }

    /// `ff:wp:<..>:<..>:signals`.
    pub fn waitpoint_signals(&self, wp_id: &WaitpointId) -> (r: String)
        ensures
            r@ == self.waitpoint_signals_spec(wp_id@),
    {
        let mut out = "ff:wp:".to_owned();
        out.append(self.tag.as_str());
        out.append(":");
        out.append(wp_id.as_str());
        out.append(":signals");
        out
    }

    /// `ff:wp:<..>:<..>:condition`.
    pub open spec fn waitpoint_condition_spec(self, wp_id: Seq<char>) -> Seq<char> {
        "ff:wp:"@ + self.tag_spec() + ":"@ + wp_id + ":condition"@
    }

    /// `ff:wp:<..>:<..>:condition`.
    pub fn waitpoint_condition(&self, wp_id: &WaitpointId) -> (r: String)
        ensures
            r@ == self.waitpoint_condition_spec(wp_id@),
    {
        let mut out = "ff:wp:".to_owned();
        out.append(self.tag.as_str());
        out.append(":");
        out.append(wp_id.as_str());
        out.append(":condition");
        out
    }

    /// `ff:signal:<..>:<..>`.
    pub open spec fn signal_spec(self, sig_id: Seq<char>) -> Seq<char> {
        "ff:signal:"@ + self.tag_spec() + ":"@ + sig_id
    }

    /// `ff:signal:<..>:<..>`.
    pub fn signal(&self, sig_id: &SignalId) -> (r: String)
        ensures
            r@ == self.signal_spec(sig_id@),
    {
        let mut out = "ff:signal:".to_owned();
        out.append(self.tag.as_str());
        out.append(":");
        out.append(sig_id.as_str());
        out
    }

    /// `ff:signal:<..>:<..>:payload`.
    pub open spec fn signal_payload_spec(self, sig_id: Seq<char>) -> Seq<char> {
        "ff:signal:"@ + self.tag_spec() + ":"@ + sig_id + ":payload"@
    }

    /// `ff:signal:<..>:<..>:payload`.
    pub fn signal_payload(&self, sig_id: &SignalId) -> (r: String)
        ensures
            r@ == self.signal_payload_spec(sig_id@),
    {
        let mut out = "ff:signal:".to_owned();
        out.append(self.tag.as_str());
        out.append(":");
        out.append(sig_id.as_str());
        out.append(":payload");
        out
    }

    /// `ff:exec:<..>:<..>:signals`.
    pub open spec fn exec_signals_spec(self) -> Seq<char> {
        "ff:exec:"@ + self.tag_spec() + ":"@ + self.eid_spec() + ":signals"@
    }

    /// `ff:exec:<..>:<..>:signals`.
    pub fn exec_signals(&self) -> (r: String)
        ensures
            r@ == self.exec_signals_spec(),
    {
        let mut out = "ff:exec:".to_owned();
        out.append(self.tag.as_str());
        out.append(":");
        out.append(self.eid.as_str());
        out.append(":signals");
        out
    }

    /// `ff:sigdedup:<..>:<..>:<..>`.
    pub open spec fn signal_dedup_spec(self, wp_id: Seq<char>, idempotency_key: Seq<char>) -> Seq<char> {
        "ff:sigdedup:"@ + self.tag_spec() + ":"@ + wp_id + ":"@ + idempotency_key
    }

    /// `ff:sigdedup:<..>:<..>:<..>`.
    pub fn signal_dedup(&self, wp_id: &WaitpointId, idempotency_key: &str) -> (r: String)
        ensures
            r@ == self.signal_dedup_spec(wp_id@, idempotency_key@),
    {
        let mut out = "ff:sigdedup:".to_owned();
        out.append(self.tag.as_str());
        out.append(":");
        out.append(wp_id.as_str());
        out.append(":");
        out.append(idempotency_key);
        out
    }

    /// `ff:exec:<..>:<..>:deps:meta`.
    pub open spec fn deps_meta_spec(self) -> Seq<char> {
        "ff:exec:"@ + self.tag_spec() + ":"@ + self.eid_spec() + ":deps:meta"@
    }

    /// `ff:exec:<..>:<..>:deps:meta`.
    pub fn deps_meta(&self) -> (r: String)
        ensures
            r@ == self.deps_meta_spec(),
    {
        let mut out = "ff:exec:".to_owned();
        out.append(self.tag.as_str());
        out.append(":");
        out.append(self.eid.as_str());
        out.append(":deps:meta");
        out
    }

    /// `ff:exec:<..>:<..>:dep:<..>`.
    pub open spec fn dep_edge_spec(self, edge_id: Seq<char>) -> Seq<char> {
        "ff:exec:"@ + self.tag_spec() + ":"@ + self.eid_spec() + ":dep:"@ + edge_id
    }

    /// `ff:exec:<..>:<..>:dep:<..>`.
    pub fn dep_edge(&self, edge_id: &EdgeId) -> (r: String)
        ensures
            r@ == self.dep_edge_spec(edge_id@),
    {
        let mut out = "ff:exec:".to_owned();
        out.append(self.tag.as_str());
        out.append(":");
        out.append(self.eid.as_str());
        out.append(":dep:");
        out.append(edge_id.as_str());
        out
    }

    /// `ff:exec:<..>:<..>:deps:unresolved`.
    pub open spec fn deps_unresolved_spec(self) -> Seq<char> {
        "ff:exec:"@ + self.tag_spec() + ":"@ + self.eid_spec() + ":deps:unresolved"@
    }

    /// `ff:exec:<..>:<..>:deps:unresolved`.
    pub fn deps_unresolved(&self) -> (r: String)
        ensures
            r@ == self.deps_unresolved_spec(),
    {
        let mut out = "ff:exec:".to_owned();
        out.append(self.tag.as_str());
        out.append(":");
        out.append(self.eid.as_str());
        out.append(":deps:unresolved");
        out
    }

    /// `ff:exec:<..>:<..>:deps:all_edges`.
    pub open spec fn deps_all_edges_spec(self) -> Seq<char> {
        "ff:exec:"@ + self.tag_spec() + ":"@ + self.eid_spec() + ":deps:all_edges"@
    }

    /// `ff:exec:<..>:<..>:deps:all_edges`.
    pub fn deps_all_edges(&self) -> (r: String)
        ensures
            r@ == self.deps_all_edges_spec(),
    {
        let mut out = "ff:exec:".to_owned();
        out.append(self.tag.as_str());
        out.append(":");
        out.append(self.eid.as_str());
        out.append(":deps:all_edges");
        out
    }

    /// `ff:noop:<..>`.
    pub open spec fn noop_spec(self) -> Seq<char> {
        "ff:noop:"@ + self.tag_spec()
    }

    /// `ff:noop:<..>`.
    pub fn noop(&self) -> (r: String)
        ensures
            r@ == self.noop_spec(),
    {
        let mut out = "ff:noop:".to_owned();
        out.append(self.tag.as_str());
        out
    }

}

/// Index keys of one partition.
pub struct IndexKeys {
    tag: String,
}

impl IndexKeys {
    /// The hash tag in every key.
    pub closed spec fn tag_spec(self) -> Seq<char> {
        self.tag@
    }

    /// Keys of the partition.
    pub fn new(partition: &Partition) -> (r: IndexKeys)
        ensures
            r.tag_spec() == partition.tag_spec(),
    {
        IndexKeys { tag: partition.hash_tag() }
    }

    /// The hash tag in every key.
    pub fn hash_tag(&self) -> (r: &str)
        ensures
            r@ == self.tag_spec(),
    {
        self.tag.as_str()
    }

    /// `ff:idx:<..>:lane:<..>:eligible`.
    pub open spec fn lane_eligible_spec(self, lane_id: Seq<char>) -> Seq<char> {
        "ff:idx:"@ + self.tag_spec() + ":lane:"@ + lane_id + ":eligible"@
    }

    /// `ff:idx:<..>:lane:<..>:eligible`.
    pub fn lane_eligible(&self, lane_id: &LaneId) -> (r: String)
        ensures
            r@ == self.lane_eligible_spec(lane_id@),
    {
        let mut out = "ff:idx:".to_owned();
        out.append(self.tag.as_str());
        out.append(":lane:");
        out.append(lane_id.as_str());
        out.append(":eligible");
        out
    }

    /// `ff:idx:<..>:lane:<..>:delayed`.
    pub open spec fn lane_delayed_spec(self, lane_id: Seq<char>) -> Seq<char> {
        "ff:idx:"@ + self.tag_spec() + ":lane:"@ + lane_id + ":delayed"@
    }

    /// `ff:idx:<..>:lane:<..>:delayed`.
    pub fn lane_delayed(&self, lane_id: &LaneId) -> (r: String)
        ensures
            r@ == self.lane_delayed_spec(lane_id@),
    {
        let mut out = "ff:idx:".to_owned();
        out.append(self.tag.as_str());
        out.append(":lane:");
        out.append(lane_id.as_str());
        out.append(":delayed");
        out
    }

    /// `ff:idx:<..>:lane:<..>:active`.
    pub open spec fn lane_active_spec(self, lane_id: Seq<char>) -> Seq<char> {
        "ff:idx:"@ + self.tag_spec() + ":lane:"@ + lane_id + ":active"@
    }

    /// `ff:idx:<..>:lane:<..>:active`.
    pub fn lane_active(&self, lane_id: &LaneId) -> (r: String)
        ensures
            r@ == self.lane_active_spec(lane_id@),
    {
        let mut out = "ff:idx:".to_owned();
        out.append(self.tag.as_str());
        out.append(":lane:");
        out.append(lane_id.as_str());
        out.append(":active");
        out
    }

    /// `ff:idx:<..>:lane:<..>:terminal`.
    pub open spec fn lane_terminal_spec(self, lane_id: Seq<char>) -> Seq<char> {
        "ff:idx:"@ + self.tag_spec() + ":lane:"@ + lane_id + ":terminal"@
    }

    /// `ff:idx:<..>:lane:<..>:terminal`.
    pub fn lane_terminal(&self, lane_id: &LaneId) -> (r: String)
        ensures
            r@ == self.lane_terminal_spec(lane_id@),
    {
        let mut out = "ff:idx:".to_owned();
        out.append(self.tag.as_str());
        out.append(":lane:");
        out.append(lane_id.as_str());
        out.append(":terminal");
        out
    }

    /// `ff:idx:<..>:lane:<..>:blocked:dependencies`.
    pub open spec fn lane_blocked_dependencies_spec(self, lane_id: Seq<char>) -> Seq<char> {
        "ff:idx:"@ + self.tag_spec() + ":lane:"@ + lane_id + ":blocked:dependencies"@
    }

    /// `ff:idx:<..>:lane:<..>:blocked:dependencies`.
    pub fn lane_blocked_dependencies(&self, lane_id: &LaneId) -> (r: String)
        ensures
            r@ == self.lane_blocked_dependencies_spec(lane_id@),
    {
        let mut out = "ff:idx:".to_owned();
        out.append(self.tag.as_str());
        out.append(":lane:");
        out.append(lane_id.as_str());
        out.append(":blocked:dependencies");
        out
    }

    /// `ff:idx:<..>:lane:<..>:blocked:budget`.
    pub open spec fn lane_blocked_budget_spec(self, lane_id: Seq<char>) -> Seq<char> {
        "ff:idx:"@ + self.tag_spec() + ":lane:"@ + lane_id + ":blocked:budget"@
    }

    /// `ff:idx:<..>:lane:<..>:blocked:budget`.
    pub fn lane_blocked_budget(&self, lane_id: &LaneId) -> (r: String)
        ensures
            r@ == self.lane_blocked_budget_spec(lane_id@),
    {
        let mut out = "ff:idx:".to_owned();
        out.append(self.tag.as_str());
        out.append(":lane:");
        out.append(lane_id.as_str());
        out.append(":blocked:budget");
        out
    }

    /// `ff:idx:<..>:lane:<..>:blocked:quota`.
    pub open spec fn lane_blocked_quota_spec(self, lane_id: Seq<char>) -> Seq<char> {
        "ff:idx:"@ + self.tag_spec() + ":lane:"@ + lane_id + ":blocked:quota"@
    }

    /// `ff:idx:<..>:lane:<..>:blocked:quota`.
    pub fn lane_blocked_quota(&self, lane_id: &LaneId) -> (r: String)
        ensures
            r@ == self.lane_blocked_quota_spec(lane_id@),
    {
        let mut out = "ff:idx:".to_owned();
        out.append(self.tag.as_str());
        out.append(":lane:");
        out.append(lane_id.as_str());
        out.append(":blocked:quota");
        out
    }

    /// `ff:idx:<..>:lane:<..>:blocked:route`.
    pub open spec fn lane_blocked_route_spec(self, lane_id: Seq<char>) -> Seq<char> {
        "ff:idx:"@ + self.tag_spec() + ":lane:"@ + lane_id + ":blocked:route"@
    }

    /// `ff:idx:<..>:lane:<..>:blocked:route`.
    pub fn lane_blocked_route(&self, lane_id: &LaneId) -> (r: String)
        ensures
            r@ == self.lane_blocked_route_spec(lane_id@),
    {
        let mut out = "ff:idx:".to_owned();
        out.append(self.tag.as_str());
        out.append(":lane:");
        out.append(lane_id.as_str());
        out.append(":blocked:route");
        out
    }

    /// `ff:idx:<..>:lane:<..>:blocked:operator`.
    pub open spec fn lane_blocked_operator_spec(self, lane_id: Seq<char>) -> Seq<char> {
        "ff:idx:"@ + self.tag_spec() + ":lane:"@ + lane_id + ":blocked:operator"@
    }

    /// `ff:idx:<..>:lane:<..>:blocked:operator`.
    pub fn lane_blocked_operator(&self, lane_id: &LaneId) -> (r: String)
        ensures
            r@ == self.lane_blocked_operator_spec(lane_id@),
    {
        let mut out = "ff:idx:".to_owned();
        out.append(self.tag.as_str());
        out.append(":lane:");
        out.append(lane_id.as_str());
        out.append(":blocked:operator");
        out
    }

    /// `ff:idx:<..>:lane:<..>:suspended`.
    pub open spec fn lane_suspended_spec(self, lane_id: Seq<char>) -> Seq<char> {
        "ff:idx:"@ + self.tag_spec() + ":lane:"@ + lane_id + ":suspended"@
    }

    /// `ff:idx:<..>:lane:<..>:suspended`.
    pub fn lane_suspended(&self, lane_id: &LaneId) -> (r: String)
        ensures
            r@ == self.lane_suspended_spec(lane_id@),
    {
        let mut out = "ff:idx:".to_owned();
        out.append(self.tag.as_str());
        out.append(":lane:");
        out.append(lane_id.as_str());
        out.append(":suspended");
        out
    }

    /// `ff:sec:<..>:waitpoint_hmac`.
    pub open spec fn waitpoint_hmac_secrets_spec(self) -> Seq<char> {
        "ff:sec:"@ + self.tag_spec() + ":waitpoint_hmac"@
    }

    /// `ff:sec:<..>:waitpoint_hmac`.
    pub fn waitpoint_hmac_secrets(&self) -> (r: String)
        ensures
            r@ == self.waitpoint_hmac_secrets_spec(),
    {
        let mut out = "ff:sec:".to_owned();
        out.append(self.tag.as_str());
        out.append(":waitpoint_hmac");
        out
    }

    /// `ff:idx:<..>:lease_expiry`.
    pub open spec fn lease_expiry_spec(self) -> Seq<char> {
        "ff:idx:"@ + self.tag_spec() + ":lease_expiry"@
    }

    /// `ff:idx:<..>:lease_expiry`.
    pub fn lease_expiry(&self) -> (r: String)
        ensures
            r@ == self.lease_expiry_spec(),
    {
        let mut out = "ff:idx:".to_owned();
        out.append(self.tag.as_str());
        out.append(":lease_expiry");
        out
    }

    /// `ff:idx:<..>:worker:<..>:leases`.
    pub open spec fn worker_leases_spec(self, wid: Seq<char>) -> Seq<char> {
        "ff:idx:"@ + self.tag_spec() + ":worker:"@ + wid + ":leases"@
    }

    /// `ff:idx:<..>:worker:<..>:leases`.
    pub fn worker_leases(&self, wid: &WorkerInstanceId) -> (r: String)
        ensures
            r@ == self.worker_leases_spec(wid@),
    {
        let mut out = "ff:idx:".to_owned();
        out.append(self.tag.as_str());
        out.append(":worker:");
        out.append(wid.as_str());
        out.append(":leases");
        out
    }

    /// `ff:idx:<..>:suspension_timeout`.
    pub open spec fn suspension_timeout_spec(self) -> Seq<char> {
        "ff:idx:"@ + self.tag_spec() + ":suspension_timeout"@
    }

    /// `ff:idx:<..>:suspension_timeout`.
    pub fn suspension_timeout(&self) -> (r: String)
        ensures
            r@ == self.suspension_timeout_spec(),
    {
        let mut out = "ff:idx:".to_owned();
        out.append(self.tag.as_str());
        out.append(":suspension_timeout");
        out
    }

    /// `ff:idx:<..>:pending_waitpoint_expiry`.
    pub open spec fn pending_waitpoint_expiry_spec(self) -> Seq<char> {
        "ff:idx:"@ + self.tag_spec() + ":pending_waitpoint_expiry"@
    }

    /// `ff:idx:<..>:pending_waitpoint_expiry`.
    pub fn pending_waitpoint_expiry(&self) -> (r: String)
        ensures
            r@ == self.pending_waitpoint_expiry_spec(),
    {
        let mut out = "ff:idx:".to_owned();
        out.append(self.tag.as_str());
        out.append(":pending_waitpoint_expiry");
        out
    }

    /// `ff:idx:<..>:attempt_timeout`.
    pub open spec fn attempt_timeout_spec(self) -> Seq<char> {
        "ff:idx:"@ + self.tag_spec() + ":attempt_timeout"@
    }

    /// `ff:idx:<..>:attempt_timeout`.
    pub fn attempt_timeout(&self) -> (r: String)
        ensures
            r@ == self.attempt_timeout_spec(),
    {
        let mut out = "ff:idx:".to_owned();
        out.append(self.tag.as_str());
        out.append(":attempt_timeout");
        out
    }

    /// `ff:idx:<..>:execution_deadline`.
    pub open spec fn execution_deadline_spec(self) -> Seq<char> {
        "ff:idx:"@ + self.tag_spec() + ":execution_deadline"@
    }

    /// `ff:idx:<..>:execution_deadline`.
    pub fn execution_deadline(&self) -> (r: String)
        ensures
            r@ == self.execution_deadline_spec(),
    {
        let mut out = "ff:idx:".to_owned();
        out.append(self.tag.as_str());
        out.append(":execution_deadline");
        out
    }

    /// `ff:idx:<..>:all_executions`.
    pub open spec fn all_executions_spec(self) -> Seq<char> {
        "ff:idx:"@ + self.tag_spec() + ":all_executions"@
    }

    /// `ff:idx:<..>:all_executions`.
    pub fn all_executions(&self) -> (r: String)
        ensures
            r@ == self.all_executions_spec(),
    {
        let mut out = "ff:idx:".to_owned();
        out.append(self.tag.as_str());
        out.append(":all_executions");
        out
    }

}

/// Keys of one flow.
pub struct FlowKeyContext {
    tag: String,
    fid: String,
}

impl FlowKeyContext {
    /// The hash tag in every key.
    pub closed spec fn tag_spec(self) -> Seq<char> {
        self.tag@
    }

    /// The text of the flow.
    pub closed spec fn fid_spec(self) -> Seq<char> {
        self.fid@
    }

    /// Keys of the flow in its partition.
    pub fn new(partition: &Partition, fid: &FlowId) -> (r: FlowKeyContext)
        ensures
            r.tag_spec() == partition.tag_spec(),
            r.fid_spec() == fid@,
    {
        FlowKeyContext { tag: partition.hash_tag(), fid: fid.as_str().to_owned() }
    }

    /// The hash tag in every key.
    pub fn hash_tag(&self) -> (r: &str)
        ensures
            r@ == self.tag_spec(),
    {
        self.tag.as_str()
    }

    /// The text of the flow.
    pub fn flow_id(&self) -> (r: &str)
        ensures
            r@ == self.fid_spec(),
    {
        self.fid.as_str()
    }

    /// `ff:flow:<..>:<..>:core`.
    pub open spec fn core_key_spec(self) -> Seq<char> {
        "ff:flow:"@ + self.tag_spec() + ":"@ + self.fid_spec() + ":core"@
    }

    /// `ff:flow:<..>:<..>:core`.
    pub fn core_key(&self) -> (r: String)
        ensures
            r@ == self.core_key_spec(),
    {
        let mut out = "ff:flow:".to_owned();
        out.append(self.tag.as_str());
        out.append(":");
        out.append(self.fid.as_str());
        out.append(":core");
        out
    }

    /// `ff:flow:<..>:<..>:members`.
    pub open spec fn members_spec(self) -> Seq<char> {
        "ff:flow:"@ + self.tag_spec() + ":"@ + self.fid_spec() + ":members"@
    }

    /// `ff:flow:<..>:<..>:members`.
    pub fn members(&self) -> (r: String)
        ensures
            r@ == self.members_spec(),
    {
        let mut out = "ff:flow:".to_owned();
        out.append(self.tag.as_str());
        out.append(":");
        out.append(self.fid.as_str());
        out.append(":members");
        out
    }

    /// `ff:flow:<..>:<..>:tags`.
    pub open spec fn tags_spec(self) -> Seq<char> {
        "ff:flow:"@ + self.tag_spec() + ":"@ + self.fid_spec() + ":tags"@
    }

    /// `ff:flow:<..>:<..>:tags`.
    pub fn tags(&self) -> (r: String)
        ensures
            r@ == self.tags_spec(),
    {
        let mut out = "ff:flow:".to_owned();
        out.append(self.tag.as_str());
        out.append(":");
        out.append(self.fid.as_str());
        out.append(":tags");
        out
    }

    /// `ff:flow:<..>:<..>:edge:<..>`.
    pub open spec fn edge_spec(self, edge_id: Seq<char>) -> Seq<char> {
        "ff:flow:"@ + self.tag_spec() + ":"@ + self.fid_spec() + ":edge:"@ + edge_id
    }

    /// `ff:flow:<..>:<..>:edge:<..>`.
    pub fn edge(&self, edge_id: &EdgeId) -> (r: String)
        ensures
            r@ == self.edge_spec(edge_id@),
    {
        let mut out = "ff:flow:".to_owned();
        out.append(self.tag.as_str());
        out.append(":");
        out.append(self.fid.as_str());
        out.append(":edge:");
        out.append(edge_id.as_str());
        out
    }

    /// `ff:flow:<..>:<..>:out:<..>`.
    pub open spec fn outgoing_spec(self, upstream_eid: Seq<char>) -> Seq<char> {
        "ff:flow:"@ + self.tag_spec() + ":"@ + self.fid_spec() + ":out:"@ + upstream_eid
    }

    /// `ff:flow:<..>:<..>:out:<..>`.
    pub fn outgoing(&self, upstream_eid: &ExecutionId) -> (r: String)
        ensures
            r@ == self.outgoing_spec(upstream_eid@),
    {
        let mut out = "ff:flow:".to_owned();
        out.append(self.tag.as_str());
        out.append(":");
        out.append(self.fid.as_str());
        out.append(":out:");
        out.append(upstream_eid.as_str());
        out
    }

    /// `ff:flow:<..>:<..>:in:<..>`.
    pub open spec fn incoming_spec(self, downstream_eid: Seq<char>) -> Seq<char> {
        "ff:flow:"@ + self.tag_spec() + ":"@ + self.fid_spec() + ":in:"@ + downstream_eid
    }

    /// `ff:flow:<..>:<..>:in:<..>`.
    pub fn incoming(&self, downstream_eid: &ExecutionId) -> (r: String)
        ensures
            r@ == self.incoming_spec(downstream_eid@),
    {
        let mut out = "ff:flow:".to_owned();
        out.append(self.tag.as_str());
        out.append(":");
        out.append(self.fid.as_str());
        out.append(":in:");
        out.append(downstream_eid.as_str());
        out
    }

    /// `ff:flow:<..>:<..>:edgegroup:<..>`.
    pub open spec fn edgegroup_spec(self, downstream_eid: Seq<char>) -> Seq<char> {
        "ff:flow:"@ + self.tag_spec() + ":"@ + self.fid_spec() + ":edgegroup:"@ + downstream_eid
    }

    /// `ff:flow:<..>:<..>:edgegroup:<..>`.
    pub fn edgegroup(&self, downstream_eid: &ExecutionId) -> (r: String)
        ensures
            r@ == self.edgegroup_spec(downstream_eid@),
    {
        let mut out = "ff:flow:".to_owned();
        out.append(self.tag.as_str());
        out.append(":");
        out.append(self.fid.as_str());
        out.append(":edgegroup:");
        out.append(downstream_eid.as_str());
        out
    }

    /// `ff:flow:<..>:<..>:grant:<..>`.
    pub open spec fn grant_spec(self, mutation_id: Seq<char>) -> Seq<char> {
        "ff:flow:"@ + self.tag_spec() + ":"@ + self.fid_spec() + ":grant:"@ + mutation_id
    }

    /// `ff:flow:<..>:<..>:grant:<..>`.
    pub fn grant(&self, mutation_id: &str) -> (r: String)
        ensures
            r@ == self.grant_spec(mutation_id@),
    {
        let mut out = "ff:flow:".to_owned();
        out.append(self.tag.as_str());
        out.append(":");
        out.append(self.fid.as_str());
        out.append(":grant:");
        out.append(mutation_id);
        out
    }

    /// `ff:flow:<..>:<..>:pending_cancels`.
    pub open spec fn pending_cancels_spec(self) -> Seq<char> {
        "ff:flow:"@ + self.tag_spec() + ":"@ + self.fid_spec() + ":pending_cancels"@
    }

    /// `ff:flow:<..>:<..>:pending_cancels`.
    pub fn pending_cancels(&self) -> (r: String)
        ensures
            r@ == self.pending_cancels_spec(),
    {
        let mut out = "ff:flow:".to_owned();
        out.append(self.tag.as_str());
        out.append(":");
        out.append(self.fid.as_str());
        out.append(":pending_cancels");
        out
    }

}

/// Index keys of the flows of one partition.
pub struct FlowIndexKeys {
    tag: String,
}

impl FlowIndexKeys {
    /// The hash tag in every key.
    pub closed spec fn tag_spec(self) -> Seq<char> {
        self.tag@
    }

    /// Keys of the partition.
    pub fn new(partition: &Partition) -> (r: FlowIndexKeys)
        ensures
            r.tag_spec() == partition.tag_spec(),
    {
        FlowIndexKeys { tag: partition.hash_tag() }
    }

    /// The hash tag in every key.
    pub fn hash_tag(&self) -> (r: &str)
        ensures
            r@ == self.tag_spec(),
    {
        self.tag.as_str()
    }

    /// `ff:idx:<..>:flow_index`.
    pub open spec fn flow_index_spec(self) -> Seq<char> {
        "ff:idx:"@ + self.tag_spec() + ":flow_index"@
    }

    /// `ff:idx:<..>:flow_index`.
    pub fn flow_index(&self) -> (r: String)
        ensures
            r@ == self.flow_index_spec(),
    {
        let mut out = "ff:idx:".to_owned();
        out.append(self.tag.as_str());
        out.append(":flow_index");
        out
    }

    /// `ff:idx:<..>:cancel_backlog`.
    pub open spec fn cancel_backlog_spec(self) -> Seq<char> {
        "ff:idx:"@ + self.tag_spec() + ":cancel_backlog"@
    }

    /// `ff:idx:<..>:cancel_backlog`.
    pub fn cancel_backlog(&self) -> (r: String)
        ensures
            r@ == self.cancel_backlog_spec(),
    {
        let mut out = "ff:idx:".to_owned();
        out.append(self.tag.as_str());
        out.append(":cancel_backlog");
        out
    }

    /// `ff:idx:<..>:pending_cancel_groups`.
    pub open spec fn pending_cancel_groups_spec(self) -> Seq<char> {
        "ff:idx:"@ + self.tag_spec() + ":pending_cancel_groups"@
    }

    /// `ff:idx:<..>:pending_cancel_groups`.
    pub fn pending_cancel_groups(&self) -> (r: String)
        ensures
            r@ == self.pending_cancel_groups_spec(),
    {
        let mut out = "ff:idx:".to_owned();
        out.append(self.tag.as_str());
        out.append(":pending_cancel_groups");
        out
    }

}

/// Keys of one quota policy.
pub struct QuotaKeyContext {
    tag: String,
    qid: String,
}

impl QuotaKeyContext {
    /// The hash tag in every key.
    pub closed spec fn tag_spec(self) -> Seq<char> {
        self.tag@
    }

    /// The text of the quota policy.
    pub closed spec fn qid_spec(self) -> Seq<char> {
        self.qid@
    }

    /// Keys of the quota policy in its partition.
    pub fn new(partition: &Partition, qid: &QuotaPolicyId) -> (r: QuotaKeyContext)
        ensures
            r.tag_spec() == partition.tag_spec(),
            r.qid_spec() == qid@,
    {
        QuotaKeyContext { tag: partition.hash_tag(), qid: qid.as_str().to_owned() }
    }

    /// The hash tag in every key.
    pub fn hash_tag(&self) -> (r: &str)
        ensures
            r@ == self.tag_spec(),
    {
        self.tag.as_str()
    }

    /// `ff:quota:<..>:<..>`.
    pub open spec fn definition_spec(self) -> Seq<char> {
        "ff:quota:"@ + self.tag_spec() + ":"@ + self.qid_spec()
    }

    /// `ff:quota:<..>:<..>`.
    pub fn definition(&self) -> (r: String)
        ensures
            r@ == self.definition_spec(),
    {
        let mut out = "ff:quota:".to_owned();
        out.append(self.tag.as_str());
        out.append(":");
        out.append(self.qid.as_str());
        out
    }

    /// `ff:quota:<..>:<..>:window:<..>`.
    pub open spec fn window_spec(self, dimension: Seq<char>) -> Seq<char> {
        "ff:quota:"@ + self.tag_spec() + ":"@ + self.qid_spec() + ":window:"@ + dimension
    }

    /// `ff:quota:<..>:<..>:window:<..>`.
    pub fn window(&self, dimension: &str) -> (r: String)
        ensures
            r@ == self.window_spec(dimension@),
    {
        let mut out = "ff:quota:".to_owned();
        out.append(self.tag.as_str());
        out.append(":");
        out.append(self.qid.as_str());
        out.append(":window:");
        out.append(dimension);
        out
    }

    /// `ff:quota:<..>:<..>:concurrency`.
    pub open spec fn concurrency_spec(self) -> Seq<char> {
        "ff:quota:"@ + self.tag_spec() + ":"@ + self.qid_spec() + ":concurrency"@
    }

    /// `ff:quota:<..>:<..>:concurrency`.
    pub fn concurrency(&self) -> (r: String)
        ensures
            r@ == self.concurrency_spec(),
    {
        let mut out = "ff:quota:".to_owned();
        out.append(self.tag.as_str());
        out.append(":");
        out.append(self.qid.as_str());
        out.append(":concurrency");
        out
    }

    /// `ff:quota:<..>:<..>:admitted:<..>`.
    pub open spec fn admitted_spec(self, eid: Seq<char>) -> Seq<char> {
        "ff:quota:"@ + self.tag_spec() + ":"@ + self.qid_spec() + ":admitted:"@ + eid
    }

    /// `ff:quota:<..>:<..>:admitted:<..>`.
    pub fn admitted(&self, eid: &ExecutionId) -> (r: String)
        ensures
            r@ == self.admitted_spec(eid@),
    {
        let mut out = "ff:quota:".to_owned();
        out.append(self.tag.as_str());
        out.append(":");
        out.append(self.qid.as_str());
        out.append(":admitted:");
        out.append(eid.as_str());
        out
    }

    /// `ff:quota:<..>:<..>:admitted_set`.
    pub open spec fn admitted_set_spec(self) -> Seq<char> {
        "ff:quota:"@ + self.tag_spec() + ":"@ + self.qid_spec() + ":admitted_set"@
    }

    /// `ff:quota:<..>:<..>:admitted_set`.
    pub fn admitted_set(&self) -> (r: String)
        ensures
            r@ == self.admitted_set_spec(),
    {
        let mut out = "ff:quota:".to_owned();
        out.append(self.tag.as_str());
        out.append(":");
        out.append(self.qid.as_str());
        out.append(":admitted_set");
        out
    }

}

/// `ff:idx:<..>:quota_policies`.
pub open spec fn quota_policies_index_spec(tag: Seq<char>) -> Seq<char> {
    "ff:idx:"@ + tag + ":quota_policies"@
}

/// `ff:idx:<..>:quota_policies`.
pub fn quota_policies_index(tag: &str) -> (r: String)
    ensures
        r@ == quota_policies_index_spec(tag@),
{
    let mut out = "ff:idx:".to_owned();
    out.append(tag);
    out.append(":quota_policies");
    out
}

/// `ff:idem:<..>:<..>:<..>`.
pub open spec fn idempotency_key_spec(tag: Seq<char>, namespace: Seq<char>, idem_key: Seq<char>) -> Seq<char> {
    "ff:idem:"@ + tag + ":"@ + namespace + ":"@ + idem_key
}

/// `ff:idem:<..>:<..>:<..>`.
pub fn idempotency_key(tag: &str, namespace: &str, idem_key: &str) -> (r: String)
    ensures
        r@ == idempotency_key_spec(tag@, namespace@, idem_key@),
{
    let mut out = "ff:idem:".to_owned();
    out.append(tag);
    out.append(":");
    out.append(namespace);
    out.append(":");
    out.append(idem_key);
    out
}

/// Key of the published partition counts.
pub fn global_config_partitions() -> (r: String)
    ensures
        r@ == "ff:config:partitions"@,
{
    "ff:config:partitions".to_owned()
}

/// Key of a worker's advertised capabilities.
pub fn worker_caps_key(instance: &WorkerInstanceId) -> (r: String)
    ensures
        r@ == "ff:worker:"@ + instance@ + ":caps"@,
{
    let mut out = "ff:worker:".to_owned();
    out.append(instance.as_str());
    out.append(":caps");
    out
}

/// Key of the set of known workers.
pub fn workers_index_key() -> (r: String)
    ensures
        r@ == "ff:idx:workers"@,
{
    "ff:idx:workers".to_owned()
}

} // verus!
