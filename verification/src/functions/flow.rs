//! Calls on flows and their dependency edges.

use vstd::prelude::*;
use vstd::string::*;

use crate::error;
use crate::error::{ScriptError, ScriptErrorView};
use crate::field_map;
use crate::field_map::FieldMap;
use crate::fields;
use crate::fields::FromFcallResult;
use crate::functions::execution;
use crate::functions::execution::PublicState;
use crate::ids::{AttemptIndex, EdgeId, ExecutionId, FlowId, TimestampMs};
use crate::keys::{ExecKeyContext, FlowIndexKeys, FlowKeyContext, IndexKeys};
use crate::names::{LaneId, Namespace};
use crate::numbers;
use crate::result;
use crate::result::{FcallResult, FcallView};
use crate::text;
use crate::value::Value;
use crate::wire;
use crate::wire::Call;

verus! {

/// What happens to the other upstream executions once enough are done.
#[derive(Clone, Copy, Debug, PartialEq, Eq, Structural)]
pub enum OnSatisfied {
    CancelRemaining,
    LetRun,
}

/// How many upstream executions a downstream one waits for.
#[derive(Clone, Copy, Debug, PartialEq, Eq, Structural)]
pub enum EdgeDependencyPolicy {
    AllOf,
    AnyOf { on_satisfied: OnSatisfied },
    Quorum { k: u32, on_satisfied: OnSatisfied },
}

impl EdgeDependencyPolicy {
    /// The wire word of the policy.
    pub open spec fn variant_spec(self) -> &'static str {
        match self {
            EdgeDependencyPolicy::AllOf => "all_of",
            EdgeDependencyPolicy::AnyOf { .. } => "any_of",
            EdgeDependencyPolicy::Quorum { .. } => "quorum",
        }
    }

    /// The wire word of the policy.
    pub fn variant_str(&self) -> (r: &'static str)
        ensures
            r == self.variant_spec(),
    {
        match self {
            EdgeDependencyPolicy::AllOf => "all_of",
            EdgeDependencyPolicy::AnyOf { .. } => "any_of",
            EdgeDependencyPolicy::Quorum { .. } => "quorum",
        }
    }

    /// The wire word for the remaining upstream executions, empty when none remain.
    pub open spec fn on_satisfied_spec(self) -> &'static str {
        match self {
            EdgeDependencyPolicy::AllOf => "",
            EdgeDependencyPolicy::AnyOf { on_satisfied: OnSatisfied::CancelRemaining }
            | EdgeDependencyPolicy::Quorum { on_satisfied: OnSatisfied::CancelRemaining, .. } => {
                "cancel_remaining"
            },
            _ => "let_run",
        }
    }

    /// The wire word for the remaining upstream executions, empty when none remain.
    pub fn on_satisfied_str(&self) -> (r: &'static str)
        ensures
            r == self.on_satisfied_spec(),
    {
        match self {
            EdgeDependencyPolicy::AllOf => "",
            EdgeDependencyPolicy::AnyOf { on_satisfied: OnSatisfied::CancelRemaining }
            | EdgeDependencyPolicy::Quorum { on_satisfied: OnSatisfied::CancelRemaining, .. } => {
                "cancel_remaining"
            },
            _ => "let_run",
        }
    }

    /// The quorum, zero for the other policies.
    pub open spec fn threshold_spec(self) -> u32 {
        match self {
            EdgeDependencyPolicy::Quorum { k, .. } => k,
            _ => 0,
        }
    }

    /// The quorum, zero for the other policies.
    pub fn threshold(&self) -> (r: u32)
        ensures
            r == self.threshold_spec(),
    {
        match self {
            EdgeDependencyPolicy::Quorum { k, .. } => *k,
            _ => 0,
        }
    }
}

/// Key contexts of an operation on a flow.
pub struct FlowStructOpKeys<'a> {
    pub fctx: &'a FlowKeyContext,
    pub fidx: &'a FlowIndexKeys,
}

/// Key contexts of adding an execution to a flow.
pub struct AddExecutionToFlowKeys<'a> {
    pub fctx: &'a FlowKeyContext,
    pub fidx: &'a FlowIndexKeys,
    pub exec_ctx: &'a ExecKeyContext,
}

/// Key contexts of a dependency operation on the downstream execution.
pub struct DepOpKeys<'a> {
    pub ctx: &'a ExecKeyContext,
    pub idx: &'a IndexKeys,
    pub lane_id: &'a LaneId,
    pub flow_ctx: &'a FlowKeyContext,
    pub downstream_eid: &'a ExecutionId,
}

/// Key contexts of resolving a dependency, with those of the upstream execution.
pub struct ResolveDependencyKeys<'a> {
    pub ctx: &'a ExecKeyContext,
    pub idx: &'a IndexKeys,
    pub lane_id: &'a LaneId,
    pub upstream_ctx: &'a ExecKeyContext,
    pub flow_ctx: &'a FlowKeyContext,
    pub flow_idx: &'a FlowIndexKeys,
    pub downstream_eid: &'a ExecutionId,
    pub current_attempt_index: AttemptIndex,
}

/// Key contexts of setting an edge-group policy.
pub struct SetEdgeGroupPolicyKeys<'a> {
    pub fctx: &'a FlowKeyContext,
    pub downstream_eid: &'a ExecutionId,
}

/// Arguments of [`ff_create_flow`].
pub struct CreateFlowArgs {
    pub flow_id: FlowId,
    pub flow_kind: String,
    pub namespace: Namespace,
    pub now: TimestampMs,
}

/// Create a flow.
pub fn ff_create_flow(k: &FlowStructOpKeys, args: &CreateFlowArgs) -> (r: Call)
    ensures
        r.function == "ff_create_flow",
        r.keys_spec() == seq![
            k.fctx.core_key_spec(),
            k.fctx.members_spec(),
            k.fidx.flow_index_spec(),
        ],
        r.argv_spec() == seq![
            args.flow_id@,
            args.flow_kind@,
            args.namespace@,
            numbers::decimal(args.now.0 as int),
        ],
{
    let mut keys: Vec<String> = Vec::new();
    keys.push(k.fctx.core_key());
    keys.push(k.fctx.members());
    keys.push(k.fidx.flow_index());
    let mut argv: Vec<String> = Vec::new();
    argv.push(args.flow_id.as_str().to_owned());
    argv.push(args.flow_kind.as_str().to_owned());
    argv.push(args.namespace.as_str().to_owned());
    argv.push(numbers::i64_text(args.now.0));
    Call { function: "ff_create_flow", keys, argv }
}

/// Arguments of [`ff_add_execution_to_flow`].
pub struct AddExecutionToFlowArgs {
    pub flow_id: FlowId,
    pub execution_id: ExecutionId,
    pub now: TimestampMs,
}

/// Add an execution to a flow.
pub fn ff_add_execution_to_flow(k: &AddExecutionToFlowKeys, args: &AddExecutionToFlowArgs) -> (r: Call)
    ensures
        r.function == "ff_add_execution_to_flow",
        r.keys_spec() == seq![
            k.fctx.core_key_spec(),
            k.fctx.members_spec(),
            k.fidx.flow_index_spec(),
            k.exec_ctx.core_key_spec(),
        ],
        r.argv_spec() == seq![
            args.flow_id@,
            args.execution_id@,
            numbers::decimal(args.now.0 as int),
        ],
{
    let mut keys: Vec<String> = Vec::new();
    keys.push(k.fctx.core_key());
    keys.push(k.fctx.members());
    keys.push(k.fidx.flow_index());
    keys.push(k.exec_ctx.core_key());
    let mut argv: Vec<String> = Vec::new();
    argv.push(args.flow_id.as_str().to_owned());
    argv.push(args.execution_id.as_str().to_owned());
    argv.push(numbers::i64_text(args.now.0));
    Call { function: "ff_add_execution_to_flow", keys, argv }
}

/// Arguments of [`ff_cancel_flow`].
pub struct CancelFlowArgs {
    pub flow_id: FlowId,
    pub reason: String,
    pub cancellation_policy: String,
    pub now: TimestampMs,
}

/// Cancel a flow. The empty last argument takes the server's grace period.
pub fn ff_cancel_flow(k: &FlowStructOpKeys, args: &CancelFlowArgs) -> (r: Call)
    ensures
        r.function == "ff_cancel_flow",
        r.keys_spec() == seq![
            k.fctx.core_key_spec(),
            k.fctx.members_spec(),
            k.fidx.flow_index_spec(),
            k.fctx.pending_cancels_spec(),
            k.fidx.cancel_backlog_spec(),
        ],
        r.argv_spec() == seq![
            args.flow_id@,
            args.reason@,
            args.cancellation_policy@,
            numbers::decimal(args.now.0 as int),
            Seq::<char>::empty(),
        ],
{
    let mut keys: Vec<String> = Vec::new();
    keys.push(k.fctx.core_key());
    keys.push(k.fctx.members());
    keys.push(k.fidx.flow_index());
    keys.push(k.fctx.pending_cancels());
    keys.push(k.fidx.cancel_backlog());
    let mut argv: Vec<String> = Vec::new();
    argv.push(args.flow_id.as_str().to_owned());
    argv.push(args.reason.as_str().to_owned());
    argv.push(args.cancellation_policy.as_str().to_owned());
    argv.push(numbers::i64_text(args.now.0));
    argv.push(String::new());
    Call { function: "ff_cancel_flow", keys, argv }
}

/// Ask whether an execution's dependencies allow it to run.
pub fn ff_evaluate_flow_eligibility(k: &DepOpKeys) -> (r: Call)
    ensures
        r.function == "ff_evaluate_flow_eligibility",
        r.keys_spec() == seq![
            k.ctx.core_key_spec(),
            k.ctx.deps_meta_spec(),
        ],
        r.argv_spec() == Seq::<Seq<char>>::empty(),
{
    let mut keys: Vec<String> = Vec::new();
    keys.push(k.ctx.core_key());
    keys.push(k.ctx.deps_meta());
    let argv: Vec<String> = Vec::new();
    Call { function: "ff_evaluate_flow_eligibility", keys, argv }
}

/// Arguments of [`ff_apply_dependency_to_child`].
pub struct ApplyDependencyToChildArgs {
    pub flow_id: FlowId,
    pub edge_id: EdgeId,
    pub upstream_execution_id: ExecutionId,
    pub graph_revision: u64,
    pub dependency_kind: String,
    pub data_passing_ref: Option<String>,
    pub now: TimestampMs,
}

/// Apply a dependency edge to its downstream execution.
pub fn ff_apply_dependency_to_child(k: &DepOpKeys, args: &ApplyDependencyToChildArgs) -> (r: Call)
    ensures
        r.function == "ff_apply_dependency_to_child",
        r.keys_spec() == seq![
            k.ctx.core_key_spec(),
            k.ctx.deps_meta_spec(),
            k.ctx.deps_unresolved_spec(),
            k.ctx.dep_edge_spec(args.edge_id@),
            k.idx.lane_eligible_spec(k.lane_id@),
            k.idx.lane_blocked_dependencies_spec(k.lane_id@),
            k.ctx.deps_all_edges_spec(),
            k.flow_ctx.edgegroup_spec(k.downstream_eid@),
        ],
        r.argv_spec() == seq![
            args.flow_id@,
            args.edge_id@,
            args.upstream_execution_id@,
            numbers::decimal(args.graph_revision as int),
            args.dependency_kind@,
            wire::or_spec(args.data_passing_ref, ""@),
            numbers::decimal(args.now.0 as int),
        ],
{
    let mut keys: Vec<String> = Vec::new();
    keys.push(k.ctx.core_key());
    keys.push(k.ctx.deps_meta());
    keys.push(k.ctx.deps_unresolved());
    keys.push(k.ctx.dep_edge(&args.edge_id));
    keys.push(k.idx.lane_eligible(k.lane_id));
    keys.push(k.idx.lane_blocked_dependencies(k.lane_id));
    keys.push(k.ctx.deps_all_edges());
    keys.push(k.flow_ctx.edgegroup(k.downstream_eid));
    let mut argv: Vec<String> = Vec::new();
    argv.push(args.flow_id.as_str().to_owned());
    argv.push(args.edge_id.as_str().to_owned());
    argv.push(args.upstream_execution_id.as_str().to_owned());
    argv.push(numbers::u64_text(args.graph_revision));
    argv.push(args.dependency_kind.as_str().to_owned());
    argv.push(wire::or_text(&args.data_passing_ref, ""));
    argv.push(numbers::i64_text(args.now.0));
    Call { function: "ff_apply_dependency_to_child", keys, argv }
}

/// Arguments of [`ff_resolve_dependency`].
pub struct ResolveDependencyArgs {
    pub edge_id: EdgeId,
    pub upstream_outcome: String,
    pub now: TimestampMs,
}

/// Resolve a dependency edge.
pub fn ff_resolve_dependency(k: &ResolveDependencyKeys, args: &ResolveDependencyArgs) -> (r: Call)
    ensures
        r.function == "ff_resolve_dependency",
        r.keys_spec() == seq![
            k.ctx.core_key_spec(),
            k.ctx.deps_meta_spec(),
            k.ctx.deps_unresolved_spec(),
            k.ctx.dep_edge_spec(args.edge_id@),
            k.idx.lane_eligible_spec(k.lane_id@),
            k.idx.lane_terminal_spec(k.lane_id@),
            k.idx.lane_blocked_dependencies_spec(k.lane_id@),
            k.ctx.attempt_hash_spec(k.current_attempt_index),
            k.ctx.stream_meta_spec(k.current_attempt_index),
            k.ctx.payload_spec(),
            k.upstream_ctx.result_spec(),
            k.flow_ctx.edgegroup_spec(k.downstream_eid@),
            k.flow_ctx.incoming_spec(k.downstream_eid@),
            k.flow_idx.pending_cancel_groups_spec(),
        ],
        r.argv_spec() == seq![
            args.edge_id@,
            args.upstream_outcome@,
            numbers::decimal(args.now.0 as int),
            k.flow_ctx.fid_spec(),
            k.downstream_eid@,
        ],
{
    let mut keys: Vec<String> = Vec::new();
    keys.push(k.ctx.core_key());
    keys.push(k.ctx.deps_meta());
    keys.push(k.ctx.deps_unresolved());
    keys.push(k.ctx.dep_edge(&args.edge_id));
    keys.push(k.idx.lane_eligible(k.lane_id));
    keys.push(k.idx.lane_terminal(k.lane_id));
    keys.push(k.idx.lane_blocked_dependencies(k.lane_id));
    keys.push(k.ctx.attempt_hash(k.current_attempt_index));
    keys.push(k.ctx.stream_meta(k.current_attempt_index));
    keys.push(k.ctx.payload());
    keys.push(k.upstream_ctx.result());
    keys.push(k.flow_ctx.edgegroup(k.downstream_eid));
    keys.push(k.flow_ctx.incoming(k.downstream_eid));
    keys.push(k.flow_idx.pending_cancel_groups());
    let mut argv: Vec<String> = Vec::new();
    argv.push(args.edge_id.as_str().to_owned());
    argv.push(args.upstream_outcome.as_str().to_owned());
    argv.push(numbers::i64_text(args.now.0));
    argv.push(k.flow_ctx.flow_id().to_owned());
    argv.push(k.downstream_eid.as_str().to_owned());
    Call { function: "ff_resolve_dependency", keys, argv }
}

/// Arguments of [`ff_promote_blocked_to_eligible`].
pub struct PromoteBlockedToEligibleArgs {
    pub execution_id: ExecutionId,
    pub now: TimestampMs,
}

/// Promote an execution whose dependencies are met.
pub fn ff_promote_blocked_to_eligible(k: &DepOpKeys, args: &PromoteBlockedToEligibleArgs) -> (r: Call)
    ensures
        r.function == "ff_promote_blocked_to_eligible",
        r.keys_spec() == seq![
            k.ctx.core_key_spec(),
            k.idx.lane_blocked_dependencies_spec(k.lane_id@),
            k.idx.lane_eligible_spec(k.lane_id@),
            k.ctx.deps_meta_spec(),
            k.ctx.deps_unresolved_spec(),
        ],
        r.argv_spec() == seq![
            args.execution_id@,
            numbers::decimal(args.now.0 as int),
        ],
{
    let mut keys: Vec<String> = Vec::new();
    keys.push(k.ctx.core_key());
    keys.push(k.idx.lane_blocked_dependencies(k.lane_id));
    keys.push(k.idx.lane_eligible(k.lane_id));
    keys.push(k.ctx.deps_meta());
    keys.push(k.ctx.deps_unresolved());
    let mut argv: Vec<String> = Vec::new();
    argv.push(args.execution_id.as_str().to_owned());
    argv.push(numbers::i64_text(args.now.0));
    Call { function: "ff_promote_blocked_to_eligible", keys, argv }
}

/// Arguments of [`ff_replay_execution`].
pub struct ReplayExecutionArgs {
    pub execution_id: ExecutionId,
    pub now: TimestampMs,
}

/// Replay a terminal execution.
pub fn ff_replay_execution(k: &DepOpKeys, args: &ReplayExecutionArgs) -> (r: Call)
    ensures
        r.function == "ff_replay_execution",
        r.keys_spec() == seq![
            k.ctx.core_key_spec(),
            k.idx.lane_terminal_spec(k.lane_id@),
            k.idx.lane_eligible_spec(k.lane_id@),
            k.ctx.lease_history_spec(),
        ],
        r.argv_spec() == seq![
            args.execution_id@,
            numbers::decimal(args.now.0 as int),
        ],
{
    let mut keys: Vec<String> = Vec::new();
    keys.push(k.ctx.core_key());
    keys.push(k.idx.lane_terminal(k.lane_id));
    keys.push(k.idx.lane_eligible(k.lane_id));
    keys.push(k.ctx.lease_history());
    let mut argv: Vec<String> = Vec::new();
    argv.push(args.execution_id.as_str().to_owned());
    argv.push(numbers::i64_text(args.now.0));
    Call { function: "ff_replay_execution", keys, argv }
}

/// Arguments of [`ff_stage_dependency_edge`].
pub struct StageDependencyEdgeArgs {
    pub flow_id: FlowId,
    pub edge_id: EdgeId,
    pub upstream_execution_id: ExecutionId,
    pub downstream_execution_id: ExecutionId,
    pub dependency_kind: String,
    pub data_passing_ref: Option<String>,
    pub expected_graph_revision: u64,
    pub now: TimestampMs,
}

/// Stage a dependency edge on its flow.
pub fn ff_stage_dependency_edge(k: &FlowStructOpKeys, args: &StageDependencyEdgeArgs) -> (r: Call)
    ensures
        r.function == "ff_stage_dependency_edge",
        r.keys_spec() == seq![
            k.fctx.core_key_spec(),
            k.fctx.members_spec(),
            k.fctx.edge_spec(args.edge_id@),
            k.fctx.outgoing_spec(args.upstream_execution_id@),
            k.fctx.incoming_spec(args.downstream_execution_id@),
            k.fctx.grant_spec(args.edge_id@),
        ],
        r.argv_spec() == seq![
            args.flow_id@,
            args.edge_id@,
            args.upstream_execution_id@,
            args.downstream_execution_id@,
            args.dependency_kind@,
            wire::or_spec(args.data_passing_ref, ""@),
            numbers::decimal(args.expected_graph_revision as int),
            numbers::decimal(args.now.0 as int),
        ],
{
    let mut keys: Vec<String> = Vec::new();
    keys.push(k.fctx.core_key());
    keys.push(k.fctx.members());
    keys.push(k.fctx.edge(&args.edge_id));
    keys.push(k.fctx.outgoing(&args.upstream_execution_id));
    keys.push(k.fctx.incoming(&args.downstream_execution_id));
    keys.push(k.fctx.grant(args.edge_id.as_str()));
    let mut argv: Vec<String> = Vec::new();
    argv.push(args.flow_id.as_str().to_owned());
    argv.push(args.edge_id.as_str().to_owned());
    argv.push(args.upstream_execution_id.as_str().to_owned());
    argv.push(args.downstream_execution_id.as_str().to_owned());
    argv.push(args.dependency_kind.as_str().to_owned());
    argv.push(wire::or_text(&args.data_passing_ref, ""));
    argv.push(numbers::u64_text(args.expected_graph_revision));
    argv.push(numbers::i64_text(args.now.0));
    Call { function: "ff_stage_dependency_edge", keys, argv }
}

/// Arguments of [`ff_set_edge_group_policy`].
pub struct SetEdgeGroupPolicyArgs {
    pub policy: EdgeDependencyPolicy,
    pub now: TimestampMs,
}

/// Set how many upstream executions a downstream one waits for.
pub fn ff_set_edge_group_policy(k: &SetEdgeGroupPolicyKeys, args: &SetEdgeGroupPolicyArgs) -> (r: Call)
    ensures
        r.function == "ff_set_edge_group_policy",
        r.keys_spec() == seq![
            k.fctx.core_key_spec(),
            k.fctx.edgegroup_spec(k.downstream_eid@),
        ],
        r.argv_spec() == seq![
            args.policy.variant_spec()@,
            args.policy.on_satisfied_spec()@,
            numbers::decimal(args.policy.threshold_spec() as int),
            numbers::decimal(args.now.0 as int),
        ],
{
    let mut keys: Vec<String> = Vec::new();
    keys.push(k.fctx.core_key());
    keys.push(k.fctx.edgegroup(k.downstream_eid));
    let mut argv: Vec<String> = Vec::new();
    argv.push(args.policy.variant_str().to_owned());
    argv.push(args.policy.on_satisfied_str().to_owned());
    argv.push(numbers::u64_text(args.policy.threshold() as u64));
    argv.push(numbers::i64_text(args.now.0));
    Call { function: "ff_set_edge_group_policy", keys, argv }
}

// ── Creation ──

/// Outcome of creating a flow.
#[derive(Debug)]
pub enum CreateFlowResult<I = FlowId> {
    Created { flow_id: I },
    AlreadySatisfied { flow_id: I },
}

impl View for CreateFlowResult {
    type V = CreateFlowResult<Seq<char>>;

    open spec fn view(&self) -> CreateFlowResult<Seq<char>> {
        match *self {
            CreateFlowResult::Created { flow_id } => CreateFlowResult::Created {
                flow_id: flow_id@,
            },
            CreateFlowResult::AlreadySatisfied { flow_id } => CreateFlowResult::AlreadySatisfied {
                flow_id: flow_id@,
            },
        }
    }
}

/// The meaning of a reply to creating a flow.
pub open spec fn create_flow_reply(raw: Value) -> Result<
    CreateFlowResult<Seq<char>>,
    ScriptErrorView,
> {
    match result::accepted(raw) {
        Err(e) => Err(e),
        Ok(f) => match fields::flow_id_spec(f, 0, "ff_create_flow"@, "bad flow_id: "@) {
            Err(e) => Err(e),
            Ok(flow_id) => if f.status == "OK"@ {
                Ok(CreateFlowResult::Created { flow_id })
            } else if f.status == "ALREADY_SATISFIED"@ {
                Ok(CreateFlowResult::AlreadySatisfied { flow_id })
            } else {
                Err(fields::bad_status("ff_create_flow"@, f.status))
            },
        },
    }
}

impl FromFcallResult for CreateFlowResult {
    fn from_fcall_result(raw: &Value) -> (r: Result<CreateFlowResult, ScriptError>)
        ensures
            fields::agrees(r, create_flow_reply(*raw)),
    {
        match result::accept(raw) {
            Err(e) => Err(e),
            Ok(f) => match fields::flow_id_field(&f, 0, "ff_create_flow", "bad flow_id: ") {
                Err(e) => Err(e),
                Ok(flow_id) => if text::same(f.status.as_str(), "OK") {
                    Ok(CreateFlowResult::Created { flow_id })
                } else if text::same(f.status.as_str(), "ALREADY_SATISFIED") {
                    Ok(CreateFlowResult::AlreadySatisfied { flow_id })
                } else {
                    Err(fields::unexpected_status("ff_create_flow", f.status.as_str()))
                },
            },
        }
    }
}

// ── Membership ──

/// Outcome of adding an execution to a flow.
#[derive(Debug)]
pub enum AddExecutionToFlowResult<I = ExecutionId> {
    Added { execution_id: I, new_node_count: u32 },
    AlreadyMember { execution_id: I, node_count: u32 },
}

impl View for AddExecutionToFlowResult {
    type V = AddExecutionToFlowResult<Seq<char>>;

    open spec fn view(&self) -> AddExecutionToFlowResult<Seq<char>> {
        match *self {
            AddExecutionToFlowResult::Added { execution_id, new_node_count } => {
                AddExecutionToFlowResult::Added { execution_id: execution_id@, new_node_count }
            },
            AddExecutionToFlowResult::AlreadyMember { execution_id, node_count } => {
                AddExecutionToFlowResult::AlreadyMember { execution_id: execution_id@, node_count }
            },
        }
    }
}

/// The meaning of a reply to adding an execution to a flow. A node count that is
/// no number reads as zero.
pub open spec fn add_reply(raw: Value) -> Result<
    AddExecutionToFlowResult<Seq<char>>,
    ScriptErrorView,
> {
    match result::accepted(raw) {
        Err(e) => Err(e),
        Ok(f) => if f.status == "ALREADY_SATISFIED"@ || f.status == "OK"@ {
            match fields::execution_id_spec(
                f,
                0,
                "ff_add_execution_to_flow"@,
                "bad execution_id: "@,
            ) {
                Err(e) => Err(e),
                Ok(execution_id) => if f.status == "ALREADY_SATISFIED"@ {
                    Ok(
                        AddExecutionToFlowResult::AlreadyMember {
                            execution_id,
                            node_count: fields::u32_or_zero_spec(f, 1),
                        },
                    )
                } else {
                    Ok(
                        AddExecutionToFlowResult::Added {
                            execution_id,
                            new_node_count: fields::u32_or_zero_spec(f, 1),
                        },
                    )
                },
            }
        } else {
            Err(fields::bad_status("ff_add_execution_to_flow"@, f.status))
        },
    }
}

impl FromFcallResult for AddExecutionToFlowResult {
    fn from_fcall_result(raw: &Value) -> (r: Result<AddExecutionToFlowResult, ScriptError>)
        ensures
            fields::agrees(r, add_reply(*raw)),
    {
        let f = match result::accept(raw) {
            Ok(f) => f,
            Err(e) => {
                return Err(e);
            },
        };
        let already = text::same(f.status.as_str(), "ALREADY_SATISFIED");
        if !already && !text::same(f.status.as_str(), "OK") {
            return Err(fields::unexpected_status("ff_add_execution_to_flow", f.status.as_str()));
        }
        match fields::execution_id_field(
            &f,
            0,
            "ff_add_execution_to_flow",
            "bad execution_id: ",
        ) {
            Err(e) => Err(e),
            Ok(execution_id) => {
                let count: u32 = fields::u32_or_zero(&f, 1);
                if already {
                    Ok(AddExecutionToFlowResult::AlreadyMember { execution_id, node_count: count })
                } else {
                    Ok(AddExecutionToFlowResult::Added { execution_id, new_node_count: count })
                }
            },
        }
    }
}

// ── Cancellation ──

/// Outcome of cancelling a flow.
#[derive(Debug)]
pub struct CancelFlowResult {
    pub cancellation_policy: String,
    pub member_execution_ids: Vec<String>,
}

/// The fields from `i` on, up to the first empty one.
pub open spec fn leading_fields(f: FcallView, i: int) -> Seq<Seq<char>>
    decreases f.fields.len() - i,
{
    if i < 0 || i >= f.fields.len() || f.field(i).len() == 0 {
        Seq::empty()
    } else {
        seq![f.field(i)] + leading_fields(f, i + 1)
    }
}

fn read_leading(f: &FcallResult) -> (r: Vec<String>)
    ensures
        text::texts(r@) == leading_fields(f@, 1),
{
    let n: usize = f.fields.len();
    let mut out: Vec<String> = Vec::new();
    let mut i: usize = 1;
    assert(text::texts(out@) =~= Seq::<Seq<char>>::empty());
    assert(leading_fields(f@, 1) =~= text::texts(out@) + leading_fields(f@, 1));
    while i < n
        invariant
            n == f@.fields.len(),
            1 <= i,
            leading_fields(f@, 1) == text::texts(out@) + leading_fields(f@, i as int),
        decreases n - i,
    {
        let s = f.field_str(i);
        let ghost before = text::texts(out@);
        if s.as_str().is_empty() {
            assert(text::texts(out@) + Seq::<Seq<char>>::empty() =~= text::texts(out@));
            return out;
        }
        assert(leading_fields(f@, i as int) == seq![s@] + leading_fields(f@, i + 1));
        out.push(s);
        assert(text::texts(out@) =~= before.push(s@));
        assert(before + (seq![s@] + leading_fields(f@, i + 1)) =~= before.push(s@)
            + leading_fields(f@, i + 1));
        i = i + 1;
    }
    assert(text::texts(out@) + Seq::<Seq<char>>::empty() =~= text::texts(out@));
    out
}

impl FromFcallResult for CancelFlowResult {
    /// An accepted reply carries the policy, and the members up to the first
    /// empty field.
    fn from_fcall_result(raw: &Value) -> (r: Result<CancelFlowResult, ScriptError>)
        ensures
            match result::accepted(*raw) {
                Err(e) => r matches Err(x) && x@ == e,
                Ok(f) => r matches Ok(c) && c.cancellation_policy@ == f.field(0) && text::texts(
                    c.member_execution_ids@,
                ) == leading_fields(f, 1),
            },
    {
        match result::accept(raw) {
            Err(e) => Err(e),
            Ok(f) => Ok(
                CancelFlowResult {
                    cancellation_policy: f.field_str(0),
                    member_execution_ids: read_leading(&f),
                },
            ),
        }
    }
}

// ── Eligibility ──

/// Whether an execution may run, in the server's word.
#[derive(Debug)]
pub struct EvaluateFlowEligibilityResult {
    pub status: String,
}

impl FromFcallResult for EvaluateFlowEligibilityResult {
    fn from_fcall_result(raw: &Value) -> (r: Result<EvaluateFlowEligibilityResult, ScriptError>)
        ensures
            match result::accepted(*raw) {
                Err(e) => r matches Err(x) && x@ == e,
                Ok(f) => r matches Ok(s) && s.status@ == f.field(0),
            },
    {
        match result::accept(raw) {
            Err(e) => Err(e),
            Ok(f) => Ok(EvaluateFlowEligibilityResult { status: f.field_str(0) }),
        }
    }
}

// ── Edges ──

/// Outcome of applying an edge.
#[derive(Clone, Copy, Debug, PartialEq, Eq, Structural)]
pub enum ApplyDependencyToChildResult {
    Applied { unsatisfied_count: u32 },
    AlreadyApplied,
}

impl View for ApplyDependencyToChildResult {
    type V = ApplyDependencyToChildResult;

    open spec fn view(&self) -> ApplyDependencyToChildResult {
        *self
    }
}

/// The meaning of a reply to applying an edge. A count that is no number reads as
/// zero.
pub open spec fn apply_reply(raw: Value) -> Result<ApplyDependencyToChildResult, ScriptErrorView> {
    match result::accepted(raw) {
        Err(e) => Err(e),
        Ok(f) => if f.field(0) == "already_applied"@ {
            Ok(ApplyDependencyToChildResult::AlreadyApplied)
        } else {
            Ok(
                ApplyDependencyToChildResult::Applied {
                    unsatisfied_count: fields::u32_or_zero_spec(f, 0),
                },
            )
        },
    }
}

impl FromFcallResult for ApplyDependencyToChildResult {
    fn from_fcall_result(raw: &Value) -> (r: Result<ApplyDependencyToChildResult, ScriptError>)
        ensures
            fields::agrees(r, apply_reply(*raw)),
    {
        match result::accept(raw) {
            Err(e) => Err(e),
            Ok(f) => if text::same(f.field_str(0).as_str(), "already_applied") {
                Ok(ApplyDependencyToChildResult::AlreadyApplied)
            } else {
                Ok(
                    ApplyDependencyToChildResult::Applied {
                        unsatisfied_count: fields::u32_or_zero(&f, 0),
                    },
                )
            },
        }
    }
}

/// Outcome of resolving an edge.
#[derive(Clone, Copy, Debug, PartialEq, Eq, Structural)]
pub enum ResolveDependencyResult {
    Satisfied,
    Impossible,
    AlreadyResolved,
}

impl View for ResolveDependencyResult {
    type V = ResolveDependencyResult;

    open spec fn view(&self) -> ResolveDependencyResult {
        *self
    }
}

/// The meaning of a reply to resolving an edge.
pub open spec fn resolve_reply(raw: Value) -> Result<ResolveDependencyResult, ScriptErrorView> {
    match result::accepted(raw) {
        Err(e) => Err(e),
        Ok(f) => if f.field(0) == "satisfied"@ {
            Ok(ResolveDependencyResult::Satisfied)
        } else if f.field(0) == "impossible"@ {
            Ok(ResolveDependencyResult::Impossible)
        } else if f.field(0) == "already_resolved"@ {
            Ok(ResolveDependencyResult::AlreadyResolved)
        } else {
            Err(
                error::parse_error(
                    "ff_resolve_dependency"@,
                    "unknown resolve status: "@ + f.field(0),
                ),
            )
        },
    }
}

impl FromFcallResult for ResolveDependencyResult {
    fn from_fcall_result(raw: &Value) -> (r: Result<ResolveDependencyResult, ScriptError>)
        ensures
            fields::agrees(r, resolve_reply(*raw)),
    {
        let f = match result::accept(raw) {
            Ok(f) => f,
            Err(e) => {
                return Err(e);
            },
        };
        let sub = f.field_str(0);
        if text::same(sub.as_str(), "satisfied") {
            Ok(ResolveDependencyResult::Satisfied)
        } else if text::same(sub.as_str(), "impossible") {
            Ok(ResolveDependencyResult::Impossible)
        } else if text::same(sub.as_str(), "already_resolved") {
            Ok(ResolveDependencyResult::AlreadyResolved)
        } else {
            Err(
                error::unreadable(
                    "ff_resolve_dependency",
                    error::prefixed("unknown resolve status: ", sub.as_str()),
                ),
            )
        }
    }
}

/// Outcome of a promotion.
#[derive(Clone, Copy, Debug, PartialEq, Eq, Structural)]
pub enum PromoteBlockedToEligibleResult {
    Promoted,
}

impl FromFcallResult for PromoteBlockedToEligibleResult {
    fn from_fcall_result(raw: &Value) -> (r: Result<PromoteBlockedToEligibleResult, ScriptError>)
        ensures
            match result::accepted(*raw) {
                Err(e) => r matches Err(x) && x@ == e,
                Ok(_) => r is Ok,
            },
    {
        match result::accept(raw) {
            Err(e) => Err(e),
            Ok(_) => Ok(PromoteBlockedToEligibleResult::Promoted),
        }
    }
}

/// Outcome of a replay.
#[derive(Clone, Copy, Debug, PartialEq, Eq, Structural)]
pub enum ReplayExecutionResult {
    Replayed { public_state: PublicState },
}

impl View for ReplayExecutionResult {
    type V = ReplayExecutionResult;

    open spec fn view(&self) -> ReplayExecutionResult {
        *self
    }
}

/// The meaning of a reply to a replay: waiting, or waiting for its children when
/// the count of unmet dependencies is not `0`.
pub open spec fn replay_reply(raw: Value) -> Result<ReplayExecutionResult, ScriptErrorView> {
    match result::accepted(raw) {
        Err(e) => Err(e),
        Ok(f) => Ok(
            ReplayExecutionResult::Replayed {
                public_state: if f.field(0) == "0"@ {
                    PublicState::Waiting
                } else {
                    PublicState::WaitingChildren
                },
            },
        ),
    }
}

impl FromFcallResult for ReplayExecutionResult {
    fn from_fcall_result(raw: &Value) -> (r: Result<ReplayExecutionResult, ScriptError>)
        ensures
            fields::agrees(r, replay_reply(*raw)),
    {
        match result::accept(raw) {
            Err(e) => Err(e),
            Ok(f) => {
                let public_state = if text::same(f.field_str(0).as_str(), "0") {
                    PublicState::Waiting
                } else {
                    PublicState::WaitingChildren
                };
                Ok(ReplayExecutionResult::Replayed { public_state })
            },
        }
    }
}

/// Outcome of staging an edge.
#[derive(Debug)]
pub enum StageDependencyEdgeResult<I = EdgeId> {
    Staged { edge_id: I, new_graph_revision: u64 },
}

impl View for StageDependencyEdgeResult {
    type V = StageDependencyEdgeResult<Seq<char>>;

    open spec fn view(&self) -> StageDependencyEdgeResult<Seq<char>> {
        match *self {
            StageDependencyEdgeResult::Staged { edge_id, new_graph_revision } => {
                StageDependencyEdgeResult::Staged { edge_id: edge_id@, new_graph_revision }
            },
        }
    }
}

/// The meaning of a reply to staging an edge.
pub open spec fn stage_reply(raw: Value) -> Result<
    StageDependencyEdgeResult<Seq<char>>,
    ScriptErrorView,
> {
    match result::accepted(raw) {
        Err(e) => Err(e),
        Ok(f) => match fields::edge_id_spec(f, 0, "ff_stage_dependency_edge"@, "bad edge_id: "@) {
            Err(e) => Err(e),
            Ok(edge_id) => match fields::u64_spec(
                f,
                1,
                "ff_stage_dependency_edge"@,
                "bad graph_revision: "@,
            ) {
                Err(e) => Err(e),
                Ok(new_graph_revision) => Ok(
                    StageDependencyEdgeResult::Staged { edge_id, new_graph_revision },
                ),
            },
        },
    }
}

impl FromFcallResult for StageDependencyEdgeResult {
    fn from_fcall_result(raw: &Value) -> (r: Result<StageDependencyEdgeResult, ScriptError>)
        ensures
            fields::agrees(r, stage_reply(*raw)),
    {
        let f = match result::accept(raw) {
            Ok(f) => f,
            Err(e) => {
                return Err(e);
            },
        };
        match fields::edge_id_field(&f, 0, "ff_stage_dependency_edge", "bad edge_id: ") {
            Err(e) => Err(e),
            Ok(edge_id) => match fields::u64_field(
                &f,
                1,
                "ff_stage_dependency_edge",
                "bad graph_revision: ",
            ) {
                Err(e) => Err(e),
                Ok(new_graph_revision) => Ok(
                    StageDependencyEdgeResult::Staged { edge_id, new_graph_revision },
                ),
            },
        }
    }
}

/// Outcome of setting an edge-group policy.
#[derive(Clone, Copy, Debug, PartialEq, Eq, Structural)]
pub enum SetEdgeGroupPolicyResult {
    NewlySet,
    AlreadySet,
}

impl View for SetEdgeGroupPolicyResult {
    type V = SetEdgeGroupPolicyResult;

    open spec fn view(&self) -> SetEdgeGroupPolicyResult {
        *self
    }
}

/// The meaning of a reply to setting an edge-group policy.
pub open spec fn policy_reply(raw: Value) -> Result<SetEdgeGroupPolicyResult, ScriptErrorView> {
    match result::accepted(raw) {
        Err(e) => Err(e),
        Ok(f) => if f.field(0) == "set"@ {
            Ok(SetEdgeGroupPolicyResult::NewlySet)
        } else if f.field(0) == "already_set"@ {
            Ok(SetEdgeGroupPolicyResult::AlreadySet)
        } else {
            Err(fields::bad_status("ff_set_edge_group_policy"@, f.field(0)))
        },
    }
}

impl FromFcallResult for SetEdgeGroupPolicyResult {
    fn from_fcall_result(raw: &Value) -> (r: Result<SetEdgeGroupPolicyResult, ScriptError>)
        ensures
            fields::agrees(r, policy_reply(*raw)),
    {
        let f = match result::accept(raw) {
            Ok(f) => f,
            Err(e) => {
                return Err(e);
            },
        };
        let sub = f.field_str(0);
        if text::same(sub.as_str(), "set") {
            Ok(SetEdgeGroupPolicyResult::NewlySet)
        } else if text::same(sub.as_str(), "already_set") {
            Ok(SetEdgeGroupPolicyResult::AlreadySet)
        } else {
            Err(fields::unexpected_status("ff_set_edge_group_policy", sub.as_str()))
        }
    }
}

// ── Tags ──

/// Set tags of a flow. They are sent in the order of their keys, so that the same
/// tags make the same arguments.
pub fn ff_set_flow_tags(fctx: &FlowKeyContext, tags: &FieldMap) -> (r: Call)
    ensures
        r.function == "ff_set_flow_tags",
        r.keys_spec() == seq![fctx.core_key_spec(), fctx.tags_spec()],
        r.argv_spec() == wire::alternating(tags.pairs()),
        field_map::ascending(tags.pairs()),
{
    let mut keys: Vec<String> = Vec::new();
    keys.push(fctx.core_key());
    keys.push(fctx.tags());
    Call { function: "ff_set_flow_tags", keys, argv: wire::flatten(tags) }
}

/// Outcome of setting tags: how many were written.
#[derive(Clone, Copy, Debug, PartialEq, Eq, Structural)]
pub struct SetFlowTagsResult {
    pub count: u32,
}

impl FromFcallResult for SetFlowTagsResult {
    fn from_fcall_result(raw: &Value) -> (r: Result<SetFlowTagsResult, ScriptError>)
        ensures
            match execution::tag_count(*raw, "ff_set_flow_tags"@) {
                Ok(count) => r == Ok::<SetFlowTagsResult, ScriptError>(
                    SetFlowTagsResult { count },
                ),
                Err(e) => r matches Err(x) && x@ == e,
            },
    {
        match execution::read_tag_count(raw, "ff_set_flow_tags") {
            Ok(count) => Ok(SetFlowTagsResult { count }),
            Err(e) => Err(e),
        }
    }
}

} // verus!
