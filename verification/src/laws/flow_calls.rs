//! Where a server finds what was asked for: calls of flows.

use vstd::prelude::*;
use vstd::string::*;

use crate::field_map::FieldMap;
use crate::field_map;
use crate::functions::flow::ff_set_flow_tags;
use crate::functions::flow::{AddExecutionToFlowArgs, AddExecutionToFlowKeys, ApplyDependencyToChildArgs, CancelFlowArgs, CreateFlowArgs, DepOpKeys, FlowStructOpKeys, PromoteBlockedToEligibleArgs, ReplayExecutionArgs, ResolveDependencyArgs, ResolveDependencyKeys, SetEdgeGroupPolicyArgs, SetEdgeGroupPolicyKeys, StageDependencyEdgeArgs, ff_add_execution_to_flow, ff_apply_dependency_to_child, ff_cancel_flow, ff_create_flow, ff_evaluate_flow_eligibility, ff_promote_blocked_to_eligible, ff_replay_execution, ff_resolve_dependency, ff_set_edge_group_policy, ff_stage_dependency_edge};
use crate::functions::flow::EdgeDependencyPolicy;
use crate::keys::FlowKeyContext;
use crate::numbers;
use crate::wire::Call;

verus! {

/// A creation of a flow tells the server, place by place, what was asked for.
pub proof fn law_create_flow_call(k: &FlowStructOpKeys<'_>, args: &CreateFlowArgs, r: Call)
    requires
        call_ensures(ff_create_flow, (k, args), r),
    ensures
        r.function == "ff_create_flow",
        r.keys_spec().len() == 3,
        r.keys_spec()[0] == k.fctx.core_key_spec(),
        r.keys_spec()[1] == k.fctx.members_spec(),
        r.keys_spec()[2] == k.fidx.flow_index_spec(),
        r.argv_spec().len() == 4,
        r.argv_spec()[0] == args.flow_id@,
        r.argv_spec()[1] == args.flow_kind@,
        r.argv_spec()[2] == args.namespace@,
        r.argv_spec()[3] == numbers::decimal(args.now.0 as int),
{
}

/// An addition to a flow tells the server, place by place, what was asked for.
pub proof fn law_add_execution_to_flow_call(k: &AddExecutionToFlowKeys<'_>, args: &AddExecutionToFlowArgs, r: Call)
    requires
        call_ensures(ff_add_execution_to_flow, (k, args), r),
    ensures
        r.function == "ff_add_execution_to_flow",
        r.keys_spec().len() == 4,
        r.keys_spec()[0] == k.fctx.core_key_spec(),
        r.keys_spec()[1] == k.fctx.members_spec(),
        r.keys_spec()[2] == k.fidx.flow_index_spec(),
        r.keys_spec()[3] == k.exec_ctx.core_key_spec(),
        r.argv_spec().len() == 3,
        r.argv_spec()[0] == args.flow_id@,
        r.argv_spec()[1] == args.execution_id@,
        r.argv_spec()[2] == numbers::decimal(args.now.0 as int),
{
}

/// A cancellation of a flow tells the server, place by place, what was asked for.
pub proof fn law_cancel_flow_call(k: &FlowStructOpKeys<'_>, args: &CancelFlowArgs, r: Call)
    requires
        call_ensures(ff_cancel_flow, (k, args), r),
    ensures
        r.function == "ff_cancel_flow",
        r.keys_spec().len() == 5,
        r.keys_spec()[0] == k.fctx.core_key_spec(),
        r.keys_spec()[1] == k.fctx.members_spec(),
        r.keys_spec()[2] == k.fidx.flow_index_spec(),
        r.keys_spec()[3] == k.fctx.pending_cancels_spec(),
        r.keys_spec()[4] == k.fidx.cancel_backlog_spec(),
        r.argv_spec().len() == 5,
        r.argv_spec()[0] == args.flow_id@,
        r.argv_spec()[1] == args.reason@,
        r.argv_spec()[2] == args.cancellation_policy@,
        r.argv_spec()[3] == numbers::decimal(args.now.0 as int),
        r.argv_spec()[4].len() == 0,
{
}

/// A question of eligibility tells the server, place by place, what was asked for.
pub proof fn law_evaluate_flow_eligibility_call(k: &DepOpKeys<'_>, r: Call)
    requires
        call_ensures(ff_evaluate_flow_eligibility, (k,), r),
    ensures
        r.function == "ff_evaluate_flow_eligibility",
        r.keys_spec().len() == 2,
        r.keys_spec()[0] == k.ctx.core_key_spec(),
        r.keys_spec()[1] == k.ctx.deps_meta_spec(),
        r.argv_spec().len() == 0,
{
}

/// An application of an edge tells the server, place by place, what was asked for.
pub proof fn law_apply_dependency_to_child_call(k: &DepOpKeys<'_>, args: &ApplyDependencyToChildArgs, r: Call)
    requires
        call_ensures(ff_apply_dependency_to_child, (k, args), r),
    ensures
        r.function == "ff_apply_dependency_to_child",
        r.keys_spec().len() == 8,
        r.keys_spec()[0] == k.ctx.core_key_spec(),
        r.keys_spec()[1] == k.ctx.deps_meta_spec(),
        r.keys_spec()[2] == k.ctx.deps_unresolved_spec(),
        r.keys_spec()[3] == k.ctx.dep_edge_spec(args.edge_id@),
        r.keys_spec()[4] == k.idx.lane_eligible_spec(k.lane_id@),
        r.keys_spec()[5] == k.idx.lane_blocked_dependencies_spec(k.lane_id@),
        r.keys_spec()[6] == k.ctx.deps_all_edges_spec(),
        r.keys_spec()[7] == k.flow_ctx.edgegroup_spec(k.downstream_eid@),
        r.argv_spec().len() == 7,
        r.argv_spec()[0] == args.flow_id@,
        r.argv_spec()[1] == args.edge_id@,
        r.argv_spec()[2] == args.upstream_execution_id@,
        r.argv_spec()[3] == numbers::decimal(args.graph_revision as int),
        r.argv_spec()[4] == args.dependency_kind@,
        args.data_passing_ref matches Some(s) ==> r.argv_spec()[5] == s@,
        args.data_passing_ref is None ==> r.argv_spec()[5].len() == 0,
        r.argv_spec()[6] == numbers::decimal(args.now.0 as int),
{
    reveal_strlit("");
}

/// A resolution of an edge tells the server, place by place, what was asked for.
pub proof fn law_resolve_dependency_call(k: &ResolveDependencyKeys<'_>, args: &ResolveDependencyArgs, r: Call)
    requires
        call_ensures(ff_resolve_dependency, (k, args), r),
    ensures
        r.function == "ff_resolve_dependency",
        r.keys_spec().len() == 14,
        r.keys_spec()[0] == k.ctx.core_key_spec(),
        r.keys_spec()[1] == k.ctx.deps_meta_spec(),
        r.keys_spec()[2] == k.ctx.deps_unresolved_spec(),
        r.keys_spec()[3] == k.ctx.dep_edge_spec(args.edge_id@),
        r.keys_spec()[4] == k.idx.lane_eligible_spec(k.lane_id@),
        r.keys_spec()[5] == k.idx.lane_terminal_spec(k.lane_id@),
        r.keys_spec()[6] == k.idx.lane_blocked_dependencies_spec(k.lane_id@),
        r.keys_spec()[7] == k.ctx.attempt_hash_spec(k.current_attempt_index),
        r.keys_spec()[8] == k.ctx.stream_meta_spec(k.current_attempt_index),
        r.keys_spec()[9] == k.ctx.payload_spec(),
        r.keys_spec()[10] == k.upstream_ctx.result_spec(),
        r.keys_spec()[11] == k.flow_ctx.edgegroup_spec(k.downstream_eid@),
        r.keys_spec()[12] == k.flow_ctx.incoming_spec(k.downstream_eid@),
        r.keys_spec()[13] == k.flow_idx.pending_cancel_groups_spec(),
        r.argv_spec().len() == 5,
        r.argv_spec()[0] == args.edge_id@,
        r.argv_spec()[1] == args.upstream_outcome@,
        r.argv_spec()[2] == numbers::decimal(args.now.0 as int),
        r.argv_spec()[3] == k.flow_ctx.fid_spec(),
        r.argv_spec()[4] == k.downstream_eid@,
{
}

/// A promotion tells the server, place by place, what was asked for.
pub proof fn law_promote_blocked_to_eligible_call(k: &DepOpKeys<'_>, args: &PromoteBlockedToEligibleArgs, r: Call)
    requires
        call_ensures(ff_promote_blocked_to_eligible, (k, args), r),
    ensures
        r.function == "ff_promote_blocked_to_eligible",
        r.keys_spec().len() == 5,
        r.keys_spec()[0] == k.ctx.core_key_spec(),
        r.keys_spec()[1] == k.idx.lane_blocked_dependencies_spec(k.lane_id@),
        r.keys_spec()[2] == k.idx.lane_eligible_spec(k.lane_id@),
        r.keys_spec()[3] == k.ctx.deps_meta_spec(),
        r.keys_spec()[4] == k.ctx.deps_unresolved_spec(),
        r.argv_spec().len() == 2,
        r.argv_spec()[0] == args.execution_id@,
        r.argv_spec()[1] == numbers::decimal(args.now.0 as int),
{
}

/// A replay tells the server, place by place, what was asked for.
pub proof fn law_replay_execution_call(k: &DepOpKeys<'_>, args: &ReplayExecutionArgs, r: Call)
    requires
        call_ensures(ff_replay_execution, (k, args), r),
    ensures
        r.function == "ff_replay_execution",
        r.keys_spec().len() == 4,
        r.keys_spec()[0] == k.ctx.core_key_spec(),
        r.keys_spec()[1] == k.idx.lane_terminal_spec(k.lane_id@),
        r.keys_spec()[2] == k.idx.lane_eligible_spec(k.lane_id@),
        r.keys_spec()[3] == k.ctx.lease_history_spec(),
        r.argv_spec().len() == 2,
        r.argv_spec()[0] == args.execution_id@,
        r.argv_spec()[1] == numbers::decimal(args.now.0 as int),
{
}

/// A staging of an edge tells the server, place by place, what was asked for.
pub proof fn law_stage_dependency_edge_call(k: &FlowStructOpKeys<'_>, args: &StageDependencyEdgeArgs, r: Call)
    requires
        call_ensures(ff_stage_dependency_edge, (k, args), r),
    ensures
        r.function == "ff_stage_dependency_edge",
        r.keys_spec().len() == 6,
        r.keys_spec()[0] == k.fctx.core_key_spec(),
        r.keys_spec()[1] == k.fctx.members_spec(),
        r.keys_spec()[2] == k.fctx.edge_spec(args.edge_id@),
        r.keys_spec()[3] == k.fctx.outgoing_spec(args.upstream_execution_id@),
        r.keys_spec()[4] == k.fctx.incoming_spec(args.downstream_execution_id@),
        r.keys_spec()[5] == k.fctx.grant_spec(args.edge_id@),
        r.argv_spec().len() == 8,
        r.argv_spec()[0] == args.flow_id@,
        r.argv_spec()[1] == args.edge_id@,
        r.argv_spec()[2] == args.upstream_execution_id@,
        r.argv_spec()[3] == args.downstream_execution_id@,
        r.argv_spec()[4] == args.dependency_kind@,
        args.data_passing_ref matches Some(s) ==> r.argv_spec()[5] == s@,
        args.data_passing_ref is None ==> r.argv_spec()[5].len() == 0,
        r.argv_spec()[6] == numbers::decimal(args.expected_graph_revision as int),
        r.argv_spec()[7] == numbers::decimal(args.now.0 as int),
{
    reveal_strlit("");
}

/// A policy of an edge group tells the server, place by place, what was asked for.
pub proof fn law_set_edge_group_policy_call(k: &SetEdgeGroupPolicyKeys<'_>, args: &SetEdgeGroupPolicyArgs, r: Call)
    requires
        call_ensures(ff_set_edge_group_policy, (k, args), r),
    ensures
        r.function == "ff_set_edge_group_policy",
        r.keys_spec().len() == 2,
        r.keys_spec()[0] == k.fctx.core_key_spec(),
        r.keys_spec()[1] == k.fctx.edgegroup_spec(k.downstream_eid@),
        r.argv_spec().len() == 4,
        r.argv_spec()[0] == args.policy.variant_spec()@,
        r.argv_spec()[1] == args.policy.on_satisfied_spec()@,
        r.argv_spec()[2] == numbers::decimal(args.policy.threshold_spec() as int),
        r.argv_spec()[3] == numbers::decimal(args.now.0 as int),
{
}

/// A policy tells how many executions are waited for, and what becomes of the others:
/// all, any or a number, and nothing where none is left over.
pub proof fn law_edge_group_policy_words(
    k: &SetEdgeGroupPolicyKeys<'_>,
    args: &SetEdgeGroupPolicyArgs,
    r: Call,
)
    requires
        call_ensures(ff_set_edge_group_policy, (k, args), r),
    ensures
        args.policy is AllOf ==> r.argv_spec()[0] == "all_of"@ && r.argv_spec()[1].len() == 0
            && r.argv_spec()[2] == numbers::decimal(0),
        args.policy matches EdgeDependencyPolicy::AnyOf { on_satisfied } ==> r.argv_spec()[0]
            == "any_of"@ && r.argv_spec()[2] == numbers::decimal(0) && r.argv_spec()[1] == (
        if on_satisfied is LetRun {
            "let_run"@
        } else {
            "cancel_remaining"@
        }),
        args.policy matches EdgeDependencyPolicy::Quorum { k, on_satisfied } ==> r.argv_spec()[0]
            == "quorum"@ && r.argv_spec()[2] == numbers::decimal(k as int) && r.argv_spec()[1] == (
        if on_satisfied is LetRun {
            "let_run"@
        } else {
            "cancel_remaining"@
        }),
{
    reveal_strlit("");
}

/// Every tag is sent, its key before its value, in the order of the keys, and nothing
/// else.
pub proof fn law_set_flow_tags_call(fctx: &FlowKeyContext, tags: &FieldMap, r: Call)
    requires
        call_ensures(ff_set_flow_tags, (fctx, tags), r),
    ensures
        r.function == "ff_set_flow_tags",
        r.keys_spec().len() == 2,
        r.keys_spec()[0] == fctx.core_key_spec(),
        r.keys_spec()[1] == fctx.tags_spec(),
        r.argv_spec().len() == 2 * tags.pairs().len(),
        forall|i: int|
            0 <= i < tags.pairs().len() ==> r.argv_spec()[2 * i] == (#[trigger] tags.pairs()[i]).0
                && r.argv_spec()[2 * i + 1] == tags.pairs()[i].1,
        field_map::ascending(tags.pairs()),
{
}

} // verus!
