//! Edges between executions, the flow of an execution, and the registry of workers.

use vstd::prelude::*;
use vstd::string::*;

use crate::engine_error::{ConflictKind, EdgeSnapshot, EngineError};
use crate::error::{ScriptError, ServerError};
use crate::field_map::FieldMap;
use crate::functions::worker_registry::{
    heartbeat_outcome, HeartbeatReplyTag, HeartbeatWorkerOutcome, HeartbeatWorkerReply,
};
use crate::ids;
use crate::ids::{EdgeId, ExecutionId, FlowId};
use crate::partition;
use crate::partition::{Partition, PartitionConfig, PartitionFamily};
use crate::sdk_error::{BackendError, SdkError};
use crate::snapshot;
use crate::snapshot::{
    check_co_location, describe_edge, edge_key, enrich_dependency_conflict, resolve_flow_id,
};
use crate::signal_bridge::waitpoint_partition;

verus! {

/// An execution without a stored flow has none. A stored flow is the execution's exactly
/// where it lives in the execution's partition; elsewhere, and where it is no identity, the
/// record is corrupt.
pub proof fn law_flow_lives_with_its_execution(
    eid: &ExecutionId,
    config: &PartitionConfig,
    index: u16,
    reply: Result<Option<String>, BackendError>,
    r: Result<Option<FlowId>, SdkError>,
)
    requires
        call_ensures(resolve_flow_id, (eid, config, reply), r),
        ids::tagged(eid@, index),
    ensures
        (reply matches Ok(None)) ==> r matches Ok(None),
        (reply matches Ok(Some(s)) && s@.len() == 0) ==> r matches Ok(None),
        reply is Err ==> (r matches Err(x) && x is BackendContext),
        (reply matches Ok(Some(s)) && ids::canonical_uuid(s@) && s@.len() > 0
            && partition::flow_index_of(s@, config.num_flow_partitions) == index) ==> (r matches Ok(
            Some(f),
        ) && f@ == reply->Ok_0->0@),
        (reply matches Ok(Some(s)) && ids::canonical_uuid(s@) && s@.len() > 0
            && partition::flow_index_of(s@, config.num_flow_partitions) != index) ==> (r matches Err(
            SdkError::Engine(b),
        ) && (*b matches EngineError::Validation { kind, .. } && kind is Corruption)),
{
    let i = choose|i: u16| #[trigger]
        ids::tagged(eid@, i) && snapshot::resolved(r, reply, i, config.num_flow_partitions);
    ids::law_partition_unique(eid@, i, index);
}

/// A flow and its execution share a partition, or the record is corrupt.
pub proof fn law_co_location(flow: FlowId, index: u16, at: u16, r: Result<FlowId, EngineError>)
    requires
        call_ensures(check_co_location, (flow, index, at), r),
    ensures
        index == at ==> r == Ok::<FlowId, EngineError>(flow),
        index != at ==> (r matches Err(e) && (e matches EngineError::Validation { kind, .. }
            && kind is Corruption)),
{
}

/// A stored edge is described as it is; without a record there is none; a record that is not
/// sound is corrupt; a read that failed is a fault of the backend.
pub proof fn law_edge_is_described(
    flow: &FlowId,
    edge: &EdgeId,
    reply: Result<FieldMap, BackendError>,
    r: Result<Option<EdgeSnapshot>, SdkError>,
)
    requires
        call_ensures(describe_edge, (flow, edge, reply), r),
    ensures
        reply is Err ==> (r matches Err(x) && x is BackendContext),
        (reply matches Ok(f) && f.pairs().len() == 0) ==> r matches Ok(None),
        (reply matches Ok(f) && f.pairs().len() > 0 && snapshot::edge_of(flow@, edge@, f@) is Some)
            ==> (r matches Ok(Some(s)) && s@ == snapshot::edge_of(flow@, edge@, reply->Ok_0@)->0),
        (reply matches Ok(f) && f.pairs().len() > 0 && snapshot::edge_of(flow@, edge@, f@) is None)
            ==> (r matches Err(SdkError::Engine(b)) && (*b matches EngineError::Validation {
            kind,
            ..
        } && kind is Corruption)),
{
}

/// A new edge that is in conflict is told with the one that is in its way, where that one is
/// known in full. Else the bare conflict stays, as it came from the server.
pub proof fn law_conflict_is_told_in_full_or_not(
    flow: &FlowId,
    edge: &EdgeId,
    reply: Result<FieldMap, ServerError>,
    r: Result<EngineError, EngineError>,
)
    requires
        call_ensures(enrich_dependency_conflict, (flow, edge, reply), r),
    ensures
        r is Ok <==> (reply matches Ok(f) && f.pairs().len() > 0 && snapshot::edge_of(
            flow@,
            edge@,
            f@,
        ) is Some),
        r matches Ok(x) ==> (x@ matches EngineError::Conflict(
            ConflictKind::DependencyAlreadyExists { existing },
        ) && existing == snapshot::edge_of(flow@, edge@, reply->Ok_0@)->0),
        r matches Err(x) ==> (x@ matches EngineError::Transport { backend, source } && backend
            == "valkey" && source == crate::engine_error::TransportSource::<Seq<char>>::Script(
            ScriptError::DependencyAlreadyExists,
        )),
{
}

/// An edge is stored under its flow, in the flow's partition.
pub proof fn law_edge_key(config: &PartitionConfig, flow: &FlowId, edge: &EdgeId, r: String)
    requires
        call_ensures(edge_key, (config, flow, edge), r),
    ensures
        r@ == "ff:flow:"@ + (Partition {
            family: PartitionFamily::Flow,
            index: partition::flow_index_of(flow@, config.num_flow_partitions),
        }).tag_spec() + ":"@ + flow@ + ":edge:"@ + edge@,
{
}

/// The waitpoints of an execution are stored in its own partition.
pub proof fn law_waitpoints_live_with_their_execution(eid: &ExecutionId, index: u16, r: String)
    requires
        call_ensures(waitpoint_partition, (eid,), r),
        ids::tagged(eid@, index),
    ensures
        r@ == (Partition { family: PartitionFamily::Execution, index }).tag_spec(),
{
    let i = choose|i: u16| #[trigger]
        ids::tagged(eid@, i) && r@ == (Partition {
            family: PartitionFamily::Flow,
            index: i,
        }).tag_spec();
    ids::law_partition_unique(eid@, i, index);
}

/// A worker that is registered stays so until its life has passed from now on, as far as
/// times reach; one that is not is told so.
pub proof fn law_registration_expires(
    reply: &HeartbeatWorkerReply,
    now: i64,
    r: HeartbeatWorkerOutcome,
)
    requires
        call_ensures(heartbeat_outcome, (reply, now), r),
    ensures
        reply.outcome_tag is NotRegistered <==> r is NotRegistered,
        (reply.outcome_tag matches HeartbeatReplyTag::Refreshed { ttl_ms } && ttl_ms <= i64::MAX
            && now + ttl_ms <= i64::MAX) ==> (r matches HeartbeatWorkerOutcome::Refreshed {
            next_expiry_ms,
        } && next_expiry_ms.0 == now + reply.outcome_tag->ttl_ms),
        (reply.outcome_tag matches HeartbeatReplyTag::Refreshed { ttl_ms } && ttl_ms <= i64::MAX
            && now + ttl_ms > i64::MAX) ==> (r matches HeartbeatWorkerOutcome::Refreshed {
            next_expiry_ms,
        } && next_expiry_ms.0 == i64::MAX),
{
}

} // verus!
