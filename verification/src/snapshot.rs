//! Reads of stored dependency edges.

use vstd::prelude::*;
use vstd::string::*;

use ff_core::contracts::decode;

use crate::engine_error;
use crate::engine_error::{ConflictKind, EdgeSnapshot, EngineError, TransportSource, ValidationKind};
use crate::error::{ScriptError, ScriptErrorView, ServerError};
use crate::field_map::FieldMap;
use crate::ids;
use crate::ids::{EdgeId, ExecutionId, FlowId};
use crate::keys::FlowKeyContext;
use crate::numbers;
use crate::partition;
use crate::partition::{Partition, PartitionConfig, PartitionFamily};
use crate::sdk_error;
use crate::sdk_error::{BackendError, SdkError, SdkErrorView};
use crate::text;

verus! {

// ── The flow of an execution ──

/// The error for stored data that contradicts itself.
pub open spec fn corruption(detail: Seq<char>) -> EngineError<Seq<char>> {
    EngineError::Validation { kind: ValidationKind::Corruption, detail }
}

fn corrupt(detail: String) -> (r: EngineError)
    ensures
        r@ == corruption(detail@),
{
    EngineError::Validation { kind: ValidationKind::Corruption, detail }
}

/// The error for a flow in partition `at` of an execution in partition `index`, unless
/// the two are the same.
pub open spec fn strayed(flow: Seq<char>, index: u16, at: u16) -> Option<EngineError<Seq<char>>> {
    if index == at {
        None
    } else {
        Some(
            corruption(
                "list_edges: exec_core: flow_id: '"@ + flow + "' partition "@ + numbers::decimal(
                    at as int,
                ) + " does not match execution partition "@ + numbers::decimal(index as int)
                    + " (co-location violation; key corruption?)"@,
            ),
        )
    }
}

/// A flow lives in the partition of its execution.
pub fn check_co_location(flow_id: FlowId, index: u16, at: u16) -> (r: Result<FlowId, EngineError>)
    ensures
        match strayed(flow_id@, index, at) {
            Some(e) => r matches Err(x) && x@ == e,
            None => r == Ok::<FlowId, EngineError>(flow_id),
        },
{
    if index == at {
        return Ok(flow_id);
    }
    let mut m = "list_edges: exec_core: flow_id: '".to_owned();
    m.append(flow_id.as_str());
    m.append("' partition ");
    m.append(numbers::u64_text(at as u64).as_str());
    m.append(" does not match execution partition ");
    m.append(numbers::u64_text(index as u64).as_str());
    m.append(" (co-location violation; key corruption?)");
    Err(corrupt(m))
}

/// The flow of an execution in partition `index`, from the field in which it is
/// stored: none where the field is missing or empty. A flow that lives in another
/// partition than its execution is corrupt, since reads would go astray.
pub open spec fn flow_of(
    raw: Option<Seq<char>>,
    index: u16,
    num_flow_partitions: u16,
) -> Result<Option<Seq<char>>, EngineError<Seq<char>>> {
    match raw {
        None => Ok(None),
        Some(s) => if s.len() == 0 {
            Ok(None)
        } else {
            match ids::flow_id_of(s) {
                Err(e) => Err(
                    corruption(
                        "list_edges: exec_core: flow_id: '"@ + s
                            + "' is not a valid UUID (key corruption?): "@ + e,
                    ),
                ),
                Ok(id) => match strayed(
                    id,
                    index,
                    partition::flow_index_of(id, num_flow_partitions),
                ) {
                    Some(e) => Err(e),
                    None => Ok(Some(id)),
                },
            }
        },
    }
}

/// Whether `r` is the flow of an execution in partition `index`.
pub open spec fn resolved(
    r: Result<Option<FlowId>, SdkError>,
    reply: Result<Option<String>, BackendError>,
    index: u16,
    num_flow_partitions: u16,
) -> bool {
    match reply {
        Err(e) => r matches Err(x) && x@ == (SdkErrorView::BackendContext {
            source: e@,
            context: "list_edges: HGET exec_core.flow_id"@,
        }),
        Ok(raw) => match flow_of(text::opt_text(raw), index, num_flow_partitions) {
            Err(e) => r matches Err(x) && x@ == sdk_error::of_engine(e),
            Ok(None) => r matches Ok(None),
            Ok(Some(id)) => r matches Ok(Some(f)) && f@ == id,
        },
    }
}

/// The flow of an execution, from the field in which it is stored.
pub fn resolve_flow_id(
    eid: &ExecutionId,
    config: &PartitionConfig,
    reply: Result<Option<String>, BackendError>,
) -> (r: Result<Option<FlowId>, SdkError>)
    requires
        config.num_flow_partitions > 0,
    ensures
        forall|index: u16| #[trigger]
            ids::tagged(eid@, index) ==> resolved(r, reply, index, config.num_flow_partitions),
        exists|index: u16| #[trigger]
            ids::tagged(eid@, index) && resolved(r, reply, index, config.num_flow_partitions),
{
    let index: u16 = eid.partition();
    proof {
        assert forall|i: u16| #[trigger] ids::tagged(eid@, i) implies i == index by {
            ids::law_partition_unique(eid@, i, index);
        }
    }
    let raw = match reply {
        Err(e) => {
            return Err(
                sdk_error::backend_context(e, "list_edges: HGET exec_core.flow_id".to_owned()),
            );
        },
        Ok(raw) => raw,
    };
    let s = match raw {
        None => {
            return Ok(None);
        },
        Some(s) => s,
    };
    if s.as_str().is_empty() {
        return Ok(None);
    }
    let flow_id = match FlowId::parse(s.as_str()) {
        Ok(id) => id,
        Err(e) => {
            let mut m = "list_edges: exec_core: flow_id: '".to_owned();
            m.append(s.as_str());
            m.append("' is not a valid UUID (key corruption?): ");
            m.append(e.as_str());
            return Err(SdkError::from(corrupt(m)));
        },
    };
    let at: u16 = partition::flow_partition(&flow_id, config).index;
    match check_co_location(flow_id, index, at) {
        Ok(flow_id) => Ok(Some(flow_id)),
        Err(e) => Err(SdkError::from(e)),
    }
}

/// A resolved flow lives in the partition of its execution.
pub proof fn law_resolved_flow_shares_partition(
    raw: Option<Seq<char>>,
    index: u16,
    n: u16,
    id: Seq<char>,
)
    requires
        flow_of(raw, index, n) == Ok::<Option<Seq<char>>, EngineError<Seq<char>>>(Some(id)),
    ensures
        partition::flow_index_of(id, n) == index,
{
}

// ── Edges ──

/// The edge that `ff_core::contracts::decode::build_edge_snapshot` reads from a
/// stored hash, if the hash is sound.
pub uninterp spec fn edge_of(
    flow: Seq<char>,
    edge: Seq<char>,
    raw: Map<Seq<char>, Seq<char>>,
) -> Option<EdgeSnapshot<Seq<char>>>;

/// The edge in the outcome of a read.
pub open spec fn edge_in(r: Result<EdgeSnapshot, String>) -> Option<EdgeSnapshot<Seq<char>>> {
    match r {
        Ok(s) => Some(s@),
        Err(_) => None,
    }
}

/// Whether the outcome of a read is an edge with this identity, or none.
pub open spec fn belongs(r: Result<EdgeSnapshot, String>, flow: Seq<char>, edge: Seq<char>) -> bool {
    match r {
        Ok(s) => s.flow_id@ == flow && s.edge_id@ == edge,
        Err(_) => true,
    }
}

/// `ff_core::contracts::decode::build_edge_snapshot`: the edge named `edge_of`, which
/// has the identity that was asked for. The words of the error are left unsaid: which
/// of several faults they tell depends on the order of a hash map.
#[verifier::external_body]
fn build_edge(flow: &str, edge: &str, raw: &FieldMap) -> (r: Result<EdgeSnapshot, String>)
    requires
        ids::flow_id_of(flow@) == ids::Parsed::Ok(flow@),
        ids::edge_id_of(edge@) == ids::Parsed::Ok(edge@),
    ensures
        edge_in(r) == edge_of(flow@, edge@, raw@),
        belongs(r, flow@, edge@),
{
    let f = ff_core::types::FlowId::parse(flow).unwrap();
    let e = ff_core::types::EdgeId::parse(edge).unwrap();
    let raw = raw.entries().iter().cloned().collect();
    match decode::build_edge_snapshot(&f, &e, &raw) {
        Ok(s) => Ok(EdgeSnapshot {
            edge_id: s.edge_id.to_string(), flow_id: s.flow_id.to_string(),
            upstream_execution_id: s.upstream_execution_id.to_string(),
            downstream_execution_id: s.downstream_execution_id.to_string(),
            dependency_kind: s.dependency_kind, satisfaction_condition: s.satisfaction_condition,
            data_passing_ref: s.data_passing_ref, edge_state: s.edge_state,
            created_at: s.created_at.0, created_by: s.created_by,
        }),
        Err(ff_core::engine_error::EngineError::Validation { detail, .. }) => Err(detail),
        Err(e) => Err(e.to_string()),
    }
}

/// The key of a stored edge.
pub fn edge_key(config: &PartitionConfig, flow_id: &FlowId, edge_id: &EdgeId) -> (r: String)
    requires
        config.num_flow_partitions > 0,
    ensures
        r@ == "ff:flow:"@ + (Partition {
            family: PartitionFamily::Flow,
            index: partition::flow_index_of(flow_id@, config.num_flow_partitions),
        }).tag_spec() + ":"@ + flow_id@ + ":edge:"@ + edge_id@,
{
    let p = partition::flow_partition(flow_id, config);
    let ctx = FlowKeyContext::new(&p, flow_id);
    ctx.edge(edge_id)
}

/// Whether `r` is what a client sees of a stored edge, given what a read of the hash
/// gave.
pub open spec fn described(
    r: Result<Option<EdgeSnapshot>, SdkError>,
    fields: FieldMap,
    edge: Option<EdgeSnapshot<Seq<char>>>,
) -> bool {
    if fields.pairs().len() == 0 {
        r matches Ok(None)
    } else {
        match edge {
            Some(e) => r matches Ok(Some(s)) && s@ == e,
            None => match r {
                Err(SdkError::Engine(b)) => match *b {
                    EngineError::Validation { kind, .. } => kind == ValidationKind::Corruption,
                    _ => false,
                },
                _ => false,
            },
        }
    }
}

/// What a client sees of a stored edge, from what a read of the hash gave.
pub fn edge_or_corruption(fields: &FieldMap, edge: Result<EdgeSnapshot, String>) -> (r: Result<
    Option<EdgeSnapshot>,
    SdkError,
>)
    ensures
        described(r, *fields, edge_in(edge)),
{
    if fields.len() == 0 {
        return Ok(None);
    }
    match edge {
        Ok(s) => Ok(Some(s)),
        Err(detail) => Err(SdkError::from(corrupt(detail))),
    }
}

/// A stored edge, from the hash in which it is stored. There is none where the hash
/// is empty; a hash that is not sound is corrupt.
pub fn describe_edge(
    flow_id: &FlowId,
    edge_id: &EdgeId,
    reply: Result<FieldMap, BackendError>,
) -> (r: Result<Option<EdgeSnapshot>, SdkError>)
    ensures
        match reply {
            Err(e) => r matches Err(x) && x@ == (SdkErrorView::BackendContext {
                source: e@,
                context: "describe_edge: HGETALL edge_hash"@,
            }),
            Ok(fields) => described(r, fields, edge_of(flow_id@, edge_id@, fields@)),
        },
{
    match reply {
        Err(e) => Err(
            sdk_error::backend_context(e, "describe_edge: HGETALL edge_hash".to_owned()),
        ),
        Ok(fields) => edge_or_corruption(
            &fields,
            build_edge(flow_id.as_str(), edge_id.as_str(), &fields),
        ),
    }
}

// ── Conflicts ──

/// A transport error around a server function's error.
pub open spec fn transport_of(e: ScriptErrorView) -> EngineError<Seq<char>> {
    EngineError::Transport { backend: "valkey", source: TransportSource::Script(e) }
}

/// The error for an edge that is already there, before it is known which.
pub open spec fn bare_conflict() -> EngineError<Seq<char>> {
    transport_of(ScriptError::DependencyAlreadyExists)
}

/// Tell which edge is in the way of a new one, from the hash in which it is stored.
/// Where the hash cannot be read, is empty or is not sound, the bare error stays:
/// an edge that is half known is never reported.
pub fn enrich_dependency_conflict(
    flow_id: &FlowId,
    edge_id: &EdgeId,
    reply: Result<FieldMap, ServerError>,
) -> (r: Result<EngineError, EngineError>)
    ensures
        match reply {
            Err(_) => r matches Err(x) && x@ == bare_conflict(),
            Ok(fields) => if fields.pairs().len() == 0 {
                r matches Err(x) && x@ == bare_conflict()
            } else {
                match edge_of(flow_id@, edge_id@, fields@) {
                    None => r matches Err(x) && x@ == bare_conflict(),
                    Some(existing) => r matches Ok(x) && x@ == EngineError::<Seq<char>>::Conflict(
                        ConflictKind::DependencyAlreadyExists { existing },
                    ),
                }
            },
        },
{
    match reply {
        Err(_) => Err(engine_error::transport_script(ScriptError::DependencyAlreadyExists)),
        Ok(fields) => {
            if fields.len() == 0 {
                return Err(engine_error::transport_script(ScriptError::DependencyAlreadyExists));
            }
            match build_edge(flow_id.as_str(), edge_id.as_str(), &fields) {
                Ok(existing) => Ok(
                    EngineError::Conflict(ConflictKind::DependencyAlreadyExists { existing }),
                ),
                Err(_) => Err(engine_error::transport_script(ScriptError::DependencyAlreadyExists)),
            }
        },
    }
}

} // verus!
