//! A worker: what it is configured with, how it polls for work, and what it asks
//! the backend for.

use vstd::prelude::*;
use vstd::string::*;

use crate::admin::ClaimForWorkerRequest;
use crate::claim;
use crate::claim::Window;
use crate::config::WorkerConfig;
use crate::engine_error::EngineError;
use crate::field_map::FieldMap;
use crate::functions::execution::ClaimExecutionArgs;
use crate::functions::scheduling::IssueClaimGrantArgs;
use crate::functions::signal::{ClaimResumedExecutionArgs, DeliverSignalArgs, DeliverSignalResult};
use crate::grants;
use crate::grants::{ClaimGrant, ResumeGrant};
use crate::hash;
use crate::ids::{AttemptId, AttemptIndex, ExecutionId, LeaseEpoch, LeaseId, SignalId, TimestampMs, WaitpointId};
use crate::names::LaneId;
use crate::partition::{Partition, PartitionConfig};
use crate::preamble;
use crate::preamble::PreambleOutput;
use crate::reply;
use crate::reply::SignalOutcome;
use crate::sdk_error;
use crate::sdk_error::{SdkError, SdkErrorView};
use crate::task::{ClaimedTask, RenewalFailures};
use crate::text;
use crate::text_set;
use crate::text_set::TextSet;

verus! {

/// Life of a claim grant that a poll asks for.
pub const POLL_GRANT_TTL_MS: u64 = 5_000;

/// A worker.
pub struct FlowFabricWorker {
    config: WorkerConfig,
    partition_config: PartitionConfig,
    worker_capabilities_hash: String,
    lane_index: usize,
    scan_cursor: usize,
}

/// The refusal of a configuration without lanes.
pub open spec fn lanes_refusal(config: WorkerConfig) -> Option<SdkErrorView> {
    if config.lanes@.len() == 0 {
        Some(
            SdkError::Config {
                context: "worker_config"@,
                field: None,
                message: "at least one lane is required"@,
            },
        )
    } else {
        None
    }
}

/// The refusal of a configuration that does not say how to reach a backend.
pub open spec fn backend_refusal(config: WorkerConfig) -> Option<SdkErrorView> {
    if config.backend is None {
        Some(
            sdk_error::field_error(
                "worker_config"@,
                "backend"@,
                "a backend to dial is required; use FlowFabricWorker::connect_with for one that is already there"@,
            ),
        )
    } else {
        None
    }
}

/// The refusal of a configuration by a worker that dials its backend: no lanes, or
/// no backend.
pub open spec fn dial_refusal(config: WorkerConfig) -> Option<SdkErrorView> {
    match lanes_refusal(config) {
        Some(e) => Some(e),
        None => backend_refusal(config),
    }
}

/// The refusal of a configuration: no lanes, or a bad capability.
pub open spec fn config_refusal(config: WorkerConfig) -> Option<SdkErrorView> {
    match lanes_refusal(config) {
        Some(e) => Some(e),
        None => match preamble::first_fault(text::texts(config.capabilities@)) {
            Some(m) => Some(preamble::capabilities_error(m)),
            None => None,
        },
    }
}

/// A worker has a lane to claim from.
pub fn check_lanes(config: &WorkerConfig) -> (r: Result<(), SdkError>)
    ensures
        match lanes_refusal(*config) {
            Some(e) => r matches Err(x) && x@ == e,
            None => r is Ok,
        },
{
    if config.lanes.len() == 0 {
        return Err(
            sdk_error::bad_config("worker_config", "at least one lane is required".to_owned()),
        );
    }
    Ok(())
}

/// A worker that dials its backend has a lane to claim from, and knows where to dial.
/// This is decided before anything is dialed.
pub fn check_dial(config: &WorkerConfig) -> (r: Result<(), SdkError>)
    ensures
        match dial_refusal(*config) {
            Some(e) => r matches Err(x) && x@ == e,
            None => r is Ok,
        },
{
    match check_lanes(config) {
        Err(e) => {
            return Err(e);
        },
        Ok(_) => {},
    }
    match &config.backend {
        Some(_) => Ok(()),
        None => Err(
            sdk_error::bad_field(
                "worker_config",
                "backend",
                "a backend to dial is required; use FlowFabricWorker::connect_with for one that is already there".to_owned(),
            ),
        ),
    }
}

/// Where a worker process starts to scan among its partitions.
pub open spec fn first_cursor(config: WorkerConfig, partitions: PartitionConfig) -> usize {
    hash::scan_seed(
        config.worker_instance_id@,
        if partitions.num_flow_partitions == 0 {
            1
        } else {
            partitions.num_flow_partitions as usize
        },
    )
}

fn seed(config: &WorkerConfig, partitions: &PartitionConfig) -> (r: usize)
    ensures
        r == first_cursor(*config, *partitions),
{
    let n: usize = if partitions.num_flow_partitions == 0 {
        1
    } else {
        partitions.num_flow_partitions as usize
    };
    hash::scan_cursor_seed(config.worker_instance_id.as_str(), n)
}

impl FlowFabricWorker {
    /// There is a lane to claim from.
    #[verifier::type_invariant]
    pub closed spec fn valid(self) -> bool {
        self.config.lanes@.len() > 0
    }

    /// The configuration.
    pub closed spec fn config_spec(self) -> WorkerConfig {
        self.config
    }

    /// The number of partitions.
    pub closed spec fn partitions_spec(self) -> PartitionConfig {
        self.partition_config
    }

    /// The digest of the advertised capabilities.
    pub closed spec fn hash_spec(self) -> Seq<char> {
        self.worker_capabilities_hash@
    }

    /// Number of lanes handed out so far. It wraps round.
    pub closed spec fn lane_cursor(self) -> usize {
        self.lane_index
    }

    /// Where the next poll starts. It wraps round.
    pub closed spec fn cursor(self) -> usize {
        self.scan_cursor
    }

    /// A worker that was just made.
    pub open spec fn fresh(
        self,
        config: WorkerConfig,
        partitions: PartitionConfig,
        digest: Seq<char>,
    ) -> bool {
        self.config_spec() == config && self.partitions_spec() == partitions && self.hash_spec()
            == digest && self.lane_cursor() == 0 && self.cursor() == first_cursor(
            config,
            partitions,
        )
    }

    /// A worker on the backend that it dialed, after its preamble.
    pub fn connect(config: WorkerConfig, output: PreambleOutput) -> (r: Result<
        FlowFabricWorker,
        SdkError,
    >)
        ensures
            match dial_refusal(config) {
                Some(e) => r matches Err(x) && x@ == e,
                None => r matches Ok(w) && w.fresh(
                    config,
                    output.partition_config,
                    output.capabilities_hash@,
                ),
            },
    {
        match check_dial(&config) {
            Err(e) => {
                return Err(e);
            },
            Ok(_) => {},
        }
        let scan_cursor: usize = seed(&config, &output.partition_config);
        Ok(
            FlowFabricWorker {
                config,
                partition_config: output.partition_config,
                worker_capabilities_hash: output.capabilities_hash,
                lane_index: 0,
                scan_cursor,
            },
        )
    }

    /// A worker on a backend that needs no preamble. The number of partitions is
    /// the configured one, or the default.
    pub fn connect_with(config: WorkerConfig) -> (r: Result<FlowFabricWorker, SdkError>)
        ensures
            match config_refusal(config) {
                Some(e) => r matches Err(x) && x@ == e,
                None => r matches Ok(w) && w.fresh(
                    config,
                    match config.partition_config {
                        Some(p) => p,
                        None => PartitionConfig::default_spec(),
                    },
                    preamble::digest(preamble::csv_of(text::texts(config.capabilities@))),
                ),
            },
    {
        match check_lanes(&config) {
            Err(e) => {
                return Err(e);
            },
            Ok(_) => {},
        }
        let partition_config = match config.partition_config {
            Some(p) => p,
            None => PartitionConfig::default(),
        };
        match preamble::check_capabilities(&config.capabilities) {
            Err(e) => {
                return Err(e);
            },
            Ok(_) => {},
        }
        let worker_capabilities_hash = preamble::capabilities_hash(&config.capabilities);
        let scan_cursor: usize = seed(&config, &partition_config);
        Ok(
            FlowFabricWorker {
                config,
                partition_config,
                worker_capabilities_hash,
                lane_index: 0,
                scan_cursor,
            },
        )
    }

    /// The configuration.
    pub fn config(&self) -> (r: &WorkerConfig)
        ensures
            *r == self.config_spec(),
    {
        &self.config
    }

    /// The number of partitions that the worker goes by.
    pub fn partition_config(&self) -> (r: &PartitionConfig)
        ensures
            *r == self.partitions_spec(),
    {
        &self.partition_config
    }

    /// The digest of the capabilities, for log lines.
    pub fn capabilities_hash(&self) -> (r: &str)
        ensures
            r@ == self.hash_spec(),
    {
        self.worker_capabilities_hash.as_str()
    }

    // ── Polls ──

    /// The lane whose turn it is.
    pub open spec fn lane_due(self) -> Seq<char> {
        let lanes = self.config_spec().lanes@;
        lanes[self.lane_cursor() as int % lanes.len() as int]@
    }

    /// Hand out the lanes in turn.
    pub fn next_lane(&mut self) -> (r: LaneId)
        ensures
            r@ == old(self).lane_due(),
            final(self).lane_cursor() == vstd::wrapping::usize_specs::wrapping_add(
                old(self).lane_cursor(),
                1,
            ),
            final(self).config_spec() == old(self).config_spec(),
            final(self).partitions_spec() == old(self).partitions_spec(),
            final(self).hash_spec() == old(self).hash_spec(),
            final(self).cursor() == old(self).cursor(),
    {
        proof {
            use_type_invariant(&*self);
        }
        let at: usize = self.lane_index % self.config.lanes.len();
        let lane = self.config.lanes[at].copy();
        self.lane_index = self.lane_index.wrapping_add(1);
        lane
    }

    /// Start a poll: the lane and the window to scan. There is none when the worker
    /// has no free slot, which leaves the worker as it was, or when there are no
    /// partitions.
    pub fn claim_next(&mut self, permitted: bool) -> (r: Option<(LaneId, Window)>)
        ensures
            final(self).config_spec() == old(self).config_spec(),
            final(self).partitions_spec() == old(self).partitions_spec(),
            final(self).hash_spec() == old(self).hash_spec(),
            !permitted ==> r is None && final(self).lane_cursor() == old(self).lane_cursor()
                && final(self).cursor() == old(self).cursor(),
            permitted ==> final(self).lane_cursor() == vstd::wrapping::usize_specs::wrapping_add(
                old(self).lane_cursor(),
                1,
            ),
            permitted ==> match claim::window_at(
                old(self).cursor(),
                old(self).partitions_spec().num_flow_partitions,
            ) {
                None => r is None && final(self).cursor() == old(self).cursor(),
                Some(w) => r matches Some(p) && p.0@ == old(self).lane_due() && p.1 == w && w.wf()
                    && final(self).cursor() == claim::cursor_after(
                    old(self).cursor(),
                    old(self).partitions_spec().num_flow_partitions,
                ),
            },
    {
        if !permitted {
            return None;
        }
        let lane = self.next_lane();
        let n: usize = self.partition_config.num_flow_partitions as usize;
        match claim::window(self.scan_cursor, self.partition_config.num_flow_partitions) {
            None => None,
            Some(w) => {
                let chunk: usize = if n < claim::PARTITION_SCAN_CHUNK {
                    n
                } else {
                    claim::PARTITION_SCAN_CHUNK
                };
                proof {
                    use_type_invariant(&*self);
                }
                self.scan_cursor = self.scan_cursor.wrapping_add(chunk);
                Some((lane, w))
            },
        }
    }

    /// The capabilities, for a request for a grant.
    pub fn capabilities(&self) -> (r: TextSet)
        ensures
            r@ == text::texts(self.config_spec().capabilities@).to_set(),
            r.items_spec() == text_set::sorted(
                text::texts(self.config_spec().capabilities@).to_set(),
            ),
    {
        TextSet::collect(&self.config.capabilities)
    }

    /// The request for a grant that a poll makes.
    pub fn grant_args(&self, execution_id: &ExecutionId, lane: &LaneId) -> (r: IssueClaimGrantArgs)
        ensures
            r.execution_id@ == execution_id@,
            r.lane_id@ == lane@,
            r.worker_id@ == self.config_spec().worker_id@,
            r.worker_instance_id@ == self.config_spec().worker_instance_id@,
            r.worker_capabilities@ == text::texts(self.config_spec().capabilities@).to_set(),
            r.worker_capabilities.items_spec() == text_set::sorted(
                text::texts(self.config_spec().capabilities@).to_set(),
            ),
            r.grant_ttl_ms == POLL_GRANT_TTL_MS,
            r.capability_hash is None,
            r.route_snapshot_json is None,
            r.admission_summary is None,
    {
        IssueClaimGrantArgs {
            execution_id: execution_id.copy(),
            lane_id: lane.copy(),
            worker_id: self.config.worker_id.copy(),
            worker_instance_id: self.config.worker_instance_id.copy(),
            capability_hash: None,
            route_snapshot_json: None,
            admission_summary: None,
            worker_capabilities: self.capabilities(),
            grant_ttl_ms: POLL_GRANT_TTL_MS,
        }
    }

    // ── Claims ──

    /// The claim of a granted execution, once the number of its attempts was read.
    /// The new attempt has that number, which counts every attempt so far, so that
    /// it does not collide with one that ended.
    pub fn claim_args(
        &self,
        execution_id: &ExecutionId,
        lane: &LaneId,
        attempts: Result<AttemptIndex, EngineError>,
        lease_id: LeaseId,
        attempt_id: AttemptId,
    ) -> (r: Result<ClaimExecutionArgs, SdkError>)
        ensures
            match attempts {
                Err(e) => r matches Err(x) && x@ == sdk_error::of_engine(e@),
                Ok(n) => r matches Ok(a) && a.execution_id@ == execution_id@ && a.worker_id@
                    == self.config_spec().worker_id@ && a.worker_instance_id@
                    == self.config_spec().worker_instance_id@ && a.lane_id@ == lane@ && a.lease_id
                    == lease_id && a.lease_ttl_ms == self.config_spec().lease_ttl_ms
                    && a.attempt_id == attempt_id && a.expected_attempt_index == n
                    && a.attempt_policy_json@ == "{}"@ && a.attempt_timeout_ms is None
                    && a.execution_deadline_at is None,
            },
    {
        match attempts {
            Err(e) => Err(SdkError::from(e)),
            Ok(n) => Ok(
                ClaimExecutionArgs {
                    execution_id: execution_id.copy(),
                    worker_id: self.config.worker_id.copy(),
                    worker_instance_id: self.config.worker_instance_id.copy(),
                    lane_id: lane.copy(),
                    lease_id,
                    lease_ttl_ms: self.config.lease_ttl_ms,
                    attempt_id,
                    expected_attempt_index: n,
                    attempt_policy_json: "{}".to_owned(),
                    attempt_timeout_ms: None,
                    execution_deadline_at: None,
                },
            ),
        }
    }

    /// The claim of a resumed execution, once the index of its current attempt was
    /// read. The attempt goes on.
    pub fn resume_args(
        &self,
        execution_id: &ExecutionId,
        lane: &LaneId,
        current: Result<AttemptIndex, EngineError>,
        lease_id: LeaseId,
    ) -> (r: Result<ClaimResumedExecutionArgs, SdkError>)
        ensures
            match current {
                Err(e) => r matches Err(x) && x@ == sdk_error::of_engine(e@),
                Ok(n) => r matches Ok(a) && a.execution_id@ == execution_id@ && a.worker_id@
                    == self.config_spec().worker_id@ && a.worker_instance_id@
                    == self.config_spec().worker_instance_id@ && a.lane_id@ == lane@ && a.lease_id
                    == lease_id && a.lease_ttl_ms == self.config_spec().lease_ttl_ms
                    && a.current_attempt_index == n && a.remaining_attempt_timeout_ms is None,
            },
    {
        match current {
            Err(e) => Err(SdkError::from(e)),
            Ok(n) => Ok(
                ClaimResumedExecutionArgs {
                    execution_id: execution_id.copy(),
                    worker_id: self.config.worker_id.copy(),
                    worker_instance_id: self.config.worker_instance_id.copy(),
                    lane_id: lane.copy(),
                    lease_id,
                    lease_ttl_ms: self.config.lease_ttl_ms,
                    current_attempt_index: n,
                    remaining_attempt_timeout_ms: None,
                },
            ),
        }
    }

    /// The task of a claim, once the execution's payload was read.
    pub fn claimed_task(
        &self,
        execution_id: &ExecutionId,
        lane: &LaneId,
        lease: Lease,
        context: Result<ExecutionContext, EngineError>,
    ) -> (r: Result<ClaimedTask, SdkError>)
        ensures
            match context {
                Err(e) => r matches Err(x) && x@ == sdk_error::of_engine(e@),
                Ok(c) => r matches Ok(t) && t.partition_config == self.partitions_spec()
                    && t.execution_id@ == execution_id@ && t.attempt_index == lease.attempt_index
                    && t.attempt_id == lease.attempt_id && t.lease_id == lease.lease_id
                    && t.lease_epoch == lease.lease_epoch && t.lease_ttl_ms
                    == self.config_spec().lease_ttl_ms && t.lane_id@ == lane@
                    && t.worker_instance_id@ == self.config_spec().worker_instance_id@
                    && t.input_payload == c.input_payload && t.execution_kind == c.execution_kind
                    && t.tags == c.tags && t.renewal_failures == RenewalFailures(0)
                    && !t.terminal_op_called,
            },
    {
        match context {
            Err(e) => Err(SdkError::from(e)),
            Ok(c) => Ok(
                ClaimedTask {
                    partition_config: self.partition_config,
                    execution_id: execution_id.copy(),
                    attempt_index: lease.attempt_index,
                    attempt_id: lease.attempt_id,
                    lease_id: lease.lease_id,
                    lease_epoch: lease.lease_epoch,
                    lease_ttl_ms: self.config.lease_ttl_ms,
                    lane_id: lane.copy(),
                    worker_instance_id: self.config.worker_instance_id.copy(),
                    input_payload: c.input_payload,
                    execution_kind: c.execution_kind,
                    tags: c.tags,
                    renewal_failures: RenewalFailures(0),
                    terminal_op_called: false,
                },
            ),
        }
    }

    /// Start a claim under a scheduler's grant. Without a free slot nothing is sent,
    /// so that the grant is not used up.
    pub fn claim_from_grant(permitted: bool, lane: LaneId, grant: ClaimGrant) -> (r: Result<
        Target,
        SdkError,
    >)
        ensures
            if !permitted {
                r matches Err(x) && x@ == SdkErrorView::WorkerAtCapacity
            } else {
                match grants::partition_or_refusal("claim_from_grant"@, grant.partition_key@) {
                    Err(e) => r matches Err(x) && x@ == e,
                    Ok(partition) => r == Ok::<Target, SdkError>(
                        Target { execution_id: grant.execution_id, lane_id: lane, partition },
                    ),
                }
            },
    {
        if !permitted {
            return Err(SdkError::WorkerAtCapacity);
        }
        match grants::grant_partition("claim_from_grant", grant.partition_key.as_str()) {
            Err(e) => Err(e),
            Ok(partition) => Ok(
                Target { execution_id: grant.execution_id, lane_id: lane, partition },
            ),
        }
    }

    /// Start a claim of a resumed execution under a grant. Without a free slot
    /// nothing is sent, so that the grant is not used up.
    pub fn claim_from_resume_grant(permitted: bool, grant: ResumeGrant) -> (r: Result<
        Target,
        SdkError,
    >)
        ensures
            if !permitted {
                r matches Err(x) && x@ == SdkErrorView::WorkerAtCapacity
            } else {
                match grants::partition_or_refusal(
                    "claim_from_resume_grant"@,
                    grant.partition_key@,
                ) {
                    Err(e) => r matches Err(x) && x@ == e,
                    Ok(partition) => r == Ok::<Target, SdkError>(
                        Target {
                            execution_id: grant.execution_id,
                            lane_id: grant.lane_id,
                            partition,
                        },
                    ),
                }
            },
    {
        if !permitted {
            return Err(SdkError::WorkerAtCapacity);
        }
        match grants::grant_partition("claim_from_resume_grant", grant.partition_key.as_str()) {
            Err(e) => Err(e),
            Ok(partition) => Ok(
                Target { execution_id: grant.execution_id, lane_id: grant.lane_id, partition },
            ),
        }
    }

    /// The request for a grant from the server.
    pub fn claim_via_server(&self, lane: &LaneId, grant_ttl_ms: u64) -> (r: ClaimForWorkerRequest)
        ensures
            r.worker_id@ == self.config_spec().worker_id@,
            r.lane_id@ == lane@,
            r.worker_instance_id@ == self.config_spec().worker_instance_id@,
            text::texts(r.capabilities@) == text::texts(self.config_spec().capabilities@),
            r.grant_ttl_ms == grant_ttl_ms,
    {
        ClaimForWorkerRequest {
            worker_id: self.config.worker_id.as_str().to_owned(),
            lane_id: lane.as_str().to_owned(),
            worker_instance_id: self.config.worker_instance_id.as_str().to_owned(),
            capabilities: text::copies(&self.config.capabilities),
            grant_ttl_ms,
        }
    }
}

/// What to claim.
#[derive(Debug)]
pub struct Target {
    pub execution_id: ExecutionId,
    pub lane_id: LaneId,
    pub partition: Partition,
}

/// A lease, as a claim gives it.
#[derive(Debug)]
pub struct Lease {
    pub lease_id: LeaseId,
    pub lease_epoch: LeaseEpoch,
    pub attempt_index: AttemptIndex,
    pub attempt_id: AttemptId,
}

/// What a task works on.
#[derive(Debug)]
pub struct ExecutionContext {
    pub input_payload: Vec<u8>,
    pub execution_kind: String,
    pub tags: FieldMap,
}

/// The lanes come round: as long as the count has not wrapped, two turns that are as
/// many apart as there are lanes have the same lane, and any turns in between others.
pub proof fn law_lanes_take_turns(lanes: nat, a: nat, b: nat)
    requires
        lanes > 0,
        a < b,
    ensures
        b == a + lanes ==> a as int % lanes as int == b as int % lanes as int,
        b < a + lanes ==> a as int % lanes as int != b as int % lanes as int,
{
    let n = lanes as int;
    vstd::arithmetic::div_mod::lemma_fundamental_div_mod(a as int, n);
    vstd::arithmetic::div_mod::lemma_fundamental_div_mod(b as int, n);
    let qa = a as int / n;
    let qb = b as int / n;
    if b == a + lanes {
        vstd::arithmetic::div_mod::lemma_mod_add_multiples_vanish(a as int, n);
    }
    if b < a + lanes && a as int % n == b as int % n {
        assert(b - a == n * (qb - qa)) by (nonlinear_arith)
            requires
                a == n * qa + a as int % n,
                b == n * qb + b as int % n,
                a as int % n == b as int % n,
        ;
        assert(false) by (nonlinear_arith)
            requires
                b - a == n * (qb - qa),
                0 < b - a < n,
        ;
    }
}

// ── Blocking ──

/// A request to take an execution off the eligible ones.
pub struct BlockRouteArgs {
    pub execution_id: ExecutionId,
    pub lane_id: LaneId,
    pub partition: Partition,
    pub reason_code: String,
    pub reason_detail: String,
    pub now: TimestampMs,
}

/// The request that follows when no connected worker is capable of an execution.
pub fn block_route_args(
    execution_id: &ExecutionId,
    lane: &LaneId,
    partition: Partition,
    now: TimestampMs,
) -> (r: BlockRouteArgs)
    ensures
        r.execution_id@ == execution_id@,
        r.lane_id@ == lane@,
        r.partition == partition,
        r.reason_code@ == "waiting_for_capable_worker"@,
        r.reason_detail@ == "no connected worker satisfies required_capabilities"@,
        r.now == now,
{
    BlockRouteArgs {
        execution_id: execution_id.copy(),
        lane_id: lane.copy(),
        partition,
        reason_code: "waiting_for_capable_worker".to_owned(),
        reason_detail: "no connected worker satisfies required_capabilities".to_owned(),
        now,
    }
}

// ── Signals ──

/// A signal to deliver.
#[derive(Debug)]
pub struct Signal {
    pub signal_name: String,
    pub signal_category: String,
    pub payload: Option<Vec<u8>>,
    pub source_type: String,
    pub source_identity: String,
    pub idempotency_key: Option<String>,
    /// What the waitpoint's holder was given, to prove that the signal is meant for
    /// it.
    pub waitpoint_token: String,
}

/// A delivery: its arguments, and the token that goes with them.
pub struct SignalDelivery {
    pub args: DeliverSignalArgs,
    pub waitpoint_token: String,
    pub now: TimestampMs,
}

/// The delivery of a signal to a waitpoint.
pub fn deliver_signal(
    execution_id: &ExecutionId,
    waitpoint_id: &WaitpointId,
    signal: Signal,
    signal_id: SignalId,
    now: TimestampMs,
) -> (r: SignalDelivery)
    ensures
        r.args.execution_id@ == execution_id@,
        r.args.waitpoint_id@ == waitpoint_id@,
        r.args.signal_id == signal_id,
        r.args.signal_name == signal.signal_name,
        r.args.signal_category == signal.signal_category,
        r.args.source_type == signal.source_type,
        r.args.source_identity == signal.source_identity,
        r.args.payload == signal.payload,
        text::opt_text(r.args.payload_encoding) == Some("json"@),
        r.args.correlation_id is None,
        r.args.idempotency_key == signal.idempotency_key,
        r.args.target_scope@ == "waitpoint"@,
        r.args.created_at == Some(now),
        r.args.dedup_ttl_ms is None,
        r.args.resume_delay_ms is None,
        r.args.max_signals_per_execution is None,
        r.args.signal_maxlen is None,
        r.waitpoint_token == signal.waitpoint_token,
        r.now == now,
{
    SignalDelivery {
        args: DeliverSignalArgs {
            execution_id: execution_id.copy(),
            waitpoint_id: waitpoint_id.copy(),
            signal_id,
            signal_name: signal.signal_name,
            signal_category: signal.signal_category,
            source_type: signal.source_type,
            source_identity: signal.source_identity,
            payload: signal.payload,
            payload_encoding: Some("json".to_owned()),
            correlation_id: None,
            idempotency_key: signal.idempotency_key,
            target_scope: "waitpoint".to_owned(),
            created_at: Some(now),
            dedup_ttl_ms: None,
            resume_delay_ms: None,
            max_signals_per_execution: None,
            signal_maxlen: None,
        },
        waitpoint_token: signal.waitpoint_token,
        now,
    }
}

/// What came of a delivery.
pub open spec fn delivered(
    out: Result<DeliverSignalResult, EngineError>,
) -> Result<SignalOutcome<Seq<char>, Seq<char>>, SdkErrorView> {
    match out {
        Err(e) => Err(sdk_error::of_engine(e@)),
        Ok(DeliverSignalResult::Accepted { signal_id, effect }) => Ok(
            reply::signal_effect(signal_id@, effect@),
        ),
        Ok(DeliverSignalResult::Duplicate { existing_signal_id }) => Ok(
            SignalOutcome::Duplicate { existing_signal_id: existing_signal_id@ },
        ),
    }
}

/// What came of a delivery.
pub fn signal_outcome(out: Result<DeliverSignalResult, EngineError>) -> (r: Result<
    SignalOutcome,
    SdkError,
>)
    ensures
        match r {
            Ok(x) => delivered(out) == Ok::<SignalOutcome<Seq<char>, Seq<char>>, SdkErrorView>(x@),
            Err(e) => delivered(out) == Err::<SignalOutcome<Seq<char>, Seq<char>>, SdkErrorView>(
                e@,
            ),
        },
{
    match out {
        Err(e) => Err(SdkError::from(e)),
        Ok(DeliverSignalResult::Accepted { signal_id, effect }) => Ok(
            reply::outcome_of_effect(signal_id, effect),
        ),
        Ok(DeliverSignalResult::Duplicate { existing_signal_id }) => Ok(
            SignalOutcome::Duplicate {
                existing_signal_id: existing_signal_id.as_str().to_owned(),
            },
        ),
    }
}

} // verus!
