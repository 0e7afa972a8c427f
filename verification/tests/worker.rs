use std::collections::HashSet;

use flowfabric::claim::{
    after_block, after_claim, after_grant, after_granted_claim, after_resume, after_scan,
    is_retryable_claim_error, ClaimStep, GrantedStep, Window,
};
use flowfabric::config::WorkerConfig;
use flowfabric::engine_error::{ContentionKind, EngineError, StateKind, ValidationKind};
use flowfabric::field_map::FieldMap;
use flowfabric::functions::signal::DeliverSignalResult;
use flowfabric::grants::{
    claim_from_reclaim_grant, validate_reclaim_grant_against_args, ClaimGrant, ReclaimExecutionArgs,
    ReclaimGrant, ResumeGrant,
};
use flowfabric::hash::scan_cursor_seed;
use flowfabric::ids::{
    AttemptId, AttemptIndex, ExecutionId, LeaseEpoch, LeaseId, SignalId, TimestampMs, WaitpointId,
};
use flowfabric::names::{LaneId, Namespace, WorkerId, WorkerInstanceId};
use flowfabric::partition::{PartitionConfig, PartitionFamily};
use flowfabric::preamble;
use flowfabric::preamble::PreambleOutput;
use flowfabric::reply::SignalOutcome;
use flowfabric::sdk_error::{BackendError, BackendErrorKind, SdkError};
use flowfabric::worker::{
    block_route_args, check_dial, deliver_signal, signal_outcome, ExecutionContext, FlowFabricWorker, Lease,
    Signal,
};

const EXEC_A: &str = "{fp:7}:00000000-0000-4000-8000-000000000001";
const EXEC_B: &str = "{fp:7}:00000000-0000-4000-8000-000000000002";

fn exec(s: &str) -> ExecutionId {
    ExecutionId::parse(s).expect("valid execution id")
}

fn lease_id() -> LeaseId {
    LeaseId::parse("00000000-0000-4000-8000-00000000000a").unwrap()
}

fn attempt_id() -> AttemptId {
    AttemptId::parse("00000000-0000-4000-8000-00000000000b").unwrap()
}

// ── Taking over ──

fn grant_for(execution_id: ExecutionId, lane: &str, expires_at_ms: u64) -> ReclaimGrant {
    ReclaimGrant {
        execution_id,
        partition_key: "{fp:7}".to_owned(),
        grant_key: "reclaim:grant:abc".to_owned(),
        expires_at_ms,
        lane_id: LaneId::new(lane),
    }
}

fn args_for(execution_id: ExecutionId, lane: &str) -> ReclaimExecutionArgs {
    ReclaimExecutionArgs {
        execution_id,
        worker_id: WorkerId::new("w1"),
        worker_instance_id: WorkerInstanceId::new("w1-i1"),
        lane_id: LaneId::new(lane),
        capability_hash: None,
        lease_id: lease_id(),
        lease_ttl_ms: 30_000,
        attempt_id: attempt_id(),
        attempt_policy_json: "{}".to_owned(),
        max_reclaim_count: None,
        old_worker_instance_id: WorkerInstanceId::new("w1-i0"),
        current_attempt_index: AttemptIndex(0),
    }
}

fn field_of(err: SdkError) -> String {
    match err {
        SdkError::Config { field: Some(f), .. } => f,
        other => panic!("expected Config error, got {other:?}"),
    }
}

#[test]
fn accepts_matching_grant_and_args() {
    let g = grant_for(exec(EXEC_A), "main", 2_000);
    let a = args_for(exec(EXEC_A), "main");
    assert!(validate_reclaim_grant_against_args(&g, &a, 1_000).is_ok());
}

#[test]
fn rejects_mismatched_execution_id() {
    let g = grant_for(exec(EXEC_A), "main", 2_000);
    let a = args_for(exec(EXEC_B), "main");
    let err = validate_reclaim_grant_against_args(&g, &a, 1_000)
        .expect_err("expected mismatched execution_id to fail");
    assert_eq!(field_of(err), "execution_id");
}

#[test]
fn rejects_mismatched_lane_id() {
    let g = grant_for(exec(EXEC_A), "main", 2_000);
    let a = args_for(exec(EXEC_A), "other");
    let err = validate_reclaim_grant_against_args(&g, &a, 1_000)
        .expect_err("expected mismatched lane_id to fail");
    assert_eq!(field_of(err), "lane_id");
}

#[test]
fn rejects_expired_grant() {
    let g = grant_for(exec(EXEC_A), "main", 1_000);
    let a = args_for(exec(EXEC_A), "main");
    let err = validate_reclaim_grant_against_args(&g, &a, 1_000)
        .expect_err("expected expired grant to fail");
    assert_eq!(field_of(err), "expires_at_ms");

    let err2 = validate_reclaim_grant_against_args(&g, &a, 5_000)
        .expect_err("expected past-expiry grant to fail");
    assert_eq!(field_of(err2), "expires_at_ms");
}

#[test]
fn a_clock_before_the_epoch_is_no_expiry() {
    let g = grant_for(exec(EXEC_A), "main", 1);
    let out = claim_from_reclaim_grant(&g, args_for(exec(EXEC_A), "main"), TimestampMs(-5));
    assert_eq!(out.unwrap().lane_id, LaneId::new("main"));
    let out = claim_from_reclaim_grant(&g, args_for(exec(EXEC_A), "main"), TimestampMs(1));
    assert_eq!(
        out.err().unwrap().text(),
        "config: claim_from_reclaim_grant.expires_at_ms: grant expired: expires_at_ms=1 now_ms=1"
    );
}

// ── Where scans start ──

#[test]
fn stable_for_same_input() {
    assert_eq!(scan_cursor_seed("w1", 256), scan_cursor_seed("w1", 256));
}

#[test]
fn distinct_for_different_ids() {
    assert_ne!(scan_cursor_seed("w1", 256), scan_cursor_seed("w2", 256));
}

#[test]
fn bounded_by_partition_count() {
    for i in 0..100 {
        assert!(scan_cursor_seed(&format!("w{i}"), 256) < 256);
    }
}

#[test]
fn zero_partitions_returns_zero() {
    assert_eq!(scan_cursor_seed("w1", 0), 0);
}

#[test]
fn seeds_are_the_digest_modulo_the_count() {
    // The digest of the empty text is the offset basis.
    assert_eq!(scan_cursor_seed("", 256), 0x25);
    // The digest of "a" is 0xaf63dc4c8601ec8c.
    assert_eq!(scan_cursor_seed("a", 1 << 16), 0xec8c);
}

// ── Connecting ──

fn config(lanes: &[&str], caps: &[&str]) -> WorkerConfig {
    WorkerConfig {
        backend: None,
        worker_id: WorkerId::new("w1"),
        worker_instance_id: WorkerInstanceId::new("w1-i1"),
        namespace: Namespace::new("default"),
        lanes: lanes.iter().map(|l| LaneId::new(l)).collect(),
        capabilities: caps.iter().map(|c| (*c).to_owned()).collect(),
        lease_ttl_ms: 30_000,
        claim_poll_interval_ms: 1_000,
        max_concurrent_tasks: 1,
        partition_config: None,
    }
}

#[test]
fn lanes_are_required() {
    let err = FlowFabricWorker::connect_with(config(&[], &[])).err().unwrap();
    assert_eq!(err.text(), "config: worker_config: at least one lane is required");
    let output = PreambleOutput {
        partition_config: PartitionConfig::default(),
        capabilities_csv: String::new(),
        capabilities_hash: String::new(),
    };
    assert!(FlowFabricWorker::connect(config(&[], &[]), output).is_err());
}

#[test]
fn a_worker_that_dials_needs_a_backend() {
    let output = || PreambleOutput {
        partition_config: PartitionConfig::default(),
        capabilities_csv: String::new(),
        capabilities_hash: "h".to_owned(),
    };
    let bare = config(&["main"], &[]);
    assert_eq!(field_of(check_dial(&bare).unwrap_err()), "backend");
    assert_eq!(field_of(FlowFabricWorker::connect(bare, output()).err().unwrap()), "backend");
    assert!(FlowFabricWorker::connect_with(config(&["main"], &[])).is_ok());
    let mut full = config(&["main"], &[]);
    full.backend = Some(ff_core::backend::BackendConfig::valkey("localhost", 6379));
    assert!(check_dial(&full).is_ok());
    let w = FlowFabricWorker::connect(full, output()).ok().unwrap();
    assert_eq!(w.capabilities_hash(), "h");
}

#[test]
fn bad_capabilities_are_refused() {
    for (cap, word) in [("", "empty"), ("a,b", "CSV"), ("a b", "whitespace"), ("a\u{1}", "control")] {
        let err = FlowFabricWorker::connect_with(config(&["main"], &["ok", cap])).err().unwrap();
        assert!(err.text().contains(word), "{}", err.text());
        assert_eq!(field_of(err), "capabilities");
    }
}

#[test]
fn configuration_is_kept() {
    let w = FlowFabricWorker::connect_with(config(&["main"], &["gpu", "cuda"])).ok().unwrap();
    assert_eq!(w.config().renewal_interval_ms(), 10_000);
    assert_eq!(w.config().permits(), 1);
    assert_eq!(w.partition_config().num_flow_partitions, 256);
    assert_eq!(w.capabilities_hash(), ff_core::hash::fnv1a_xor8hex("cuda,gpu"));
    let request = w.claim_via_server(&LaneId::new("main"), 5);
    assert_eq!(request.capabilities, vec!["gpu".to_owned(), "cuda".to_owned()]);
    assert_eq!(request.worker_id, "w1");
}

// ── The preamble ──

fn broken() -> BackendError {
    BackendError { kind: BackendErrorKind::Transport, message: "gone".to_owned() }
}

#[test]
fn preamble_runs_in_order() {
    let c = config(&["main"], &["b", "a", "b"]);
    let pinged = preamble::run(&c);
    assert_eq!(pinged.command(), vec!["PING"]);
    let claiming = pinged.answered(Ok("PONG".to_owned())).ok().unwrap();
    assert_eq!(
        claiming.command(),
        vec!["SET", "ff:worker:w1-i1:alive", "1", "NX", "PX", "60000"]
    );
    let asking = claiming.answered(Ok(Some("OK".to_owned()))).ok().unwrap();
    assert_eq!(asking.command(), vec!["HGETALL", "ff:config:partitions"]);
    let mut fields = FieldMap::new();
    fields.insert("num_flow_partitions".to_owned(), "64".to_owned());
    fields.insert("num_quota_partitions".to_owned(), "0".to_owned());
    let advertising = asking.answered(&c, Ok(fields)).ok().unwrap();
    assert_eq!(advertising.capabilities_command(), vec!["SET", "ff:worker:w1-i1:caps", "a,b"]);
    assert_eq!(advertising.index_command(), vec!["SADD", "ff:idx:workers", "w1-i1"]);
    let out = advertising.finish();
    assert_eq!(out.capabilities_csv, "a,b");
    assert_eq!(out.capabilities_hash, ff_core::hash::fnv1a_xor8hex("a,b"));
    assert_eq!(
        out.partition_config,
        PartitionConfig {
            num_flow_partitions: 64,
            num_budget_partitions: 32,
            num_quota_partitions: 32
        }
    );
}

#[test]
fn preamble_without_capabilities_withdraws() {
    let c = config(&["main"], &[]);
    let claiming = preamble::run(&c).answered(Ok("PONG".to_owned())).ok().unwrap();
    let asking = claiming.answered(Ok(Some("OK".to_owned()))).ok().unwrap();
    let advertising = asking.answered(&c, Err(broken())).ok().unwrap();
    assert_eq!(advertising.capabilities_command(), vec!["DEL", "ff:worker:w1-i1:caps"]);
    assert_eq!(advertising.index_command(), vec!["SREM", "ff:idx:workers", "w1-i1"]);
    assert_eq!(advertising.finish().partition_config, PartitionConfig::default());
}

#[test]
fn preamble_stops_at_the_first_fault() {
    let c = config(&["main"], &[]);
    let err = preamble::run(&c).answered(Ok("NO".to_owned())).err().unwrap();
    assert_eq!(err.text(), "config: worker_connect: unexpected PING response: NO");
    let err = preamble::run(&c).answered(Err(broken())).err().unwrap();
    assert!(matches!(err, SdkError::BackendContext { context, .. } if context == "PING failed"));
    let claiming = preamble::run(&c).answered(Ok("PONG".to_owned())).ok().unwrap();
    let err = claiming.answered(Ok(None)).err().unwrap();
    assert_eq!(
        err.text(),
        "config: worker_connect.worker_instance_id: duplicate worker_instance_id 'w1-i1': \
         another process already holds ff:worker:w1-i1:alive"
    );
    assert!(preamble::read_partition_config(Ok(FieldMap::new())).is_err());
}

#[test]
fn too_many_capabilities_are_refused() {
    let many: Vec<String> = (0..257).map(|i| format!("c{i}")).collect();
    let err = preamble::capabilities_csv(&many).unwrap_err();
    assert!(err.text().ends_with("capability set exceeds CAPS_MAX_TOKENS (256): 257"));
    let long = vec!["x".repeat(4097)];
    let err = preamble::capabilities_csv(&long).unwrap_err();
    assert!(err.text().ends_with("capability CSV exceeds CAPS_MAX_BYTES (4096): 4097"));
    assert_eq!(preamble::capabilities_csv(&vec!["x".repeat(4096)]).unwrap().len(), 4096);
}

// ── Polls ──

#[test]
fn lanes_take_turns() {
    let mut w = FlowFabricWorker::connect_with(config(&["a", "b"], &[])).ok().unwrap();
    let turns: Vec<String> = (0..4).map(|_| w.next_lane().as_str().to_owned()).collect();
    assert_eq!(turns, vec!["a", "b", "a", "b"]);
}

#[test]
fn polls_cover_every_partition_once() {
    let mut w = FlowFabricWorker::connect_with(config(&["main"], &[])).ok().unwrap();
    assert!(w.claim_next(false).is_none());
    let mut seen = HashSet::new();
    for _ in 0..8 {
        let (_, window) = w.claim_next(true).unwrap();
        let mut at = Some(window);
        while let Some(w) = at {
            assert!(seen.insert(w.partition().index));
            at = match after_block(w) {
                ClaimStep::Scan { window } => Some(window),
                ClaimStep::Idle => None,
                other => panic!("{other:?}"),
            };
        }
    }
    assert_eq!(seen.len(), 256);
}

fn window() -> Window {
    Window { num_partitions: 4, start: 3, step: 1 }
}

fn retryable() -> EngineError {
    EngineError::Contention(ContentionKind::LeaseConflict)
}

fn fatal() -> EngineError {
    EngineError::State(StateKind::StaleLease)
}

#[test]
fn scans_lead_to_grants() {
    assert_eq!(window().partition().index, 0);
    assert_eq!(window().partition().family, PartitionFamily::Execution);
    match after_scan(window(), Ok(vec![exec(EXEC_A), exec(EXEC_B)])) {
        ClaimStep::Grant { window: w, execution_id } => {
            assert_eq!(w, window());
            assert_eq!(execution_id, exec(EXEC_A));
        }
        other => panic!("{other:?}"),
    }
    assert!(matches!(
        after_scan(window(), Ok(vec![])),
        ClaimStep::Scan { window: Window { step: 2, .. } }
    ));
    let last = Window { num_partitions: 4, start: 3, step: 3 };
    assert!(matches!(after_scan(last, Ok(vec![])), ClaimStep::Idle));
    assert!(matches!(after_scan(window(), Err(retryable())), ClaimStep::Failed(_)));
}

#[test]
fn grants_lead_to_claims_or_blocks() {
    assert!(matches!(after_grant(window(), exec(EXEC_A), Ok(())), ClaimStep::Claim { .. }));
    let incapable = EngineError::Validation {
        kind: ValidationKind::CapabilityMismatch,
        detail: "gpu".to_owned(),
    };
    assert!(matches!(
        after_grant(window(), exec(EXEC_A), Err(incapable)),
        ClaimStep::Block { .. }
    ));
    assert!(is_retryable_claim_error(&retryable()));
    assert!(matches!(
        after_grant(window(), exec(EXEC_A), Err(retryable())),
        ClaimStep::Scan { .. }
    ));
    assert!(!is_retryable_claim_error(&fatal()));
    assert!(matches!(
        after_grant(window(), exec(EXEC_A), Err(fatal())),
        ClaimStep::Failed(_)
    ));
    let args = block_route_args(
        &exec(EXEC_A),
        &LaneId::new("main"),
        window().partition(),
        TimestampMs(9),
    );
    assert_eq!(args.reason_code, "waiting_for_capable_worker");
}

#[test]
fn resumed_executions_are_claimed_as_such() {
    let resumed = || {
        SdkError::from(EngineError::Contention(ContentionKind::UseClaimResumedExecution))
    };
    assert!(matches!(
        after_claim(window(), exec(EXEC_A), Err(resumed())),
        ClaimStep::Resume { .. }
    ));
    assert!(matches!(after_resume(window(), Err(resumed())), ClaimStep::Scan { .. }));
    assert!(matches!(after_resume(window(), Ok(())), ClaimStep::Claimed));
    assert!(matches!(after_claim(window(), exec(EXEC_A), Ok(())), ClaimStep::Claimed));
    assert!(matches!(
        after_claim(window(), exec(EXEC_A), Err(SdkError::from(fatal()))),
        ClaimStep::Failed(_)
    ));
    assert!(matches!(after_granted_claim(Err(resumed())), GrantedStep::Resume));
    assert!(matches!(
        after_granted_claim(Err(SdkError::from(retryable()))),
        GrantedStep::Failed(_)
    ));
    assert!(matches!(after_granted_claim(Ok(())), GrantedStep::Claimed));
}

// ── Claims ──

#[test]
fn grants_are_kept_while_the_worker_is_full() {
    let grant = |key: &str| ClaimGrant {
        execution_id: exec(EXEC_A),
        partition_key: key.to_owned(),
        grant_key: "k".to_owned(),
        expires_at_ms: 1,
    };
    let claim = |permitted, key| {
        FlowFabricWorker::claim_from_grant(permitted, LaneId::new("main"), grant(key))
    };
    assert!(matches!(claim(false, "{fp:7}").unwrap_err(), SdkError::WorkerAtCapacity));
    assert!(matches!(claim(false, "{zz:1}").unwrap_err(), SdkError::WorkerAtCapacity));
    assert_eq!(field_of(claim(true, "{zz:1}").unwrap_err()), "partition_key");
    let target = claim(true, "{fp:7}").unwrap();
    assert_eq!(target.partition.index, 7);
    assert_eq!(target.partition.family, PartitionFamily::Flow);
}

#[test]
fn grant_keys_are_read() {
    let resume = |key: &str| ResumeGrant {
        execution_id: exec(EXEC_A),
        partition_key: key.to_owned(),
        grant_key: "k".to_owned(),
        expires_at_ms: 1,
        lane_id: LaneId::new("main"),
    };
    let target = FlowFabricWorker::claim_from_resume_grant(true, resume("{q:3}")).unwrap();
    assert_eq!(target.partition.family, PartitionFamily::Quota);
    assert_eq!(target.partition.index, 3);
    let err = FlowFabricWorker::claim_from_resume_grant(true, resume("fp:7")).unwrap_err();
    assert_eq!(
        err.text(),
        "config: claim_from_resume_grant.partition_key: partition key must be wrapped in '{...}'"
    );
    let err = FlowFabricWorker::claim_from_resume_grant(false, resume("fp:7")).unwrap_err();
    assert!(matches!(err, SdkError::WorkerAtCapacity));
}

#[test]
fn claims_carry_the_configuration() {
    let w = FlowFabricWorker::connect_with(config(&["main"], &["gpu"])).ok().unwrap();
    let lane = LaneId::new("main");
    let args = w
        .claim_args(&exec(EXEC_A), &lane, Ok(AttemptIndex(3)), lease_id(), attempt_id())
        .ok()
        .unwrap();
    assert_eq!(args.expected_attempt_index, AttemptIndex(3));
    assert_eq!(args.lease_ttl_ms, 30_000);
    assert_eq!(args.attempt_policy_json, "{}");
    assert!(w
        .claim_args(&exec(EXEC_A), &lane, Err(fatal()), lease_id(), attempt_id())
        .is_err());
    let args = w.resume_args(&exec(EXEC_A), &lane, Ok(AttemptIndex(2)), lease_id()).ok().unwrap();
    assert_eq!(args.current_attempt_index, AttemptIndex(2));
    let args = w.grant_args(&exec(EXEC_A), &lane);
    assert_eq!(args.grant_ttl_ms, 5_000);
    assert_eq!(args.worker_capabilities.csv(), "gpu");
    let lease = Lease {
        lease_id: lease_id(),
        lease_epoch: LeaseEpoch(1),
        attempt_index: AttemptIndex(3),
        attempt_id: attempt_id(),
    };
    let context = ExecutionContext {
        input_payload: b"x".to_vec(),
        execution_kind: "fetch".to_owned(),
        tags: FieldMap::new(),
    };
    let task = w.claimed_task(&exec(EXEC_A), &lane, lease, Ok(context)).ok().unwrap();
    assert_eq!(task.execution_kind(), "fetch");
    assert_eq!(task.input_payload(), b"x");
    assert_eq!(task.attempt_index(), AttemptIndex(3));
    assert!(task.is_lease_healthy());
    assert!(task.leaks_lease());
}

// ── Signals ──

#[test]
fn signals_are_stamped() {
    let signal = Signal {
        signal_name: "approve".to_owned(),
        signal_category: "human".to_owned(),
        payload: None,
        source_type: "ui".to_owned(),
        source_identity: "u1".to_owned(),
        idempotency_key: Some("k".to_owned()),
        waitpoint_token: "kid:abc".to_owned(),
    };
    let id = "00000000-0000-4000-8000-00000000000c";
    let d = deliver_signal(
        &exec(EXEC_A),
        &WaitpointId::parse(id).unwrap(),
        signal,
        SignalId::parse(id).unwrap(),
        TimestampMs(5),
    );
    assert_eq!(d.args.payload_encoding.as_deref(), Some("json"));
    assert_eq!(d.args.target_scope, "waitpoint");
    assert_eq!(d.args.created_at, Some(TimestampMs(5)));
    assert_eq!(d.waitpoint_token, "kid:abc");
    let out = signal_outcome(Ok(DeliverSignalResult::Accepted {
        signal_id: SignalId::parse(id).unwrap(),
        effect: "resume_condition_satisfied".to_owned(),
    }));
    assert!(matches!(out.unwrap(), SignalOutcome::TriggeredResume { .. }));
    let out = signal_outcome(Ok(DeliverSignalResult::Duplicate {
        existing_signal_id: SignalId::parse(id).unwrap(),
    }));
    match out.unwrap() {
        SignalOutcome::Duplicate { existing_signal_id } => assert_eq!(existing_signal_id, id),
        other => panic!("{other:?}"),
    }
}
