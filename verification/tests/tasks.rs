use flowfabric::engine_error::{ContentionKind, EngineError, StateKind, TransportSource};
use flowfabric::error::{ScriptError, ServerError};
use flowfabric::field_map::FieldMap;
use flowfabric::ids::{
    AttemptId, AttemptIndex, EdgeId, ExecutionId, FlowId, LeaseEpoch, LeaseId, SuspensionId,
    TimestampMs, WaitpointId,
};
use flowfabric::keys::{ExecKeyContext, IndexKeys};
use flowfabric::names::{LaneId, WorkerInstanceId};
use flowfabric::partition::{execution_partition, flow_partition, PartitionConfig};
use flowfabric::reply::SuspendOutcome;
use flowfabric::retry::ErrorKind;
use flowfabric::sdk_error::{BackendError, BackendErrorKind, SdkError};
use flowfabric::signal_bridge::{verify, waitpoint_partition, SignalBridgeError};
use flowfabric::snapshot::{
    describe_edge, edge_key, enrich_dependency_conflict, resolve_flow_id,
};
use flowfabric::suspend::{
    resume_condition_json, suspend, waitpoint_key, ConditionMatcher, SuspendRequest, Suspender,
    TimeoutBehavior,
};
use flowfabric::task::{
    error_category_to_class, failure, fcall_landed, is_terminal_renewal_error, renewal_interval,
    usage_dimensions, ClaimedTask, FailureClass, RenewalFailures, RenewalStep,
};
use flowfabric::value::Value;
use flowfabric::worker::Signal;

const EID: &str = "{fp:7}:00000000-0000-4000-8000-000000000001";
const UUID: &str = "00000000-0000-4000-8000-00000000000a";

fn task() -> ClaimedTask {
    ClaimedTask {
        partition_config: PartitionConfig::default(),
        execution_id: ExecutionId::parse(EID).unwrap(),
        attempt_index: AttemptIndex(2),
        attempt_id: AttemptId::parse(UUID).unwrap(),
        lease_id: LeaseId::parse(UUID).unwrap(),
        lease_epoch: LeaseEpoch(4),
        lease_ttl_ms: 30_000,
        lane_id: LaneId::new("main"),
        worker_instance_id: WorkerInstanceId::new("w1-i1"),
        input_payload: Vec::new(),
        execution_kind: "fetch".to_owned(),
        tags: FieldMap::new(),
        renewal_failures: RenewalFailures(0),
        terminal_op_called: false,
    }
}

fn transport() -> EngineError {
    EngineError::Transport { backend: "valkey", source: TransportSource::Other("x".to_owned()) }
}

fn not_active() -> EngineError {
    EngineError::Contention(ContentionKind::ExecutionNotActive {
        terminal_outcome: "success".to_owned(),
        lease_epoch: "4".to_owned(),
        lifecycle_phase: "terminal".to_owned(),
        attempt_id: UUID.to_owned(),
    })
}

// ── Renewal ──

#[test]
fn three_failures_make_a_lease_doubtful() {
    let mut t = task();
    for n in 1..=3 {
        assert!(t.is_lease_healthy());
        assert_eq!(t.renewal_failures.record(&Err(transport())), RenewalStep::Continue);
        assert_eq!(t.consecutive_renewal_failures(), n);
    }
    assert!(!t.is_lease_healthy());
    assert_eq!(t.renewal_failures.record(&Ok(())), RenewalStep::Continue);
    assert!(t.is_lease_healthy());
}

#[test]
fn lost_leases_are_not_renewed() {
    for e in [
        EngineError::State(StateKind::StaleLease),
        EngineError::State(StateKind::LeaseExpired),
        EngineError::State(StateKind::LeaseRevoked),
        not_active(),
        EngineError::NotFound { entity: "execution" },
    ] {
        assert!(is_terminal_renewal_error(&e), "{e:?}");
        let mut f = RenewalFailures(1);
        assert_eq!(f.record(&Err(e)), RenewalStep::Stop);
        assert_eq!(f, RenewalFailures(2));
    }
    for e in [transport(), EngineError::NotFound { entity: "flow" }] {
        assert!(!is_terminal_renewal_error(&e), "{e:?}");
    }
}

#[test]
fn renewal_never_stands_still() {
    assert_eq!(renewal_interval(30_000), 10_000);
    assert_eq!(renewal_interval(2), 1);
    assert_eq!(renewal_interval(0), 1);
}

// ── Ends ──

#[test]
fn tasks_end_unless_the_operation_was_lost() {
    let mut t = task();
    let r: Result<(), SdkError> = t.settle(Err(transport()));
    assert!(matches!(r, Err(SdkError::Engine(_))));
    assert!(t.leaks_lease());
    let _: Result<(), SdkError> = t.settle(Err(not_active()));
    assert!(!t.leaks_lease());
    let mut t = task();
    assert_eq!(t.settle(Ok(5)).unwrap(), 5);
    assert!(!t.leaks_lease());
    assert!(fcall_landed(&Ok::<(), EngineError>(())));
    assert!(!fcall_landed(&Err::<(), EngineError>(transport())));
    assert!(fcall_landed(&Err::<(), EngineError>(not_active())));
}

#[test]
fn categories_have_classes() {
    for (word, class) in [
        ("transient", FailureClass::Transient),
        ("permanent", FailureClass::Permanent),
        ("infra_crash", FailureClass::InfraCrash),
        ("timeout", FailureClass::Timeout),
        ("cancelled", FailureClass::Cancelled),
        ("anything else", FailureClass::Transient),
    ] {
        assert_eq!(error_category_to_class(word), class);
    }
    let f = failure("no disk", "permanent");
    assert_eq!(f.message, "no disk");
    assert_eq!(f.detail, b"permanent".to_vec());
}

#[test]
fn the_last_delta_of_a_name_counts() {
    let u = usage_dimensions(&vec![("a", 1), ("b", 2), ("a", 3)], Some(""));
    assert_eq!(u.custom, vec![("a".to_owned(), 3), ("b".to_owned(), 2)]);
    assert_eq!(u.dedup_key, None);
    assert_eq!(usage_dimensions(&vec![], Some("k")).dedup_key.as_deref(), Some("k"));
}

// ── Suspension ──

#[test]
fn timeout_behaviors_read_back() {
    for b in [
        TimeoutBehavior::Fail,
        TimeoutBehavior::Cancel,
        TimeoutBehavior::Expire,
        TimeoutBehavior::AutoResume,
        TimeoutBehavior::Escalate,
    ] {
        assert_eq!(TimeoutBehavior::from_str(b.as_str()), Ok(b));
    }
    assert_eq!(TimeoutBehavior::from_str("auto_resume"), Ok(TimeoutBehavior::AutoResume));
    assert_eq!(
        TimeoutBehavior::from_str("explode"),
        Err("unknown timeout behavior: explode".to_owned())
    );
}

#[test]
fn conditions_are_sorted_json() {
    let m = |names: &[&str]| -> Vec<ConditionMatcher> {
        names.iter().map(|n| ConditionMatcher { signal_name: (*n).to_owned() }).collect()
    };
    let text = resume_condition_json(&m(&["a\"b", "c"]), TimeoutBehavior::Fail);
    assert_eq!(
        text,
        "{\"allow_operator_override\":true,\"condition_type\":\"signal_set\",\
         \"minimum_signal_count\":1,\"required_signal_names\":[\"a\\\"b\",\"c\"],\
         \"signal_match_mode\":\"all\",\"timeout_behavior\":\"fail\"}"
    );
    let value: serde_json::Value = serde_json::from_str(&text).unwrap();
    assert_eq!(value.to_string(), text);
    assert!(resume_condition_json(&m(&[]), TimeoutBehavior::Fail).contains("\"any\""));
}

#[test]
fn suspensions_name_their_keys_and_arguments() {
    let t = task();
    let p = execution_partition(&t.execution_id);
    let ctx = ExecKeyContext::new(&p, &t.execution_id);
    let idx = IndexKeys::new(&p);
    let who = Suspender {
        ctx: &ctx,
        idx: &idx,
        execution_id: &t.execution_id,
        attempt_index: t.attempt_index,
        attempt_id: &t.attempt_id,
        lease_id: &t.lease_id,
        lease_epoch: t.lease_epoch,
        lane_id: &t.lane_id,
        worker_instance_id: &t.worker_instance_id,
    };
    let sid = SuspensionId::parse(UUID).unwrap();
    let wid = WaitpointId::parse(UUID).unwrap();
    let matchers = vec![ConditionMatcher { signal_name: "go".to_owned() }];
    let call = suspend(
        &who,
        &SuspendRequest {
            suspension_id: &sid,
            waitpoint_id: &wid,
            now: TimestampMs(1_000),
            reason_code: "approval",
            condition_matchers: &matchers,
            timeout_ms: Some(500),
            timeout_behavior: TimeoutBehavior::Escalate,
        },
    );
    assert_eq!(call.function, "ff_suspend_execution");
    assert_eq!(call.keys.len(), 17);
    assert!(call.keys.iter().all(|k| k.split('}').next().unwrap().ends_with("{fp:7")));
    assert_eq!(call.argv.len(), 17);
    assert_eq!(call.argv[7], waitpoint_key(&wid));
    assert_eq!(call.argv[7], format!("wpk:{UUID}"));
    assert_eq!(call.argv[10], "1500");
    assert_eq!(call.argv[15], "escalate");
    let policy: serde_json::Value = serde_json::from_str(&call.argv[12]).unwrap();
    assert_eq!(policy.to_string(), call.argv[12]);
}

#[test]
fn any_reply_to_a_suspension_ends_the_task() {
    let ids = || {
        (
            SuspensionId::parse(UUID).unwrap(),
            WaitpointId::parse(UUID).unwrap(),
            "wpk:x".to_owned(),
        )
    };
    let mut t = task();
    let (s, w, k) = ids();
    let lost = BackendError { kind: BackendErrorKind::Transport, message: "x".to_owned() };
    assert!(matches!(t.suspended(Err(lost), s, w, k), Err(SdkError::Backend(_))));
    assert!(t.leaks_lease());
    let (s, w, k) = ids();
    assert!(t.suspended(Ok(Value::Nil), s, w, k).is_err());
    assert!(!t.leaks_lease());
    let (s, w, k) = ids();
    let word = |v: &str| Ok(Value::SimpleString(v.to_owned()));
    let raw = Value::Array(vec![
        Ok(Value::Int(1)),
        word("ALREADY_SATISFIED"),
        word(""),
        word(""),
        word(""),
        word("kid:abc"),
    ]);
    assert!(matches!(
        t.suspended(Ok(raw), s, w, k).unwrap(),
        SuspendOutcome::AlreadySatisfied { .. }
    ));
}

// ── Callbacks ──

fn signal() -> Signal {
    Signal {
        signal_name: "approve".to_owned(),
        signal_category: "human".to_owned(),
        payload: Some(vec![1]),
        source_type: "ui".to_owned(),
        source_identity: "u1".to_owned(),
        idempotency_key: None,
        waitpoint_token: "mine".to_owned(),
    }
}

#[test]
fn only_the_stored_token_passes() {
    let s = verify(Ok(Some("kid:abc".to_owned())), "kid:abc", signal()).unwrap();
    assert_eq!(s.waitpoint_token, "kid:abc");
    assert_eq!(s.signal_name, "approve");
    assert_eq!(s.payload, Some(vec![1]));
    for token in ["kid:abd", "kid:ab", "kid:abcd", ""] {
        assert!(matches!(
            verify(Ok(Some("kid:abc".to_owned())), token, signal()),
            Err(SignalBridgeError::TokenMismatch)
        ));
    }
    assert!(matches!(
        verify(Ok(None), "kid:abc", signal()),
        Err(SignalBridgeError::UnknownWaitpoint)
    ));
    assert!(matches!(
        verify(Err(transport()), "kid:abc", signal()),
        Err(SignalBridgeError::Backend(_))
    ));
    assert_eq!(waitpoint_partition(&ExecutionId::parse(EID).unwrap()), "{fp:7}");
}

fn boom() -> SdkError {
    SdkError::Config { context: "test".into(), field: None, message: "boom".into() }
}

#[test]
fn display_each_variant() {
    let e: SignalBridgeError = SignalBridgeError::UnknownWaitpoint;
    assert!(e.text().contains("unknown waitpoint"));
    let e: SignalBridgeError = SignalBridgeError::TokenMismatch;
    assert!(e.text().contains("token mismatch"));
    let wrapped = SignalBridgeError::Backend(boom());
    let msg = wrapped.text();
    assert!(msg.starts_with("backend: "), "got: {msg}");
}

#[test]
fn error_source_wraps_backend() {
    let e = SignalBridgeError::Backend(boom());
    assert!(e.source().is_some(), "Backend variant must expose source");
    let e: SignalBridgeError = SignalBridgeError::UnknownWaitpoint;
    assert!(e.source().is_none(), "UnknownWaitpoint has no underlying source");
}

#[test]
fn from_sdk_error() {
    match SignalBridgeError::from(boom()) {
        SignalBridgeError::Backend(_) => {}
        other => panic!("expected Backend, got {other:?}"),
    }
}

// ── Edges ──

/// A flow, its partition and an execution in that partition.
fn flow_and_execution() -> (FlowId, u16, ExecutionId) {
    let config = PartitionConfig::default();
    let flow = FlowId::parse(UUID).unwrap();
    let index = flow_partition(&flow, &config).index;
    let theirs = ff_core::partition::flow_partition(
        &ff_core::types::FlowId::parse(UUID).unwrap(),
        &ff_core::partition::PartitionConfig::default(),
    );
    assert_eq!(index, theirs.index);
    let eid = ExecutionId::parse(&format!("{{fp:{index}}}:{UUID}")).unwrap();
    (flow, index, eid)
}

#[test]
fn flows_live_with_their_executions() {
    let config = PartitionConfig::default();
    let (flow, index, eid) = flow_and_execution();
    let out = resolve_flow_id(&eid, &config, Ok(Some(UUID.to_owned()))).unwrap();
    assert_eq!(out, Some(flow));
    assert_eq!(resolve_flow_id(&eid, &config, Ok(None)).unwrap(), None);
    assert_eq!(resolve_flow_id(&eid, &config, Ok(Some(String::new()))).unwrap(), None);
    let err = resolve_flow_id(&eid, &config, Ok(Some("zzz".to_owned()))).unwrap_err();
    assert!(err.text().contains("'zzz' is not a valid UUID"));
    let elsewhere = ExecutionId::parse(&format!("{{fp:{}}}:{UUID}", (index + 1) % 256)).unwrap();
    let err = resolve_flow_id(&elsewhere, &config, Ok(Some(UUID.to_owned()))).unwrap_err();
    assert!(err.text().contains("does not match execution partition"));
    let lost = BackendError { kind: BackendErrorKind::Transport, message: "x".to_owned() };
    assert!(matches!(
        resolve_flow_id(&eid, &config, Err(lost)),
        Err(SdkError::BackendContext { .. })
    ));
}

fn stored_edge(eid: &ExecutionId) -> FieldMap {
    let mut m = FieldMap::new();
    for (k, v) in [
        ("edge_id", UUID),
        ("flow_id", UUID),
        ("upstream_execution_id", eid.as_str()),
        ("downstream_execution_id", eid.as_str()),
        ("dependency_kind", "success_only"),
        ("satisfaction_condition", "all_required"),
        ("data_passing_ref", ""),
        ("edge_state", "pending"),
        ("created_at", "17"),
        ("created_by", "me"),
    ] {
        m.insert(k.to_owned(), v.to_owned());
    }
    m
}

#[test]
fn edges_are_read_strictly() {
    let (flow, index, eid) = flow_and_execution();
    let edge = EdgeId::parse(UUID).unwrap();
    assert_eq!(
        edge_key(&PartitionConfig::default(), &flow, &edge),
        format!("ff:flow:{{fp:{index}}}:{UUID}:edge:{UUID}")
    );
    let e = describe_edge(&flow, &edge, Ok(stored_edge(&eid))).unwrap().unwrap();
    assert_eq!(e.edge_id, UUID);
    assert_eq!(e.upstream_execution_id, eid.as_str());
    assert_eq!(e.created_at, 17);
    assert_eq!(e.data_passing_ref, None);
    assert!(describe_edge(&flow, &edge, Ok(FieldMap::new())).unwrap().is_none());
    let mut odd = stored_edge(&eid);
    odd.insert("bogus".to_owned(), "1".to_owned());
    let err = describe_edge(&flow, &edge, Ok(odd)).unwrap_err();
    assert!(err.text().contains("bogus"));
}

#[test]
fn conflicts_are_told_in_full_or_not_at_all() {
    let (flow, _, eid) = flow_and_execution();
    let edge = EdgeId::parse(UUID).unwrap();
    let out = enrich_dependency_conflict(&flow, &edge, Ok(stored_edge(&eid)));
    let fields = stored_edge(&eid).entries().iter().cloned().collect();
    let theirs = ff_core::contracts::decode::build_edge_snapshot(
        &ff_core::types::FlowId::parse(flow.as_str()).unwrap(),
        &ff_core::types::EdgeId::parse(UUID).unwrap(),
        &fields,
    )
    .unwrap();
    let theirs = ff_core::engine_error::EngineError::Conflict(
        ff_core::engine_error::ConflictKind::DependencyAlreadyExists { existing: theirs },
    );
    match out {
        Ok(e @ EngineError::Conflict(_)) => assert_eq!(e.text(), theirs.to_string()),
        other => panic!("{other:?}"),
    }
    let bare = |e: EngineError| {
        matches!(
            e,
            EngineError::Transport {
                source: TransportSource::Script(ScriptError::DependencyAlreadyExists),
                ..
            }
        )
    };
    assert!(bare(enrich_dependency_conflict(&flow, &edge, Ok(FieldMap::new())).unwrap_err()));
    let mut odd = stored_edge(&eid);
    odd.insert("bogus".to_owned(), "1".to_owned());
    assert!(bare(enrich_dependency_conflict(&flow, &edge, Ok(odd)).unwrap_err()));
    let lost = ServerError { kind: ErrorKind::IoError, text: "x".to_owned() };
    assert!(bare(enrich_dependency_conflict(&flow, &edge, Err(lost)).unwrap_err()));
}
