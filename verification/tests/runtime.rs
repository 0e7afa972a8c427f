use std::any::{Any, TypeId};
use std::sync::Arc;

use flowfabric::field_map::FieldMap;
use flowfabric::ids::{AttemptId, AttemptIndex, ExecutionId, LeaseEpoch, LeaseId};
use flowfabric::names::{LaneId, WorkerInstanceId};
use flowfabric::partition::PartitionConfig;
use flowfabric::runtime::registry::StateMap;
use flowfabric::runtime::{
    after_poll, panic_message, Data, FromTask, HandlerEnd, HandlerOutcome, PanicPayload,
    PayloadBytes, RunStep, RuntimeCtx, RuntimeError, TaskInfo, WorkerRuntime,
};
use flowfabric::sdk_error::SdkError;
use flowfabric::task::{ClaimedTask, RenewalFailures};

type Erased = Arc<dyn Any + Send + Sync>;

fn put<T: Clone + Send + Sync + 'static>(m: &mut StateMap<Erased>, value: T) {
    m.insert(TypeId::of::<T>(), Arc::new(value));
}

fn take<T: Clone + Send + Sync + 'static>(m: &StateMap<Erased>) -> Option<T> {
    m.get(&TypeId::of::<T>()).and_then(|a| a.downcast_ref::<T>()).cloned()
}

#[derive(Clone, Debug, PartialEq)]
struct Foo(u32);

#[derive(Clone, Debug, PartialEq)]
struct Bar(&'static str);

#[test]
fn insert_and_get_by_type() {
    let mut m = StateMap::default();
    put(&mut m, Foo(42));
    put(&mut m, Bar("hi"));
    assert_eq!(take::<Foo>(&m), Some(Foo(42)));
    assert_eq!(take::<Bar>(&m), Some(Bar("hi")));
    assert_eq!(take::<u32>(&m), None);
}

#[test]
fn second_insert_overwrites() {
    let mut m = StateMap::default();
    put(&mut m, Foo(1));
    put(&mut m, Foo(2));
    assert_eq!(take::<Foo>(&m), Some(Foo(2)));
}

#[test]
fn overwritten_state_is_dropped() {
    let mut m: StateMap<Erased> = StateMap::default();
    let first = Arc::new(Foo(1));
    m.insert(TypeId::of::<Foo>(), first.clone());
    put(&mut m, Foo(2));
    assert_eq!(Arc::strong_count(&first), 1);
}

#[test]
fn runtime_error_category_is_stable() {
    let missing: RuntimeError = RuntimeError::MissingState { state_type: "X" };
    assert_eq!(missing.error_category(), "extractor_missing_state");
    assert_eq!(missing.text(), "extractor: missing state of type X");
    let unknown = RuntimeError::NoHandler { kind: "x".to_owned() };
    assert_eq!(unknown.error_category(), "runtime_no_handler");
    assert_eq!(unknown.text(), "runtime: no handler registered for execution_kind \"x\"");
    let bad = RuntimeError::PayloadDecode("EOF".to_owned());
    assert_eq!(bad.error_category(), "extractor_payload_decode");
}

#[test]
fn handler_error_walks_source_chain() {
    let chain = vec!["outer".to_owned(), "root".to_owned()];
    match HandlerOutcome::handler_error(&chain) {
        HandlerOutcome::Fail { reason, category } => {
            assert_eq!(category, "handler_error");
            assert_eq!(reason, "outer: root", "source chain must be walked");
        }
        _ => panic!("expected Fail"),
    }
}

#[test]
fn panic_outcome_carries_category() {
    let outcome = HandlerOutcome::panic("boom".to_owned());
    match outcome {
        HandlerOutcome::Fail { reason, category } => {
            assert_eq!(category, "handler_panic");
            assert!(reason.contains("boom"));
        }
        _ => panic!("expected Fail"),
    }
}

#[test]
fn ends_become_outcomes() {
    match HandlerOutcome::of_end(HandlerEnd::Returned(Some(vec![1, 2]))) {
        HandlerOutcome::Complete(p) => assert_eq!(p, Some(vec![1, 2])),
        other => panic!("{other:?}"),
    }
    match HandlerOutcome::of_end(HandlerEnd::Failed(vec!["a".to_owned(), "b".to_owned()])) {
        HandlerOutcome::Fail { reason, category } => {
            assert_eq!(reason, "a: b");
            assert_eq!(category, "handler_error");
        }
        other => panic!("{other:?}"),
    }
    match HandlerOutcome::of_end(HandlerEnd::Panicked(PanicPayload::Opaque)) {
        HandlerOutcome::Fail { reason, category } => {
            assert_eq!(reason, "handler panicked: <non-string panic payload>");
            assert_eq!(category, "handler_panic");
        }
        other => panic!("{other:?}"),
    }
    assert_eq!(panic_message(PanicPayload::Text("x".to_owned())), "x");
    let err = RuntimeError::NoHandler { kind: "k".to_owned() };
    match HandlerOutcome::runtime_error(&err) {
        HandlerOutcome::Fail { category, .. } => assert_eq!(category, "runtime_no_handler"),
        other => panic!("{other:?}"),
    }
}

#[test]
fn kinds_find_their_handlers() {
    let r: WorkerRuntime<u8> = WorkerRuntime::new().on("a", 1).on("b", 2).on("a", 3);
    assert_eq!(*r.handler_for("a").unwrap(), 3);
    assert_eq!(*r.handler_for("b").unwrap(), 2);
    assert_eq!(r.handler_for("c").unwrap_err().error_category(), "runtime_no_handler");
    assert_eq!(r.limit(), 64);
    assert_eq!(r.max_concurrent(0).limit(), 1);
}

#[test]
fn the_loop_stops_only_on_errors() {
    assert!(matches!(after_poll(Ok(true)), RunStep::Dispatch));
    assert!(matches!(after_poll(Ok(false)), RunStep::Sleep));
    assert!(matches!(
        after_poll(Err(SdkError::WorkerAtCapacity)),
        RunStep::Stop(SdkError::WorkerAtCapacity)
    ));
}

fn task() -> ClaimedTask {
    let mut tags = FieldMap::new();
    tags.insert("team.name".to_owned(), "core".to_owned());
    ClaimedTask {
        partition_config: PartitionConfig::default(),
        execution_id: ExecutionId::parse("{fp:7}:00000000-0000-4000-8000-000000000001").unwrap(),
        attempt_index: AttemptIndex(2),
        attempt_id: AttemptId::parse("00000000-0000-4000-8000-000000000002").unwrap(),
        lease_id: LeaseId::parse("00000000-0000-4000-8000-000000000003").unwrap(),
        lease_epoch: LeaseEpoch(4),
        lease_ttl_ms: 30_000,
        lane_id: LaneId::new("main"),
        worker_instance_id: WorkerInstanceId::new("w1-i1"),
        input_payload: b"{}".to_vec(),
        execution_kind: "fetch".to_owned(),
        tags,
        renewal_failures: RenewalFailures(0),
        terminal_op_called: false,
    }
}

#[test]
fn handlers_read_their_task() {
    let t = task();
    let state: StateMap<Erased> = StateMap::default();
    let ctx = RuntimeCtx::new(&t, &state);
    assert_eq!(PayloadBytes::from_task(&ctx).unwrap().0, b"{}".to_vec());
    let info = TaskInfo::from_task(&ctx).unwrap();
    assert_eq!(info.execution_kind, "fetch");
    assert_eq!(info.attempt_index, AttemptIndex(2));
    assert_eq!(info.lane_id, LaneId::new("main"));
    assert_eq!(info.tags.get("team.name").map(|s| s.as_str()), Some("core"));
    assert_eq!(Data::from_state(take::<Foo>(ctx.state()), "Foo").unwrap_err().text(),
        "extractor: missing state of type Foo");
    assert_eq!(Data::from_state(Some(Foo(1)), "Foo").unwrap().0, Foo(1));
}

#[test]
fn handles_name_the_lease() {
    let t = task();
    let opaque = ff_core::backend::HandleOpaque::new(t.synth_handle().into_boxed_slice());
    let decoded = ff_core::handle_codec::decode(&opaque).unwrap();
    assert_eq!(decoded.tag, ff_core::backend::BackendTag::Valkey);
    assert_eq!(decoded.payload.execution_id.to_string(), t.execution_id().as_str());
    assert_eq!(decoded.payload.attempt_index.0, 2);
    assert_eq!(decoded.payload.attempt_id.to_string(), t.attempt_id().as_str());
    assert_eq!(decoded.payload.lease_id.to_string(), t.lease_id().as_str());
    assert_eq!(decoded.payload.lease_epoch.0, 4);
    assert_eq!(decoded.payload.lease_ttl_ms, 30_000);
    assert_eq!(decoded.payload.lane_id.as_str(), "main");
    assert_eq!(decoded.payload.worker_instance_id.as_str(), "w1-i1");
}
