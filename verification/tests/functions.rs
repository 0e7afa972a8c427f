use flowfabric::error::{ScriptError, ServerError};
use flowfabric::field_map::FieldMap;
use flowfabric::fields::FromFcallResult;
use flowfabric::functions::budget::{
    ff_block_execution_for_admission, ff_create_budget, ff_report_usage_and_check, BlockExecutionArgs,
    BlockOpKeys, BudgetOpKeys, CreateBudgetArgs, CreateBudgetResult, ReportUsageArgs,
    ResetBudgetResult,
};
use flowfabric::functions::execution::{
    ff_claim_execution, ff_create_execution, ff_set_execution_tags, parse_public_state,
    validate_tag_key, AttemptType, CancelExecutionResult, CancelExecutionResultPartial,
    ClaimExecutionArgs, ClaimExecutionResult, ClaimExecutionResultPartial, ClaimedExecutionPartial,
    CompleteExecutionResult, CompleteExecutionResultPartial, CreateExecutionArgs,
    DelayExecutionResult, DelayExecutionResultPartial, ExecOpKeys, ExpireExecutionResult,
    ExpireExecutionResultPartial, MoveToWaitingChildrenResult, MoveToWaitingChildrenResultPartial,
    PublicState, SetExecutionTagsResult,
};
use flowfabric::functions::quota::CheckAdmissionResult;
use flowfabric::functions::scheduling::{
    ChangePriorityResult, ChangePriorityResultPartial, ClaimGrantOutcomePartial,
    IssueClaimGrantResult,
};
use flowfabric::functions::stream::{AppendFrameResult, ReadFramesResult};
use flowfabric::functions::worker_registry::{
    ff_heartbeat_worker, ff_register_worker, heartbeat_outcome, HeartbeatReplyTag,
    HeartbeatWorkerKeys, HeartbeatWorkerOutcome, HeartbeatWorkerReply, RegisterWorkerArgv,
    RegisterWorkerKeys, RegisterWorkerOutcome,
};
use flowfabric::ids::{
    AttemptId, AttemptIndex, BudgetId, ExecutionId, LeaseEpoch, LeaseId, TimestampMs,
};
use flowfabric::keys::{ExecKeyContext, IndexKeys};
use flowfabric::names::{LaneId, Namespace, WorkerId, WorkerInstanceId};
use flowfabric::partition::execution_partition;
use flowfabric::reply::ReportUsageResult;
use flowfabric::value::Value;

const EID: &str = "{fp:7}:00000000-0000-4000-8000-000000000001";
const UUID: &str = "00000000-0000-4000-8000-00000000000a";

fn test_eid() -> ExecutionId {
    ExecutionId::parse(EID).unwrap()
}

fn s(v: &str) -> Result<Value, ServerError> {
    Ok(Value::BulkString(v.as_bytes().to_vec()))
}

fn reply(status: &str, fields: &[&str]) -> Value {
    let mut items = vec![Ok(Value::Int(1)), s(status)];
    for f in fields {
        items.push(s(f));
    }
    Value::Array(items)
}

// ── Identities are attached ──

#[test]
fn claim_partial_complete_attaches_execution_id() {
    let partial = ClaimExecutionResultPartial::Claimed(ClaimedExecutionPartial {
        lease_id: LeaseId::parse(UUID).unwrap(),
        lease_epoch: LeaseEpoch(1),
        attempt_index: AttemptIndex(0),
        attempt_id: AttemptId::parse(UUID).unwrap(),
        attempt_type: AttemptType::Initial,
        lease_expires_at: TimestampMs(1000),
    });
    match partial.complete(test_eid()) {
        ClaimExecutionResult::Claimed(c) => assert_eq!(c.execution_id, test_eid()),
    }
}

#[test]
fn complete_partial_complete_attaches_execution_id() {
    let partial = CompleteExecutionResultPartial::Completed { public_state: PublicState::Completed };
    match partial.complete(test_eid()) {
        CompleteExecutionResult::Completed { execution_id, .. } => {
            assert_eq!(execution_id, test_eid())
        }
    }
}

#[test]
fn cancel_partial_complete_attaches_execution_id() {
    let partial = CancelExecutionResultPartial::Cancelled { public_state: PublicState::Cancelled };
    match partial.complete(test_eid()) {
        CancelExecutionResult::Cancelled { execution_id, .. } => {
            assert_eq!(execution_id, test_eid())
        }
    }
}

#[test]
fn delay_partial_complete_attaches_execution_id() {
    let partial = DelayExecutionResultPartial::Delayed { public_state: PublicState::Delayed };
    match partial.complete(test_eid()) {
        DelayExecutionResult::Delayed { execution_id, .. } => assert_eq!(execution_id, test_eid()),
    }
}

#[test]
fn move_to_waiting_children_partial_complete_attaches_execution_id() {
    let partial = MoveToWaitingChildrenResultPartial::Moved {
        public_state: PublicState::WaitingChildren,
    };
    match partial.complete(test_eid()) {
        MoveToWaitingChildrenResult::Moved { execution_id, .. } => {
            assert_eq!(execution_id, test_eid())
        }
    }
}

#[test]
fn expire_partial_expired_variant_attaches_execution_id() {
    let partial = ExpireExecutionResultPartial::Expired;
    match partial.complete(test_eid()) {
        ExpireExecutionResult::Expired { execution_id } => assert_eq!(execution_id, test_eid()),
        _ => panic!("expected Expired variant"),
    }
}

#[test]
fn expire_partial_already_terminal_variant_ignores_execution_id() {
    let partial = ExpireExecutionResultPartial::AlreadyTerminal;
    let full = partial.complete(test_eid());
    assert!(matches!(full, ExpireExecutionResult::AlreadyTerminal));
}

#[test]
fn change_priority_partial_complete_attaches_execution_id() {
    let partial = ChangePriorityResultPartial::Changed;
    match partial.complete(test_eid()) {
        ChangePriorityResult::Changed { execution_id } => assert_eq!(execution_id, test_eid()),
    }
}

// ── Tag keys ──

#[test]
fn validate_accepts_caller_namespaced_key() {
    assert!(validate_tag_key("cairn.task_id").is_ok());
    assert!(validate_tag_key("my_app.run_123").is_ok());
    assert!(validate_tag_key("app2.x.y").is_ok());
}

#[test]
fn validate_rejects_key_without_dot() {
    let err = validate_tag_key("no_dot_here").unwrap_err();
    assert!(matches!(err, ScriptError::InvalidTagKey(k) if k == "no_dot_here"));
}

#[test]
fn validate_rejects_empty_key() {
    let err = validate_tag_key("").unwrap_err();
    assert!(matches!(err, ScriptError::InvalidTagKey(k) if k.is_empty()));
}

#[test]
fn validate_rejects_uppercase_first_char() {
    let err = validate_tag_key("Cairn.task_id").unwrap_err();
    assert!(matches!(err, ScriptError::InvalidTagKey(_)));
}

#[test]
fn validate_rejects_leading_digit() {
    let err = validate_tag_key("1cairn.task_id").unwrap_err();
    assert!(matches!(err, ScriptError::InvalidTagKey(_)));
}

#[test]
fn validate_rejects_dash_in_prefix() {
    let err = validate_tag_key("my-app.run").unwrap_err();
    assert!(matches!(err, ScriptError::InvalidTagKey(_)));
}

#[test]
fn validate_accepts_single_char_prefix() {
    assert!(validate_tag_key("a.x").is_ok());
}

#[test]
fn validate_rejects_trailing_dot() {
    let err = validate_tag_key("cairn.").unwrap_err();
    assert!(matches!(err, ScriptError::InvalidTagKey(_)));
}

#[test]
fn validate_rejects_double_dot_after_prefix() {
    let err = validate_tag_key("cairn..x").unwrap_err();
    assert!(matches!(err, ScriptError::InvalidTagKey(_)));
}

#[test]
fn validate_accepts_dots_in_suffix() {
    assert!(validate_tag_key("app.sub.field").is_ok());
}

// ── What is sent ──

#[test]
fn creation_names_its_keys_and_arguments() {
    let eid = test_eid();
    let p = execution_partition(&eid);
    let ctx = ExecKeyContext::new(&p, &eid);
    let idx = IndexKeys::new(&p);
    let lane = LaneId::new("main");
    let instance = WorkerInstanceId::new("w1-i1");
    let k = ExecOpKeys { ctx: &ctx, idx: &idx, lane_id: &lane, worker_instance_id: &instance };
    let mut tags = FieldMap::new();
    tags.insert("team.b".to_owned(), "2".to_owned());
    tags.insert("team.a".to_owned(), "say \"hi\"".to_owned());
    let args = CreateExecutionArgs {
        execution_id: test_eid(),
        namespace: Namespace::new("default"),
        lane_id: LaneId::new("main"),
        execution_kind: "fetch".to_owned(),
        input_payload: b"{}".to_vec(),
        priority: -3,
        creator_identity: "c".to_owned(),
        idempotency_key: None,
        tags,
        policy_json: None,
        delay_until: Some(TimestampMs(77)),
        execution_deadline_at: None,
        partition_id: 7,
    };
    let call = ff_create_execution(&k, &args);
    assert_eq!(call.function, "ff_create_execution");
    assert_eq!(call.keys[0], format!("ff:exec:{{fp:7}}:{EID}:core"));
    assert_eq!(call.keys[4], "ff:idx:{fp:7}:lane:main:delayed");
    assert_eq!(
        call.argv,
        vec![
            EID,
            "default",
            "main",
            "fetch",
            "-3",
            "c",
            "{}",
            "{}",
            "77",
            "",
            "{\"team.a\":\"say \\\"hi\\\"\",\"team.b\":\"2\"}",
            "",
            "7",
        ]
    );
}

#[test]
fn claims_ask_for_renewal_after_two_thirds() {
    let eid = test_eid();
    let p = execution_partition(&eid);
    let ctx = ExecKeyContext::new(&p, &eid);
    let idx = IndexKeys::new(&p);
    let lane = LaneId::new("main");
    let instance = WorkerInstanceId::new("w1-i1");
    let k = ExecOpKeys { ctx: &ctx, idx: &idx, lane_id: &lane, worker_instance_id: &instance };
    let args = ClaimExecutionArgs {
        execution_id: test_eid(),
        worker_id: WorkerId::new("w1"),
        worker_instance_id: WorkerInstanceId::new("w1-i1"),
        lane_id: LaneId::new("main"),
        lease_id: LeaseId::parse(UUID).unwrap(),
        lease_ttl_ms: 30_000,
        attempt_id: AttemptId::parse(UUID).unwrap(),
        expected_attempt_index: AttemptIndex(1),
        attempt_policy_json: "{}".to_owned(),
        attempt_timeout_ms: None,
        execution_deadline_at: Some(-1),
    };
    let call = ff_claim_execution(&k, &args);
    assert_eq!(
        call.argv,
        vec![EID, "w1", "w1-i1", "main", "", UUID, "30000", "20000", UUID, "{}", "", "-1"]
    );
    assert_eq!(call.keys.len(), 14);
}

#[test]
fn tags_are_sent_in_turn() {
    let eid = test_eid();
    let ctx = ExecKeyContext::new(&execution_partition(&eid), &eid);
    let mut tags = FieldMap::new();
    tags.insert("b.x".to_owned(), "2".to_owned());
    tags.insert("a.x".to_owned(), "1".to_owned());
    let call = ff_set_execution_tags(&ctx, &tags);
    assert_eq!(call.argv, vec!["a.x", "1", "b.x", "2"]);
    let mut same = FieldMap::new();
    same.insert("a.x".to_owned(), "0".to_owned());
    same.insert("b.x".to_owned(), "2".to_owned());
    same.insert("a.x".to_owned(), "1".to_owned());
    assert_eq!(ff_set_execution_tags(&ctx, &same).argv, call.argv);
    let out = SetExecutionTagsResult::from_fcall_result(&reply("OK", &["2"])).unwrap();
    assert_eq!(out.count, 2);
}

#[test]
fn budgets_refuse_uneven_lists() {
    let keys = BudgetOpKeys { usage_key: "u", limits_key: "l", def_key: "d" };
    let args = |n: usize, hard: usize, soft: usize| CreateBudgetArgs {
        budget_id: BudgetId::parse(UUID).unwrap(),
        scope_type: "lane".to_owned(),
        scope_id: "main".to_owned(),
        enforcement_mode: "strict".to_owned(),
        on_hard_limit: "fail".to_owned(),
        on_soft_limit: "warn".to_owned(),
        reset_interval_ms: 0,
        dimensions: (0..n).map(|i| format!("d{i}")).collect(),
        hard_limits: vec![10; hard],
        soft_limits: vec![5; soft],
        now: TimestampMs(1),
    };
    let text = |r: Result<flowfabric::wire::Call, ScriptError>| r.unwrap_err().text();
    assert!(text(ff_create_budget(&keys, "z", "p", &args(65, 65, 65)))
        .contains("too_many_dimensions: limit=64, got=65"));
    assert!(text(ff_create_budget(&keys, "z", "p", &args(2, 1, 2)))
        .contains("dimension_limit_array_mismatch: dimensions=2 hard_limits=1"));
    assert!(text(ff_create_budget(&keys, "z", "p", &args(2, 2, 3)))
        .contains("dimension_limit_array_mismatch: dimensions=2 soft_limits=3"));
    let call = ff_create_budget(&keys, "z", "p", &args(2, 2, 2)).unwrap();
    assert_eq!(call.keys, vec!["d", "l", "u", "z", "p"]);
    assert_eq!(
        call.argv,
        vec![
            UUID, "lane", "main", "strict", "fail", "warn", "0", "1", "2", "d0", "d1", "10", "10",
            "5", "5"
        ]
    );
    assert!(matches!(
        CreateBudgetResult::from_fcall_result(&reply("ALREADY_SATISFIED", &[UUID])).unwrap(),
        CreateBudgetResult::AlreadySatisfied { .. }
    ));
}

#[test]
fn usage_is_reported_and_read() {
    let keys = BudgetOpKeys { usage_key: "u", limits_key: "l", def_key: "d" };
    let args = |deltas: Vec<u64>| ReportUsageArgs {
        dimensions: vec!["tokens".to_owned()],
        deltas,
        now: TimestampMs(9),
        dedup_key: None,
    };
    let err = ff_report_usage_and_check(&keys, &args(vec![])).unwrap_err();
    assert!(err.text().contains("dimension_delta_array_mismatch: dimensions=1 deltas=0"));
    let call = ff_report_usage_and_check(&keys, &args(vec![4])).unwrap();
    assert_eq!(call.argv, vec!["1", "tokens", "4", "9", ""]);
    match ReportUsageResult::from_fcall_result(&reply("SOFT_BREACH", &["tokens", "x", "7"])) {
        Ok(ReportUsageResult::SoftBreach { dimension, current_usage, soft_limit }) => {
            assert_eq!(dimension, "tokens");
            assert_eq!(current_usage, 0);
            assert_eq!(soft_limit, 7);
        }
        other => panic!("{other:?}"),
    }
    assert_eq!(
        ResetBudgetResult::from_fcall_result(&reply("OK", &["55"])).unwrap(),
        ResetBudgetResult::Reset { next_reset_at: TimestampMs(55) }
    );
}

#[test]
fn blocked_executions_go_where_their_reason_says() {
    let eid = test_eid();
    let p = execution_partition(&eid);
    let ctx = ExecKeyContext::new(&p, &eid);
    let idx = IndexKeys::new(&p);
    let lane = LaneId::new("main");
    let k = BlockOpKeys { ctx: &ctx, idx: &idx, lane_id: &lane };
    let call = |reason: &str| {
        ff_block_execution_for_admission(
            &k,
            &BlockExecutionArgs {
                execution_id: test_eid(),
                blocking_reason: reason.to_owned(),
                blocking_detail: None,
                now: TimestampMs(1),
            },
        )
    };
    assert!(call("waiting_for_quota").keys[2].ends_with("blocked:quota"));
    assert!(call("waiting_for_budget").keys[2].ends_with("blocked:budget"));
    assert!(call("other").keys[2].ends_with("blocked:budget"));
}

// ── What comes back ──

#[test]
fn public_states_are_read() {
    assert_eq!(parse_public_state("completed").unwrap(), PublicState::Completed);
    for (word, state) in [
        ("waiting", PublicState::Waiting),
        ("delayed", PublicState::Delayed),
        ("waiting_children", PublicState::WaitingChildren),
        ("active", PublicState::Active),
        ("suspended", PublicState::Suspended),
        ("failed", PublicState::Failed),
        ("cancelled", PublicState::Cancelled),
        ("expired", PublicState::Expired),
    ] {
        assert_eq!(parse_public_state(word).unwrap(), state);
    }
    assert!(parse_public_state("Completed").is_err());
}

#[test]
fn admission_has_no_envelope() {
    let bare = |items: Vec<Result<Value, ServerError>>| {
        CheckAdmissionResult::from_fcall_result(&Value::Array(items))
    };
    assert_eq!(bare(vec![s("ADMITTED")]).unwrap(), CheckAdmissionResult::Admitted);
    assert_eq!(
        bare(vec![s("RATE_EXCEEDED"), Ok(Value::Int(250))]).unwrap(),
        CheckAdmissionResult::RateExceeded { retry_after_ms: 250 }
    );
    assert_eq!(
        bare(vec![s("RATE_EXCEEDED")]).unwrap(),
        CheckAdmissionResult::RateExceeded { retry_after_ms: 0 }
    );
    assert_eq!(
        bare(vec![s("CONCURRENCY_EXCEEDED")]).unwrap(),
        CheckAdmissionResult::ConcurrencyExceeded
    );
    assert!(bare(vec![s("?")]).is_err());
    assert!(bare(vec![]).is_err());
    assert!(CheckAdmissionResult::from_fcall_result(&Value::Nil).is_err());
}

#[test]
fn grants_name_their_execution() {
    match IssueClaimGrantResult::from_fcall_result(&reply("OK", &[EID])).unwrap() {
        IssueClaimGrantResult::Granted { execution_id } => assert_eq!(execution_id, test_eid()),
    }
    assert!(IssueClaimGrantResult::from_fcall_result(&reply("OK", &["x"])).is_err());
    let out = ClaimGrantOutcomePartial::from_fcall_result(&reply("OK", &[UUID, "4", "2"]))
        .unwrap()
        .complete();
    assert_eq!(out.lease_epoch, LeaseEpoch(4));
    assert_eq!(out.attempt_index, AttemptIndex(2));
    assert!(ClaimGrantOutcomePartial::from_fcall_result(&reply("OK", &[UUID, "4", "-2"])).is_err());
}

#[test]
fn frames_are_read_in_order() {
    match AppendFrameResult::from_fcall_result(&reply("OK", &["1-0", "3"])).unwrap() {
        AppendFrameResult::Appended { entry_id, frame_count } => {
            assert_eq!(entry_id, "1-0");
            assert_eq!(frame_count, 3);
        }
    }
    let entry = |id: &str, k: &str, v: &str| {
        Ok(Value::Array(vec![s(id), Ok(Value::Array(vec![s(k), s(v)]))]))
    };
    let raw = Value::Array(vec![
        Ok(Value::Int(1)),
        s("OK"),
        Ok(Value::Array(vec![entry("1-0", "t", "a"), entry("2-0", "t", "b")])),
        s("99"),
        s("done"),
    ]);
    let ReadFramesResult::Frames(f) = ReadFramesResult::from_fcall_result(&raw).unwrap();
    assert_eq!(f.frames.len(), 2);
    assert_eq!(f.frames[1].id, "2-0");
    assert_eq!(f.frames[1].fields.get("t").map(|v| v.as_str()), Some("b"));
    assert_eq!(f.closed_at, Some(99));
    assert_eq!(f.closed_reason.as_deref(), Some("done"));
    assert!(f.is_closed());
    assert!(ReadFramesResult::from_fcall_result(&reply("OK", &[])).is_err());
}

// ── The registry ──

#[test]
fn workers_register_and_beat() {
    let call = ff_register_worker(
        &RegisterWorkerKeys { alive_key: "a", caps_key: "c", index_key: "i" },
        &RegisterWorkerArgv {
            instance_id: "w1-i1",
            worker_id: "w1",
            lanes_csv: "main",
            caps_csv: "",
            ttl_ms: 5,
            now_ms: 6,
        },
    );
    assert_eq!(call.function, "ff_register_worker");
    assert_eq!(call.keys, vec!["a", "c", "i"]);
    assert_eq!(call.argv, vec!["w1-i1", "w1", "main", "", "5", "6"]);
    assert_eq!(
        RegisterWorkerOutcome::from_fcall_result(&reply("OK", &["refreshed"])).unwrap(),
        RegisterWorkerOutcome::Refreshed
    );
    let err = RegisterWorkerOutcome::from_fcall_result(&reply("OK", &["?"])).unwrap_err();
    assert!(err.text().contains("unexpected outcome tag: \"?\""));

    let call = ff_heartbeat_worker(&HeartbeatWorkerKeys { alive_key: "a", caps_key: "c" }, 7);
    assert_eq!(call.argv, vec!["7"]);
    let out = HeartbeatWorkerReply::from_fcall_result(&reply("OK", &["refreshed", "30"])).unwrap();
    assert_eq!(
        heartbeat_outcome(&out, 7),
        HeartbeatWorkerOutcome::Refreshed { next_expiry_ms: TimestampMs(37) }
    );
    assert_eq!(
        heartbeat_outcome(&out, i64::MAX),
        HeartbeatWorkerOutcome::Refreshed { next_expiry_ms: TimestampMs(i64::MAX) }
    );
    let long = HeartbeatWorkerReply {
        outcome_tag: HeartbeatReplyTag::Refreshed { ttl_ms: u64::MAX },
    };
    assert_eq!(
        heartbeat_outcome(&long, 7),
        HeartbeatWorkerOutcome::Refreshed { next_expiry_ms: TimestampMs(6) }
    );
    let out = HeartbeatWorkerReply::from_fcall_result(&reply("OK", &["not_registered"])).unwrap();
    assert_eq!(heartbeat_outcome(&out, 7), HeartbeatWorkerOutcome::NotRegistered);
    assert!(HeartbeatWorkerReply::from_fcall_result(&reply("OK", &["refreshed", "x"])).is_err());
}
