use flowfabric::engine_error::{ContentionKind, EngineError};
use flowfabric::error::{ScriptError, ServerError};
use flowfabric::field_map::FieldMap;
use flowfabric::ids::{AttemptIndex, SuspensionId, TimestampMs, WaitpointId};
use flowfabric::reply::{
    parse_fail_result, parse_report_usage_result, parse_signal_result, parse_success_result,
    parse_suspend_result, FailOutcome, ReportUsageResult, SignalOutcome, SuspendOutcome,
};
use flowfabric::result::FcallResult;
use flowfabric::sdk_error::SdkError;
use flowfabric::task::resume_waitpoint_id_from_suspension;
use flowfabric::value::Value;

const ID: &str = "11111111-1111-1111-1111-111111111111";

fn s(v: &str) -> Result<Value, ServerError> {
    Ok(Value::SimpleString(v.to_owned()))
}

fn bytes(v: &str) -> Result<Value, ServerError> {
    Ok(Value::BulkString(v.as_bytes().to_vec()))
}

fn num(n: i64) -> Result<Value, ServerError> {
    Ok(Value::Int(n))
}

fn arr(items: Vec<Result<Value, ServerError>>) -> Value {
    Value::Array(items)
}

// ── The envelope ──

fn ok_value(fields: Vec<Value>) -> Value {
    let mut items = vec![num(1), bytes("OK")];
    for f in fields {
        items.push(Ok(f));
    }
    Value::Array(items)
}

fn err_value(code: &str) -> Value {
    Value::Array(vec![num(0), bytes(code)])
}

#[test]
fn parse_success() {
    let raw = ok_value(vec![Value::BulkString("hello".into())]);
    let result = FcallResult::parse(&raw).unwrap();
    assert!(result.success);
    assert_eq!(result.status, "OK");
    assert_eq!(result.fields.len(), 1);
    assert_eq!(result.field_str(0), "hello");
}

#[test]
fn parse_error() {
    let raw = err_value("stale_lease");
    let result = FcallResult::parse(&raw).unwrap();
    assert!(!result.success);
    assert_eq!(result.status, "stale_lease");
}

#[test]
fn into_success_ok() {
    let raw = ok_value(vec![]);
    let result = FcallResult::parse(&raw).unwrap().into_success();
    assert!(result.is_ok());
}

#[test]
fn into_success_err() {
    let raw = err_value("lease_expired");
    let result = FcallResult::parse(&raw).unwrap().into_success();
    assert!(result.is_err());
    assert!(matches!(result.err().unwrap(), ScriptError::LeaseExpired));
}

#[test]
fn parse_non_array_fails() {
    let raw = Value::SimpleString("hello".into());
    let result = FcallResult::parse(&raw);
    assert!(result.is_err());
}

#[test]
fn bytes_that_are_no_text_are_replaced() {
    let raw = ok_value(vec![Value::BulkString(vec![b'a', 0xff, b'b'])]);
    let result = FcallResult::parse(&raw).unwrap();
    assert_eq!(result.field_str(0), "a\u{fffd}b");
}

// ── Usage ──

#[test]
fn ok_status() {
    let raw = arr(vec![num(1), s("OK")]);
    assert!(matches!(parse_report_usage_result(&raw).unwrap(), ReportUsageResult::Applied));
}

#[test]
fn already_applied_status() {
    let raw = arr(vec![num(1), s("ALREADY_APPLIED")]);
    assert!(matches!(
        parse_report_usage_result(&raw).unwrap(),
        ReportUsageResult::AlreadyApplied
    ));
}

#[test]
fn soft_breach_status() {
    let raw = arr(vec![num(1), s("SOFT_BREACH"), s("tokens"), s("150"), s("100")]);
    match parse_report_usage_result(&raw).unwrap() {
        ReportUsageResult::SoftBreach { dimension, current_usage, soft_limit } => {
            assert_eq!(dimension, "tokens");
            assert_eq!(current_usage, 150);
            assert_eq!(soft_limit, 100);
        }
        other => panic!("expected SoftBreach, got {other:?}"),
    }
}

#[test]
fn hard_breach_status() {
    let raw = arr(vec![num(1), s("HARD_BREACH"), s("requests"), s("10001"), s("10000")]);
    match parse_report_usage_result(&raw).unwrap() {
        ReportUsageResult::HardBreach { dimension, current_usage, hard_limit } => {
            assert_eq!(dimension, "requests");
            assert_eq!(current_usage, 10001);
            assert_eq!(hard_limit, 10000);
        }
        other => panic!("expected HardBreach, got {other:?}"),
    }
}

#[test]
fn non_array_input_is_parse_error() {
    let raw = Value::SimpleString("OK".to_owned());
    let msg = parse_report_usage_result(&raw).unwrap_err().text();
    assert!(
        msg.to_lowercase().contains("expected array"),
        "error should mention expected shape, got: {msg}"
    );
}

#[test]
fn first_element_non_int_is_parse_error() {
    let raw = arr(vec![s("not_an_int"), s("OK")]);
    let msg = parse_report_usage_result(&raw).unwrap_err().text();
    assert!(
        msg.to_lowercase().contains("int"),
        "error should mention Int status code, got: {msg}"
    );
}

#[test]
fn soft_breach_non_numeric_current_is_parse_error() {
    let raw = arr(vec![num(1), s("SOFT_BREACH"), s("tokens"), s("not_a_number"), s("100")]);
    let msg = parse_report_usage_result(&raw).unwrap_err().text();
    assert!(
        msg.contains("SOFT_BREACH") && msg.contains("current_usage"),
        "error should identify sub-status + field, got: {msg}"
    );
    assert!(
        msg.to_lowercase().contains("u64"),
        "error should mention the expected type (u64), got: {msg}"
    );
    assert!(msg.contains("\"not_a_number\""), "error should quote the text, got: {msg}");
}

#[test]
fn hard_breach_missing_limit_is_parse_error() {
    let raw = arr(vec![num(1), s("HARD_BREACH"), s("requests"), s("10001")]);
    let msg = parse_report_usage_result(&raw).unwrap_err().text();
    assert!(
        msg.contains("HARD_BREACH") && msg.contains("hard_limit"),
        "error should identify sub-status + field, got: {msg}"
    );
    assert!(
        msg.to_lowercase().contains("missing"),
        "error should say 'missing', got: {msg}"
    );
}

// ── Resumption ──

fn m(pairs: &[(&str, &str)]) -> FieldMap {
    let mut out = FieldMap::new();
    for (k, v) in pairs {
        out.insert((*k).to_owned(), (*v).to_owned());
    }
    out
}

#[test]
fn empty_suspension_returns_none() {
    let susp = m(&[]);
    let out = resume_waitpoint_id_from_suspension(&susp, AttemptIndex(0)).unwrap();
    assert!(out.is_none(), "no suspension record → None");
}

#[test]
fn stale_prior_attempt_returns_none() {
    let susp = m(&[("attempt_index", "0"), ("close_reason", "resumed"), ("waitpoint_id", ID)]);
    let out = resume_waitpoint_id_from_suspension(&susp, AttemptIndex(1)).unwrap();
    assert!(out.is_none(), "attempt_index mismatch → None");
}

#[test]
fn non_resumed_close_returns_none() {
    for reason in ["timeout", "cancelled", "", "expired"] {
        let susp = m(&[("attempt_index", "0"), ("close_reason", reason), ("waitpoint_id", ID)]);
        let out = resume_waitpoint_id_from_suspension(&susp, AttemptIndex(0)).unwrap();
        assert!(out.is_none(), "close_reason={reason:?} must not return signals");
    }
}

#[test]
fn resumed_same_attempt_returns_waitpoint() {
    let susp = m(&[("attempt_index", "2"), ("close_reason", "resumed"), ("waitpoint_id", ID)]);
    let out = resume_waitpoint_id_from_suspension(&susp, AttemptIndex(2)).unwrap();
    assert_eq!(out, Some(WaitpointId::parse(ID).unwrap()));
}

#[test]
fn malformed_waitpoint_id_is_error() {
    let susp = m(&[
        ("attempt_index", "0"),
        ("close_reason", "resumed"),
        ("waitpoint_id", "not-a-uuid"),
    ]);
    let err = resume_waitpoint_id_from_suspension(&susp, AttemptIndex(0)).unwrap_err();
    assert!(
        err.text().contains("not a valid UUID"),
        "error should mention invalid UUID, got: {err:?}"
    );
}

#[test]
fn empty_waitpoint_id_returns_none() {
    let susp = m(&[("attempt_index", "0"), ("close_reason", "resumed"), ("waitpoint_id", "")]);
    let out = resume_waitpoint_id_from_suspension(&susp, AttemptIndex(0)).unwrap();
    assert!(out.is_none());
}

// ── Replays of an end ──

fn not_active(err: SdkError) -> [String; 4] {
    let unboxed = match err {
        SdkError::Engine(b) => *b,
        other => panic!("expected ExecutionNotActive struct variant, got {other:?}"),
    };
    match unboxed {
        EngineError::Contention(ContentionKind::ExecutionNotActive {
            terminal_outcome,
            lease_epoch,
            lifecycle_phase,
            attempt_id,
        }) => [terminal_outcome, lease_epoch, lifecycle_phase, attempt_id],
        other => panic!("expected ExecutionNotActive struct variant, got {other:?}"),
    }
}

#[test]
fn parse_success_result_extracts_all_four_detail_slots() {
    let raw = arr(vec![
        num(0),
        s("execution_not_active"),
        s("success"),
        s("42"),
        s("terminal"),
        s("11111111-1111-1111-1111-111111111111"),
    ]);
    let [terminal_outcome, lease_epoch, lifecycle_phase, attempt_id] =
        not_active(parse_success_result(&raw, "test").unwrap_err());
    assert_eq!(terminal_outcome, "success");
    assert_eq!(lease_epoch, "42");
    assert_eq!(lifecycle_phase, "terminal");
    assert_eq!(attempt_id, "11111111-1111-1111-1111-111111111111");
}

#[test]
fn parse_fail_result_extracts_all_four_detail_slots() {
    let raw = arr(vec![
        num(0),
        s("execution_not_active"),
        s("none"),
        s("7"),
        s("runnable"),
        s("22222222-2222-2222-2222-222222222222"),
    ]);
    let [terminal_outcome, lease_epoch, lifecycle_phase, attempt_id] =
        not_active(parse_fail_result(&raw).unwrap_err());
    assert_eq!(terminal_outcome, "none");
    assert_eq!(lease_epoch, "7");
    assert_eq!(lifecycle_phase, "runnable");
    assert_eq!(attempt_id, "22222222-2222-2222-2222-222222222222");
}

#[test]
fn parse_success_result_missing_slots_defaults_to_empty() {
    let raw = arr(vec![num(0), s("execution_not_active")]);
    let [terminal_outcome, lease_epoch, lifecycle_phase, attempt_id] =
        not_active(parse_success_result(&raw, "test").unwrap_err());
    assert_eq!(terminal_outcome, "");
    assert_eq!(lease_epoch, "");
    assert_eq!(lifecycle_phase, "");
    assert_eq!(attempt_id, "");
}

#[test]
fn failure_is_rescheduled_or_final() {
    let raw = arr(vec![num(1), s("OK"), s("retry_scheduled"), bytes("1700")]);
    match parse_fail_result(&raw).unwrap() {
        FailOutcome::RetryScheduled { delay_until } => assert_eq!(delay_until, TimestampMs(1700)),
        other => panic!("{other:?}"),
    }
    for time in [s("5000"), Ok(Value::BulkString(b"5000".to_vec())), num(5000)] {
        let raw = arr(vec![num(1), s("OK"), s("retry_scheduled"), time]);
        match parse_fail_result(&raw).unwrap() {
            FailOutcome::RetryScheduled { delay_until } => {
                assert_eq!(delay_until, TimestampMs(5000))
            }
            other => panic!("{other:?}"),
        }
    }
    let raw = arr(vec![num(1), s("OK"), s("terminal_failed")]);
    assert!(matches!(parse_fail_result(&raw).unwrap(), FailOutcome::TerminalFailed));
    let raw = arr(vec![num(1), s("OK"), s("other")]);
    assert!(parse_fail_result(&raw).unwrap_err().text().contains("unexpected sub-status: other"));
}

#[test]
fn suspension_carries_its_token() {
    let raw = arr(vec![num(1), s("OK"), s(""), s(""), s(""), s("kid:abc")]);
    let out = parse_suspend_result(
        &raw,
        SuspensionId::parse(ID).unwrap(),
        WaitpointId::parse(ID).unwrap(),
        "wpk:x".to_owned(),
    );
    match out.unwrap() {
        SuspendOutcome::Suspended { waitpoint_key, waitpoint_token, .. } => {
            assert_eq!(waitpoint_key, "wpk:x");
            assert_eq!(waitpoint_token, "kid:abc");
        }
        other => panic!("{other:?}"),
    }
    let out = parse_suspend_result(
        &arr(vec![num(1), s("OK")]),
        SuspensionId::parse(ID).unwrap(),
        WaitpointId::parse(ID).unwrap(),
        "wpk:x".to_owned(),
    );
    assert!(out.unwrap_err().text().contains("missing waitpoint_token"));
}

#[test]
fn signal_effects_are_told_apart() {
    let raw = arr(vec![num(1), s("OK"), s(ID), s("resume_condition_satisfied")]);
    match parse_signal_result(&raw).unwrap() {
        SignalOutcome::TriggeredResume { signal_id } => assert_eq!(signal_id.as_str(), ID),
        other => panic!("{other:?}"),
    }
    let raw = arr(vec![num(1), s("OK"), s(ID), s("buffered")]);
    match SignalOutcome::from_fcall_value(&raw).unwrap() {
        SignalOutcome::Accepted { effect, .. } => assert_eq!(effect, "buffered"),
        other => panic!("{other:?}"),
    }
    let raw = arr(vec![num(1), s("DUPLICATE"), s("earlier")]);
    match parse_signal_result(&raw).unwrap() {
        SignalOutcome::Duplicate { existing_signal_id } => assert_eq!(existing_signal_id, "earlier"),
        other => panic!("{other:?}"),
    }
}
