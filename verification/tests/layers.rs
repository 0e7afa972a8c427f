use flowfabric::engine_error::{EngineError, TransportSource, ValidationKind};
use flowfabric::layer::circuit_breaker::{
    BreakerState, CircuitBreakerConfig, CircuitBreakerHooks, CircuitBreakerLayer,
};
use flowfabric::layer::hooks::{passed, turned_away, Admit, HookOutcome, LayerHooks};
use flowfabric::layer::metrics::{engine_error_category, MetricsLayer, MetricsSink, Outcome};
use flowfabric::layer::ratelimit::{verdict, Bucket, RateLimitLayer};
use flowfabric::layer::tracing_layer::{span_record, TracingLayer, TracingLevel};

const MS: u128 = 1_000_000;

fn transport() -> EngineError {
    EngineError::Transport {
        backend: "valkey",
        source: TransportSource::Other("down".to_owned()),
    }
}

/// A call through a breaker at a time: what the backend would answer, if it is asked.
fn call(h: &mut CircuitBreakerHooks, now: u128, answer: Result<(), EngineError>) -> Result<(), EngineError> {
    match h.before("describe_execution", now) {
        Admit::Proceed => passed(h, "describe_execution", 0, now, answer),
        Admit::Reject(err) => Err(turned_away(h, "describe_execution", now, err)),
    }
}

#[test]
fn opens_after_failure_threshold_and_rejects_fast() {
    let cfg = CircuitBreakerConfig { failure_threshold: 3, cool_down: 60_000 * MS };
    let mut h = CircuitBreakerLayer::new(cfg).hooks();
    for _ in 0..3 {
        let _ = call(&mut h, 0, Err(transport()));
    }
    let r = call(&mut h, MS, Ok(()));
    assert!(matches!(r, Err(EngineError::Transport { backend: "ff-sdk-layer", .. })));
    assert_eq!(h.state, BreakerState::Open { opened_at: 0 });
}

#[test]
fn successful_call_resets_counter() {
    let cfg = CircuitBreakerConfig { failure_threshold: 3, cool_down: 60_000 * MS };
    let mut h = CircuitBreakerLayer::new(cfg).hooks();
    let _ = call(&mut h, 0, Err(transport()));
    let _ = call(&mut h, 0, Err(transport()));
    assert!(call(&mut h, 0, Ok(())).is_ok());
    let _ = call(&mut h, 0, Err(transport()));
    assert!(call(&mut h, 0, Ok(())).is_ok());
}

#[test]
fn half_open_trial_closes_on_success() {
    let cfg = CircuitBreakerConfig { failure_threshold: 2, cool_down: 10 * MS };
    let mut h = CircuitBreakerLayer::new(cfg).hooks();
    let _ = call(&mut h, 0, Err(transport()));
    let _ = call(&mut h, 0, Err(transport()));
    assert!(call(&mut h, 20 * MS, Ok(())).is_ok());
    assert!(call(&mut h, 20 * MS, Ok(())).is_ok());
}

#[test]
fn only_one_call_is_on_trial() {
    let cfg = CircuitBreakerConfig { failure_threshold: 1, cool_down: 10 * MS };
    let mut h = CircuitBreakerLayer::new(cfg).hooks();
    let _ = call(&mut h, 0, Err(transport()));
    assert!(matches!(h.before("claim", 10 * MS), Admit::Proceed));
    assert!(call(&mut h, 11 * MS, Ok(())).is_err());
    assert_eq!(h.state, BreakerState::HalfOpen);
    assert!(passed(&mut h, "claim", 0, 12 * MS, Ok(())).is_ok());
    assert_eq!(h.state, BreakerState::Closed { consecutive_failures: 0 });
}

#[test]
fn a_failed_trial_opens_again() {
    let cfg = CircuitBreakerConfig { failure_threshold: 1, cool_down: 10 * MS };
    let mut h = CircuitBreakerLayer::new(cfg).hooks();
    let _ = call(&mut h, 0, Err(transport()));
    let _ = call(&mut h, 10 * MS, Err(transport()));
    assert_eq!(h.state, BreakerState::Open { opened_at: 10 * MS });
}

#[test]
fn refusals_of_the_engine_do_not_count() {
    let cfg = CircuitBreakerConfig { failure_threshold: 2, cool_down: 10 * MS };
    let mut h = CircuitBreakerLayer::new(cfg).hooks();
    let _ = call(&mut h, 0, Err(transport()));
    let _ = call(&mut h, 0, Err(EngineError::NotFound { entity: "flow" }));
    assert_eq!(h.state, BreakerState::Closed { consecutive_failures: 1 });
    let labelled = EngineError::Contextual {
        source: Box::new(transport()),
        context: "claim".to_owned(),
    };
    let _ = call(&mut h, 5, Err(labelled));
    assert_eq!(h.state, BreakerState::Open { opened_at: 5 });
}

#[test]
fn breakers_have_defaults() {
    let layer = CircuitBreakerLayer::default();
    assert_eq!(layer.config.failure_threshold, 5);
    assert_eq!(layer.config.cool_down, 30_000 * MS);
}

#[derive(Default)]
struct CaptureSink {
    records: Vec<(&'static str, u128, Outcome)>,
}

impl MetricsSink for CaptureSink {
    fn recorded(mut self, method: &'static str, elapsed: u128, outcome: Outcome) -> CaptureSink {
        self.record_call(method, elapsed, outcome);
        self
    }

    fn record_call(&mut self, method: &'static str, elapsed: u128, outcome: Outcome) {
        self.records.push((method, elapsed, outcome));
    }
}

#[test]
fn records_ok_and_err() {
    let mut layer = MetricsLayer::new(CaptureSink::default());
    assert!(matches!(layer.before("describe_execution", 0), Admit::Proceed));
    let _ok = passed(&mut layer, "describe_execution", 1, 1, Ok(()));
    let _err: Result<(), EngineError> =
        passed(&mut layer, "describe_execution", 7, 2, Err(transport()));
    let records = layer.sink.records;
    assert_eq!(records.len(), 2);
    assert_eq!(records[0], ("describe_execution", 1, Outcome::Success));
    assert_eq!(records[1], ("describe_execution", 7, Outcome::Failure("transport")));
}

#[test]
fn a_call_that_was_turned_away_is_reported() {
    let mut layer = MetricsLayer::new(CaptureSink::default());
    let err = turned_away(&mut layer, "claim", 3, Box::new(transport()));
    assert!(matches!(err, EngineError::Transport { .. }));
    assert_eq!(layer.sink.records, vec![("claim", 0, Outcome::Failure("transport"))]);
}

#[test]
fn categories_look_under_labels() {
    let labelled = EngineError::Contextual {
        source: Box::new(EngineError::Unavailable { op: "x" }),
        context: "c".to_owned(),
    };
    assert_eq!(engine_error_category(&labelled), "unavailable");
    assert_eq!(engine_error_category(&EngineError::StreamDisconnected), "unknown");
}

#[test]
fn rejects_after_exceeding_quota() {
    let layer = RateLimitLayer::single_bucket(1);
    assert_eq!(layer.fallback_rate(), Some(1));
    let key = layer.key("describe_execution");
    assert_eq!(layer.choose_bucket(&key), Some(Bucket::Fallback));
    assert!(matches!(verdict("describe_execution", &key, Some(true)), Admit::Proceed));
    match verdict("describe_execution", &key, Some(false)) {
        Admit::Reject(e) => match *e {
            EngineError::Validation { kind: ValidationKind::InvalidInput, detail } => assert_eq!(
                detail,
                "rate-limit: method describe_execution bucket __default__ exhausted"
            ),
            other => panic!("{other:?}"),
        },
        other => panic!("{other:?}"),
    }
}

#[test]
fn unconfigured_key_with_no_default_admits() {
    let layer = RateLimitLayer::with_classifier().bucket("claim", 100);
    let key = layer.key("describe_execution");
    assert_eq!(layer.choose_bucket(&key), None);
    assert!(matches!(verdict("describe_execution", &key, None), Admit::Proceed));
    assert_eq!(layer.choose_bucket(&layer.key("claim")), Some(Bucket::Named(0)));
}

#[test]
fn buckets_are_replaced_and_never_empty() {
    let layer = RateLimitLayer::with_classifier()
        .bucket("claim", 100)
        .bucket("renew", 0)
        .bucket("claim", 7)
        .default_bucket(0);
    assert_eq!(layer.named_buckets(), &vec![("claim".to_owned(), 7), ("renew".to_owned(), 1)]);
    assert_eq!(layer.fallback_rate(), Some(1));
    assert_eq!(layer.choose_bucket("other"), Some(Bucket::Fallback));
}

#[test]
fn spans_record_time_and_success() {
    assert_eq!(TracingLayer::new().level, TracingLevel::Info);
    assert_eq!(TracingLayer::default().level, TracingLevel::Info);
    assert_eq!(TracingLayer::trace().level, TracingLevel::Trace);
    assert_eq!(TracingLayer::debug().level, TracingLevel::Debug);
    assert_eq!(TracingLayer::warn().level, TracingLevel::Warn);
    let r = span_record(1_999, &HookOutcome::Success);
    assert_eq!(r.elapsed_us, 1);
    assert!(r.ok);
    assert!(!span_record(0, &HookOutcome::Failure(&transport())).ok);
}
