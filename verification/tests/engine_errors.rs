use flowfabric::engine_error::{
    class, is_transport, transport_script, transport_script_ref, valkey_kind, BugKind,
    ConflictKind, ContentionKind, EngineError, StateKind, TransportSource, ValidationKind,
};
use flowfabric::error::{ErrorClass, ScriptError, ServerError};
use flowfabric::retry::ErrorKind;

fn fault(kind: ErrorKind, text: &str) -> ServerError {
    ServerError { kind, text: text.to_owned() }
}

#[test]
fn not_found_mappings() {
    assert!(matches!(
        EngineError::from(ScriptError::ExecutionNotFound),
        EngineError::NotFound { entity: "execution" }
    ));
    assert!(matches!(
        EngineError::from(ScriptError::FlowNotFound),
        EngineError::NotFound { entity: "flow" }
    ));
}

#[test]
fn validation_detail_preserved() {
    match EngineError::from(ScriptError::CapabilityMismatch("gpu,cuda".into())) {
        EngineError::Validation { kind: ValidationKind::CapabilityMismatch, detail } => {
            assert_eq!(detail, "gpu,cuda")
        }
        other => panic!("{other:?}"),
    }
}

#[test]
fn contention_bucket() {
    assert!(matches!(
        EngineError::from(ScriptError::LeaseConflict),
        EngineError::Contention(ContentionKind::LeaseConflict)
    ));
    assert!(matches!(
        EngineError::from(ScriptError::UseClaimResumedExecution),
        EngineError::Contention(ContentionKind::UseClaimResumedExecution)
    ));
}

#[test]
fn execution_not_active_detail_flows_through() {
    let src = ScriptError::ExecutionNotActive {
        terminal_outcome: "success".into(),
        lease_epoch: "3".into(),
        lifecycle_phase: "terminal".into(),
        attempt_id: "att-1".into(),
    };
    match EngineError::from(src) {
        EngineError::Contention(ContentionKind::ExecutionNotActive {
            terminal_outcome,
            lease_epoch,
            lifecycle_phase,
            attempt_id,
        }) => {
            assert_eq!(terminal_outcome, "success");
            assert_eq!(lease_epoch, "3");
            assert_eq!(lifecycle_phase, "terminal");
            assert_eq!(attempt_id, "att-1");
        }
        other => panic!("{other:?}"),
    }
}

#[test]
fn dependency_already_exists_falls_through_to_transport_without_enrich() {
    let err = EngineError::from(ScriptError::DependencyAlreadyExists);
    match &err {
        EngineError::Transport { backend, source } => {
            assert_eq!(*backend, "valkey");
            assert!(matches!(
                source,
                TransportSource::Script(ScriptError::DependencyAlreadyExists)
            ));
        }
        other => panic!("{other:?}"),
    }
}

#[test]
fn conflict_variants() {
    assert!(matches!(
        EngineError::from(ScriptError::CycleDetected),
        EngineError::Conflict(ConflictKind::CycleDetected)
    ));
    assert!(matches!(
        EngineError::from(ScriptError::ExecutionAlreadyInFlow),
        EngineError::Conflict(ConflictKind::ExecutionAlreadyInFlow)
    ));
    match EngineError::from(ScriptError::RotationConflict("kid-1".into())) {
        EngineError::Conflict(ConflictKind::RotationConflict(k)) => assert_eq!(k, "kid-1"),
        other => panic!("{other:?}"),
    }
}

#[test]
fn state_variants() {
    assert!(matches!(
        EngineError::from(ScriptError::StaleLease),
        EngineError::State(StateKind::StaleLease)
    ));
    assert!(matches!(
        EngineError::from(ScriptError::BudgetExceeded),
        EngineError::State(StateKind::BudgetExceeded)
    ));
}

#[test]
fn bug_variants() {
    assert!(matches!(
        EngineError::from(ScriptError::AttemptNotInCreatedState),
        EngineError::Bug(BugKind::AttemptNotInCreatedState)
    ));
}

#[test]
fn transport_preserves_parse() {
    let err = EngineError::from(ScriptError::Parse {
        fcall: "test_fn".into(),
        execution_id: None,
        message: "bad envelope".into(),
    });
    match &err {
        EngineError::Transport { backend, source } => {
            assert_eq!(*backend, "valkey");
            assert!(matches!(source, TransportSource::Script(ScriptError::Parse { .. })));
        }
        other => panic!("{other:?}"),
    }
}

#[test]
fn transport_script_helper_round_trips() {
    let err = transport_script(ScriptError::AttemptNotFound);
    assert!(matches!(transport_script_ref(&err), Some(ScriptError::AttemptNotFound)));
    assert_eq!(class(&err), ScriptError::AttemptNotFound.class());
}

#[test]
fn transport_preserves_valkey_kind() {
    let err = EngineError::from(ScriptError::Valkey(fault(ErrorKind::IoError, "boom")));
    assert_eq!(valkey_kind(&err), Some(ErrorKind::IoError));
}

#[test]
fn class_transport_delegates() {
    let err = EngineError::from(ScriptError::Valkey(fault(ErrorKind::IoError, "x")));
    assert_eq!(class(&err), ErrorClass::Retryable);
}

#[test]
fn class_transport_with_non_script_source_terminal() {
    let err = EngineError::Transport {
        backend: "postgres",
        source: TransportSource::Other("simulated postgres net error".to_owned()),
    };
    assert_eq!(class(&err), ErrorClass::Terminal);
    assert!(valkey_kind(&err).is_none());
    assert!(transport_script_ref(&err).is_none());
}

#[test]
fn unavailable_has_no_script_source() {
    let err = EngineError::Unavailable { op: "claim" };
    assert_eq!(class(&err), ErrorClass::Terminal);
    assert!(valkey_kind(&err).is_none());
    assert!(transport_script_ref(&err).is_none());
}

#[test]
fn labels_do_not_hide_the_error() {
    let inner = transport_script(ScriptError::Valkey(fault(ErrorKind::TryAgain, "later")));
    let err = EngineError::Contextual { source: Box::new(inner), context: "claim".to_owned() };
    assert_eq!(class(&err), ErrorClass::Retryable);
    assert_eq!(valkey_kind(&err), Some(ErrorKind::TryAgain));
    assert!(is_transport(&err));
    assert_eq!(err.text(), "claim: transport (valkey): valkey: later");
}
