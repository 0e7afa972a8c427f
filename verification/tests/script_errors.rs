use flowfabric::error::{ErrorClass, ScriptError, ServerError};
use flowfabric::retry::{is_retryable_kind, kind_to_stable_str, ErrorKind};
use flowfabric::sdk_error::{
    backend_context, classify_kind, BackendError, BackendErrorKind, HttpFault, SdkError,
};

fn fault(kind: ErrorKind, text: &str) -> ServerError {
    ServerError { kind, text: text.to_owned() }
}

fn backend(kind: ErrorKind) -> BackendError {
    BackendError { kind: classify_kind(kind), message: "synthetic".to_owned() }
}

#[test]
fn error_classification_terminal() {
    assert_eq!(ScriptError::StaleLease.class(), ErrorClass::Terminal);
    assert_eq!(ScriptError::LeaseExpired.class(), ErrorClass::Terminal);
    assert_eq!(ScriptError::ExecutionNotFound.class(), ErrorClass::Terminal);
}

#[test]
fn error_classification_retryable() {
    assert_eq!(ScriptError::UseClaimResumedExecution.class(), ErrorClass::Retryable);
    assert_eq!(ScriptError::NoEligibleExecution.class(), ErrorClass::Retryable);
    assert_eq!(ScriptError::WaitpointNotFound.class(), ErrorClass::Retryable);
    assert_eq!(ScriptError::RateLimitExceeded.class(), ErrorClass::Retryable);
}

#[test]
fn error_classification_cooperative() {
    assert_eq!(ScriptError::BudgetExceeded.class(), ErrorClass::Cooperative);
}

#[test]
fn error_classification_valkey_transient_is_retryable() {
    let transient = ScriptError::Valkey(fault(ErrorKind::IoError, "connection dropped"));
    assert_eq!(transient.class(), ErrorClass::Retryable);
}

#[test]
fn error_classification_valkey_permanent_is_terminal() {
    let permanent = ScriptError::Valkey(fault(ErrorKind::AuthenticationFailed, "bad creds"));
    assert_eq!(permanent.class(), ErrorClass::Terminal);

    // The request may have been applied.
    let fatal_recv = ScriptError::Valkey(fault(ErrorKind::FatalReceiveError, "response lost"));
    assert_eq!(fatal_recv.class(), ErrorClass::Terminal);
}

#[test]
fn error_classification_informational() {
    assert_eq!(ScriptError::ExecutionNotSuspended.class(), ErrorClass::Informational);
    assert_eq!(ScriptError::DuplicateSignal.class(), ErrorClass::Informational);
    assert_eq!(ScriptError::OkAlreadyApplied.class(), ErrorClass::Informational);
}

#[test]
fn error_classification_bug() {
    assert_eq!(ScriptError::ActiveAttemptExists.class(), ErrorClass::Bug);
    assert_eq!(ScriptError::AttemptNotInCreatedState.class(), ErrorClass::Bug);
}

#[test]
fn error_classification_expected() {
    assert_eq!(ScriptError::StreamNotFound.class(), ErrorClass::Expected);
}

#[test]
fn error_classification_budget_soft_exceeded() {
    assert_eq!(ScriptError::BudgetSoftExceeded.class(), ErrorClass::Informational);
}

#[test]
fn error_classification_soft_error() {
    assert_eq!(ScriptError::InvalidFrameType.class(), ErrorClass::SoftError);
}

#[test]
fn from_code_roundtrip() {
    let codes = [
        "stale_lease", "lease_expired", "lease_revoked",
        "execution_not_active", "no_active_lease", "active_attempt_exists",
        "use_claim_resumed_execution", "not_a_resumed_execution",
        "execution_not_leaseable", "lease_conflict",
        "invalid_claim_grant", "claim_grant_expired",
        "budget_exceeded", "budget_soft_exceeded",
        "execution_not_suspended", "already_suspended",
        "waitpoint_closed", "waitpoint_not_found",
        "target_not_signalable", "waitpoint_pending_use_buffer_script",
        "invalid_lease_for_suspend", "resume_condition_not_met",
        "signal_limit_exceeded",
        "execution_not_terminal", "max_replays_exhausted",
        "stream_closed", "stale_owner_cannot_append", "retention_limit_exceeded",
        "execution_not_eligible", "execution_not_in_eligible_set",
        "grant_already_exists", "execution_not_reclaimable",
        "invalid_dependency", "stale_graph_revision",
        "execution_already_in_flow", "cycle_detected",
        "execution_not_found", "max_retries_exhausted",
        "flow_not_found", "execution_not_in_flow",
        "dependency_already_exists", "self_referencing_edge",
        "flow_already_terminal",
        "deps_not_satisfied", "not_blocked_by_deps",
        "not_runnable", "terminal", "invalid_blocking_reason",
        "waitpoint_not_pending", "pending_waitpoint_expired",
        "invalid_waitpoint_for_execution", "waitpoint_already_exists",
        "waitpoint_not_open",
    ];
    for code in codes {
        let err = ScriptError::from_code(code);
        assert!(err.is_some(), "failed to parse code: {code}");
    }
}

#[test]
fn from_code_unknown_returns_none() {
    assert!(ScriptError::from_code("nonexistent_error").is_none());
}

#[test]
fn from_code_invalid_tag_key_roundtrip() {
    let err = ScriptError::from_code_with_detail("invalid_tag_key", "BadKey").unwrap();
    match err {
        ScriptError::InvalidTagKey(k) => assert_eq!(k, "BadKey"),
        other => panic!("expected InvalidTagKey, got {other:?}"),
    }
}

#[test]
fn details_fill_their_slots() {
    let err = ScriptError::from_code_with_details(
        "execution_not_active",
        &vec!["success", "3", "terminal", "att-1"],
    )
    .unwrap();
    match err {
        ScriptError::ExecutionNotActive {
            terminal_outcome,
            lease_epoch,
            lifecycle_phase,
            attempt_id,
        } => {
            assert_eq!(terminal_outcome, "success");
            assert_eq!(lease_epoch, "3");
            assert_eq!(lifecycle_phase, "terminal");
            assert_eq!(attempt_id, "att-1");
        }
        other => panic!("{other:?}"),
    }
}

#[test]
fn retryable_kinds_whitelist() {
    assert!(is_retryable_kind(ErrorKind::IoError));
    assert!(is_retryable_kind(ErrorKind::FatalSendError));
    assert!(is_retryable_kind(ErrorKind::TryAgain));
    assert!(is_retryable_kind(ErrorKind::BusyLoadingError));
    assert!(is_retryable_kind(ErrorKind::ClusterDown));
}

#[test]
fn non_retryable_kinds() {
    assert!(!is_retryable_kind(ErrorKind::FatalReceiveError));
    assert!(!is_retryable_kind(ErrorKind::AuthenticationFailed));
    assert!(!is_retryable_kind(ErrorKind::PermissionDenied));
    assert!(!is_retryable_kind(ErrorKind::InvalidClientConfig));
    assert!(!is_retryable_kind(ErrorKind::NoScriptError));
    assert!(!is_retryable_kind(ErrorKind::Moved));
    assert!(!is_retryable_kind(ErrorKind::Ask));
    assert!(!is_retryable_kind(ErrorKind::ResponseError));
    assert!(!is_retryable_kind(ErrorKind::ParseError));
    assert!(!is_retryable_kind(ErrorKind::TypeError));
    assert!(!is_retryable_kind(ErrorKind::ReadOnly));
}

#[test]
fn stable_str_for_common_kinds() {
    assert_eq!(kind_to_stable_str(ErrorKind::IoError), "io_error");
    assert_eq!(kind_to_stable_str(ErrorKind::FatalSendError), "fatal_send");
    assert_eq!(kind_to_stable_str(ErrorKind::FatalReceiveError), "fatal_receive");
    assert_eq!(kind_to_stable_str(ErrorKind::NoScriptError), "no_script");
    assert_eq!(kind_to_stable_str(ErrorKind::AuthenticationFailed), "authentication_failed");
    assert_eq!(kind_to_stable_str(ErrorKind::ClusterDown), "cluster_down");
    assert_eq!(kind_to_stable_str(ErrorKind::Moved), "moved");
    assert_eq!(kind_to_stable_str(ErrorKind::ReadOnly), "read_only");
}

#[test]
fn stable_str_is_snake_case_and_nonempty() {
    let all = [
        ErrorKind::ResponseError,
        ErrorKind::ParseError,
        ErrorKind::AuthenticationFailed,
        ErrorKind::PermissionDenied,
        ErrorKind::TypeError,
        ErrorKind::ExecAbortError,
        ErrorKind::BusyLoadingError,
        ErrorKind::NoScriptError,
        ErrorKind::InvalidClientConfig,
        ErrorKind::Moved,
        ErrorKind::Ask,
        ErrorKind::TryAgain,
        ErrorKind::ClusterDown,
        ErrorKind::CrossSlot,
        ErrorKind::MasterDown,
        ErrorKind::IoError,
        ErrorKind::FatalSendError,
        ErrorKind::FatalReceiveError,
        ErrorKind::ClientError,
        ErrorKind::ExtensionError,
        ErrorKind::ReadOnly,
    ];
    for k in all {
        let s = kind_to_stable_str(k);
        assert!(!s.is_empty(), "empty stable str for {k:?}");
        assert!(
            s.chars().all(|c| c.is_ascii_lowercase() || c == '_'),
            "non snake_case stable str '{s}' for {k:?}"
        );
    }
}

#[test]
fn backend_kind_direct_and_context() {
    assert_eq!(
        SdkError::from(backend(ErrorKind::IoError)).backend_kind(),
        Some(BackendErrorKind::Transport)
    );
    assert_eq!(
        backend_context(backend(ErrorKind::BusyLoadingError), "connect".to_owned()).backend_kind(),
        Some(BackendErrorKind::BusyLoading)
    );
}

#[test]
fn backend_kind_delegates_through_engine_transport() {
    let err = SdkError::from(ScriptError::Valkey(fault(ErrorKind::ClusterDown, "synthetic")));
    assert_eq!(err.backend_kind(), Some(BackendErrorKind::Cluster));
}

#[test]
fn backend_kind_none_for_lua_and_config() {
    assert_eq!(SdkError::from(ScriptError::LeaseExpired).backend_kind(), None);
    assert_eq!(
        SdkError::Config {
            context: "worker_config".into(),
            field: Some("bearer_token".into()),
            message: "bad host".into(),
        }
        .backend_kind(),
        None
    );
}

#[test]
fn is_retryable_transport() {
    assert!(SdkError::from(backend(ErrorKind::IoError)).is_retryable());
    assert!(!SdkError::from(backend(ErrorKind::AuthenticationFailed)).is_retryable());
    assert!(!SdkError::from(backend(ErrorKind::ResponseError)).is_retryable());
    assert!(SdkError::from(backend(ErrorKind::ProtocolDesync)).is_retryable());
    assert!(!SdkError::from(backend(ErrorKind::TypeError)).is_retryable());
    assert!(!SdkError::from(backend(ErrorKind::InvalidClientConfig)).is_retryable());
}

#[test]
fn is_retryable_engine_delegates_to_class() {
    assert!(SdkError::from(ScriptError::NoEligibleExecution).is_retryable());
    assert!(!SdkError::from(ScriptError::StaleLease).is_retryable());
    assert!(
        SdkError::from(ScriptError::Valkey(fault(ErrorKind::IoError, "synthetic"))).is_retryable()
    );
}

#[test]
fn config_structured_fields_render_and_match() {
    let with_field = SdkError::Config {
        context: "admin_client".into(),
        field: Some("bearer_token".into()),
        message: "is empty or all-whitespace".into(),
    };
    assert_eq!(
        with_field.text(),
        "config: admin_client.bearer_token: is empty or all-whitespace"
    );
    assert!(matches!(
        &with_field,
        SdkError::Config { field: Some(f), .. } if f == "bearer_token"
    ));

    let whole_object = SdkError::Config {
        context: "worker_config".into(),
        field: None,
        message: "at least one lane is required".into(),
    };
    assert_eq!(whole_object.text(), "config: worker_config: at least one lane is required");
    assert!(matches!(&whole_object, SdkError::Config { field: None, .. }));
}

#[test]
fn is_retryable_config_false() {
    let err: SdkError = SdkError::Config {
        context: "worker_config".into(),
        field: None,
        message: "at least one lane is required".into(),
    };
    assert!(!err.is_retryable());
}

#[test]
fn is_retryable_admin_api_uses_server_hint_when_present() {
    let err: SdkError = SdkError::AdminApi {
        status: 429,
        message: "throttled".into(),
        kind: None,
        retryable: Some(false),
        raw_body: String::new(),
    };
    assert!(!err.is_retryable());

    let err: SdkError = SdkError::AdminApi {
        status: 500,
        message: "valkey timeout".into(),
        kind: Some("IoError".into()),
        retryable: Some(true),
        raw_body: String::new(),
    };
    assert!(err.is_retryable());
}

#[test]
fn is_retryable_admin_api_falls_back_to_standard_retryable_statuses() {
    for s in [429u16, 502, 503, 504] {
        let err: SdkError = SdkError::AdminApi {
            status: s,
            message: "x".into(),
            kind: None,
            retryable: None,
            raw_body: String::new(),
        };
        assert!(err.is_retryable(), "status {s} should be retryable");
    }
    for s in [400u16, 401, 403, 404, 500] {
        let err: SdkError = SdkError::AdminApi {
            status: s,
            message: "x".into(),
            kind: None,
            retryable: None,
            raw_body: String::new(),
        };
        assert!(!err.is_retryable(), "status {s} should NOT be retryable without hint");
    }
}

#[test]
fn valkey_kind_none_for_admin_surface() {
    let err: SdkError = SdkError::AdminApi {
        status: 500,
        message: "x".into(),
        kind: Some("IoError".into()),
        retryable: Some(true),
        raw_body: String::new(),
    };
    assert_eq!(err.backend_kind(), None);
}

#[test]
fn http_faults_are_retryable_only_on_the_way() {
    let http = |timed_out: bool, not_connected: bool| SdkError::Http {
        source: HttpFault { timed_out, not_connected, text: "x".to_owned() },
        context: "POST".to_owned(),
    };
    assert!(http(true, false).is_retryable());
    assert!(http(false, true).is_retryable());
    assert!(!http(false, false).is_retryable());
    let full: SdkError = SdkError::WorkerAtCapacity;
    assert!(full.is_retryable());
}

#[test]
fn texts_begin_with_their_codes() {
    let head = |e: &ScriptError| e.text().split(':').next().unwrap().to_owned();
    for (e, code) in [
        (ScriptError::StaleLease, "stale_lease"),
        (ScriptError::CapabilityMismatch("gpu".to_owned()), "capability_mismatch"),
        (ScriptError::WaitpointNotTokenBound, "waitpoint_not_token_bound"),
        (ScriptError::RotationConflict("a:b".to_owned()), "rotation_conflict"),
    ] {
        assert_eq!(head(&e), code);
        let read = ScriptError::from_code(code).unwrap();
        assert_eq!(head(&read), code);
    }
    assert!(matches!(
        ScriptError::from_code("capability_mismatch"),
        Some(ScriptError::CapabilityMismatch(d)) if d.is_empty()
    ));
    for code in ["nonexistent_error", "", "stale_lease:", "valkey", "parse error"] {
        assert!(ScriptError::from_code(code).is_none());
    }
}

#[test]
fn client_faults_fall_into_families() {
    for (kind, family) in [
        (ErrorKind::FatalSendError, BackendErrorKind::Transport),
        (ErrorKind::FatalReceiveError, BackendErrorKind::Transport),
        (ErrorKind::ProtocolDesync, BackendErrorKind::Transport),
        (ErrorKind::ResponseError, BackendErrorKind::Protocol),
        (ErrorKind::ParseError, BackendErrorKind::Protocol),
        (ErrorKind::TypeError, BackendErrorKind::Protocol),
        (ErrorKind::InvalidClientConfig, BackendErrorKind::Protocol),
        (ErrorKind::PermissionDenied, BackendErrorKind::Auth),
        (ErrorKind::CrossSlot, BackendErrorKind::Cluster),
        (ErrorKind::NoScriptError, BackendErrorKind::ScriptNotLoaded),
        (ErrorKind::ReadOnly, BackendErrorKind::Other),
        (ErrorKind::Unknown, BackendErrorKind::Other),
    ] {
        assert_eq!(classify_kind(kind), family);
        assert_eq!(SdkError::from(backend(kind)).backend_kind(), Some(family));
    }
}

#[test]
fn an_unknown_kind_has_no_name() {
    assert_eq!(kind_to_stable_str(ErrorKind::Unknown), "unknown");
    assert!(!is_retryable_kind(ErrorKind::Unknown));
}
