//! Errors of the engine's server functions.
//!
//! A server function answers a refused call with an error code and up to four
//! detail slots. [`ScriptError`] is the typed form of such an answer, of a
//! transport fault, and of a reply that cannot be read.
//!
//! The error types are generic in the type of their texts: a program holds
//! [`String`]s, a specification speaks of sequences of characters.

use vstd::prelude::*;
use vstd::string::*;

use crate::retry;
use crate::retry::ErrorKind;
use crate::text;

verus! {

/// How a caller should handle an error.
#[derive(Clone, Copy, Debug, PartialEq, Eq, Structural)]
pub enum ErrorClass {
    /// Stop work. Do not retry.
    Terminal,
    /// Retry after a backoff.
    Retryable,
    /// Take a specific action, and stop.
    Cooperative,
    /// Nothing to do: log and continue.
    Informational,
    /// Log a warning only.
    Advisory,
    /// Should never happen.
    Bug,
    /// A normal empty state.
    Expected,
    /// Log a warning, and perhaps continue.
    SoftError,
}

/// A fault reported by the Valkey client: its kind, and its rendering.
#[derive(Debug)]
pub struct ServerError<S = String> {
    pub kind: ErrorKind,
    pub text: S,
}

impl View for ServerError {
    type V = ServerError<Seq<char>>;

    open spec fn view(&self) -> ServerError<Seq<char>> {
        ServerError { kind: self.kind, text: self.text@ }
    }
}

/// An error of a server function call.
#[derive(Debug)]
pub enum ScriptError<S = String> {
    /// Stop. Lease superseded by reclaim.
    StaleLease,
    /// Stop. Lease TTL elapsed.
    LeaseExpired,
    /// Stop. Operator revoked.
    LeaseRevoked,
    /// Stop. Check enriched return: epoch match + success = your completion won.
    ExecutionNotActive { terminal_outcome: S, lease_epoch: S, lifecycle_phase: S, attempt_id: S },
    /// Revoke target has no active lease (already revoked/expired/unowned).
    NoActiveLease,
    /// Bug. Active attempt already exists.
    ActiveAttemptExists,
    /// Re-dispatch to claim_resumed_execution.
    UseClaimResumedExecution,
    /// Re-dispatch to claim_execution.
    NotAResumedExecution,
    /// State changed since grant. Request new grant.
    ExecutionNotLeaseable,
    /// Another worker holds lease. Request different execution.
    LeaseConflict,
    /// Grant missing/mismatched. Request new grant.
    InvalidClaimGrant,
    /// Grant TTL elapsed. Request new grant.
    ClaimGrantExpired,
    /// Backoff 100ms-1s, retry.
    NoEligibleExecution,
    /// Immediate stop. Call fail_execution(budget_exceeded).
    BudgetExceeded,
    /// Log warning. Continue.
    BudgetSoftExceeded,
    /// Already resumed/cancelled. No-op.
    ExecutionNotSuspended,
    /// Open suspension exists. No-op.
    AlreadySuspended,
    /// Signal too late. Return to caller.
    WaitpointClosed,
    /// Waitpoint may not exist yet. Retry with backoff.
    WaitpointNotFound,
    /// Execution not suspended, no pending waitpoint.
    TargetNotSignalable,
    /// Route to buffer_signal_for_pending_waitpoint.
    WaitpointPendingUseBufferScript,
    /// Dedup. Return existing signal_id.
    DuplicateSignal,
    /// Payload > 64KB.
    PayloadTooLarge,
    /// Max signals reached.
    SignalLimitExceeded,
    /// MAC failed. Token invalid or expired.
    InvalidWaitpointKey,
    /// Invalid lease for suspend.
    InvalidLeaseForSuspend,
    /// Conditions not satisfied.
    ResumeConditionNotMet,
    /// Waitpoint not in pending state.
    WaitpointNotPending,
    /// Pending waitpoint expired before suspension committed.
    PendingWaitpointExpired,
    /// Waitpoint/execution binding mismatch.
    InvalidWaitpointForExecution,
    /// Waitpoint already exists (pending or active).
    WaitpointAlreadyExists,
    /// Waitpoint not in an open state.
    WaitpointNotOpen,
    /// Cannot replay non-terminal.
    ExecutionNotTerminal,
    /// Replay limit reached.
    MaxReplaysExhausted,
    /// Attempt terminal. No appends.
    StreamClosed,
    /// Lease mismatch on stream append.
    StaleOwnerCannotAppend,
    /// Frame > 64KB.
    RetentionLimitExceeded,
    /// State changed. Scheduler skips.
    ExecutionNotEligible,
    /// Another scheduler got it. Skip.
    ExecutionNotInEligibleSet,
    /// Grant already issued. Skip.
    GrantAlreadyExists,
    /// Already reclaimed/cancelled. Skip.
    ExecutionNotReclaimable,
    /// Edge doesn't exist.
    InvalidDependency,
    /// Re-read adjacency, retry.
    StaleGraphRevision,
    /// Already in another flow.
    ExecutionAlreadyInFlow,
    /// Edge would create cycle.
    CycleDetected,
    /// Flow does not exist.
    FlowNotFound,
    /// Execution is not a member of the specified flow.
    ExecutionNotInFlow,
    /// Dependency edge already exists.
    DependencyAlreadyExists,
    /// Self-referencing edge (upstream == downstream).
    SelfReferencingEdge,
    /// Flow is already in a terminal state (cancelled/completed/failed).
    FlowAlreadyTerminal,
    /// Dependencies not yet satisfied (for promote_blocked_to_eligible).
    DepsNotSatisfied,
    /// Not blocked by dependencies (for promote/unblock).
    NotBlockedByDeps,
    /// Execution not runnable (for block/unblock/promote).
    NotRunnable,
    /// Execution is terminal (for block/promote).
    Terminal,
    /// Invalid blocking reason for block_execution_for_admission.
    InvalidBlockingReason,
    /// Usage seq already processed. No-op.
    OkAlreadyApplied,
    /// Attempt index doesn't exist.
    AttemptNotFound,
    /// Attempt not created. Internal sequencing error.
    AttemptNotInCreatedState,
    /// Attempt not running.
    AttemptNotStarted,
    /// Already ended. No-op.
    AttemptAlreadyTerminal,
    /// Execution doesn't exist.
    ExecutionNotFound,
    /// Wrong state for new attempt.
    ExecutionNotEligibleForAttempt,
    /// Not terminal or limit reached.
    ReplayNotAllowed,
    /// Retry limit reached.
    MaxRetriesExhausted,
    /// No frames appended yet. Normal for new attempts.
    StreamNotFound,
    /// Already closed. No-op.
    StreamAlreadyClosed,
    /// Unrecognized frame type.
    InvalidFrameType,
    /// Invalid Stream ID.
    InvalidOffset,
    /// Auth failed.
    Unauthorized,
    /// Budget doesn't exist.
    BudgetNotFound,
    /// Malformed scope.
    InvalidBudgetScope,
    /// Budget already attached or conflicts.
    BudgetAttachConflict,
    /// No operator privileges.
    BudgetOverrideNotAllowed,
    /// Quota doesn't exist.
    QuotaPolicyNotFound,
    /// Window full. Backoff retry_after_ms.
    RateLimitExceeded,
    /// Concurrency cap hit.
    ConcurrencyLimitExceeded,
    /// Quota already attached.
    QuotaAttachConflict,
    /// Malformed quota definition.
    InvalidQuotaSpec,
    /// Caller supplied a non-numeric value where a number is required.
    InvalidInput(S),
    /// Worker caps do not satisfy execution's required_capabilities.
    /// Payload is the sorted-CSV of missing tokens. RETRYABLE: execution
    /// stays in the eligible ZSET for a worker with matching caps.
    CapabilityMismatch(S),
    /// Caller supplied a malformed or oversized capability list (defense
    /// against 1MB-repeated-token payloads). TERMINAL from this call's
    /// perspective: the caller must fix its config before retrying.
    InvalidCapabilities(S),
    /// `ff_create_execution` received a `policy_json` that is not valid JSON
    /// or whose `routing_requirements` is structurally wrong (not an object,
    /// required_capabilities not an array). TERMINAL: the submitter must
    /// send a well-formed policy. Kept distinct from `invalid_capabilities`
    /// so tooling can distinguish "payload never parsed" from "payload
    /// parsed but contents rejected".
    InvalidPolicyJson(S),
    /// Pending waitpoint record is missing its HMAC token field. Returned by
    /// `ff_suspend_execution` when activating a pending waitpoint whose
    /// `waitpoint_token` field is absent or empty (pre-HMAC-upgrade record
    /// or a corrupted write). Surfacing this at activation time instead of
    /// letting every subsequent signal delivery silently reject with
    /// `missing_token` makes the degraded state visible at the right step.
    /// TERMINAL: the pending waitpoint is unrecoverable without a fresh one.
    WaitpointNotTokenBound,
    /// A tag key outside the reserved `<namespace>.<field>` form. Carries the key.
    InvalidTagKey(S),
    /// A malformed key identifier for a waitpoint secret.
    InvalidKid,
    /// A waitpoint secret that is not even-length hexadecimal.
    InvalidSecretHex,
    /// A malformed grace period.
    InvalidGraceMs,
    /// The key identifier is already installed with another secret. Carries it.
    RotationConflict(S),
    /// Valkey connection or protocol error. Preserves the kind so
    /// callers can distinguish transient/permanent/NOSCRIPT/MOVED/etc.
    Valkey(ServerError<S>),
    /// Failed to parse FCALL return value.
    Parse { fcall: S, execution_id: Option<S>, message: S },
}

/// The model of a [`ScriptError`].
pub type ScriptErrorView = ScriptError<Seq<char>>;

impl View for ScriptError {
    type V = ScriptError<Seq<char>>;

    open spec fn view(&self) -> ScriptError<Seq<char>> {
        match *self {
            ScriptError::StaleLease => ScriptError::StaleLease,
            ScriptError::LeaseExpired => ScriptError::LeaseExpired,
            ScriptError::LeaseRevoked => ScriptError::LeaseRevoked,
            ScriptError::ExecutionNotActive {
                terminal_outcome,
                lease_epoch,
                lifecycle_phase,
                attempt_id,
            } => ScriptError::ExecutionNotActive {
                terminal_outcome: terminal_outcome@,
                lease_epoch: lease_epoch@,
                lifecycle_phase: lifecycle_phase@,
                attempt_id: attempt_id@,
            },
            ScriptError::NoActiveLease => ScriptError::NoActiveLease,
            ScriptError::ActiveAttemptExists => ScriptError::ActiveAttemptExists,
            ScriptError::UseClaimResumedExecution => ScriptError::UseClaimResumedExecution,
            ScriptError::NotAResumedExecution => ScriptError::NotAResumedExecution,
            ScriptError::ExecutionNotLeaseable => ScriptError::ExecutionNotLeaseable,
            ScriptError::LeaseConflict => ScriptError::LeaseConflict,
            ScriptError::InvalidClaimGrant => ScriptError::InvalidClaimGrant,
            ScriptError::ClaimGrantExpired => ScriptError::ClaimGrantExpired,
            ScriptError::NoEligibleExecution => ScriptError::NoEligibleExecution,
            ScriptError::BudgetExceeded => ScriptError::BudgetExceeded,
            ScriptError::BudgetSoftExceeded => ScriptError::BudgetSoftExceeded,
            ScriptError::ExecutionNotSuspended => ScriptError::ExecutionNotSuspended,
            ScriptError::AlreadySuspended => ScriptError::AlreadySuspended,
            ScriptError::WaitpointClosed => ScriptError::WaitpointClosed,
            ScriptError::WaitpointNotFound => ScriptError::WaitpointNotFound,
            ScriptError::TargetNotSignalable => ScriptError::TargetNotSignalable,
            ScriptError::WaitpointPendingUseBufferScript => ScriptError::WaitpointPendingUseBufferScript,
            ScriptError::DuplicateSignal => ScriptError::DuplicateSignal,
            ScriptError::PayloadTooLarge => ScriptError::PayloadTooLarge,
            ScriptError::SignalLimitExceeded => ScriptError::SignalLimitExceeded,
            ScriptError::InvalidWaitpointKey => ScriptError::InvalidWaitpointKey,
            ScriptError::InvalidLeaseForSuspend => ScriptError::InvalidLeaseForSuspend,
            ScriptError::ResumeConditionNotMet => ScriptError::ResumeConditionNotMet,
            ScriptError::WaitpointNotPending => ScriptError::WaitpointNotPending,
            ScriptError::PendingWaitpointExpired => ScriptError::PendingWaitpointExpired,
            ScriptError::InvalidWaitpointForExecution => ScriptError::InvalidWaitpointForExecution,
            ScriptError::WaitpointAlreadyExists => ScriptError::WaitpointAlreadyExists,
            ScriptError::WaitpointNotOpen => ScriptError::WaitpointNotOpen,
            ScriptError::ExecutionNotTerminal => ScriptError::ExecutionNotTerminal,
            ScriptError::MaxReplaysExhausted => ScriptError::MaxReplaysExhausted,
            ScriptError::StreamClosed => ScriptError::StreamClosed,
            ScriptError::StaleOwnerCannotAppend => ScriptError::StaleOwnerCannotAppend,
            ScriptError::RetentionLimitExceeded => ScriptError::RetentionLimitExceeded,
            ScriptError::ExecutionNotEligible => ScriptError::ExecutionNotEligible,
            ScriptError::ExecutionNotInEligibleSet => ScriptError::ExecutionNotInEligibleSet,
            ScriptError::GrantAlreadyExists => ScriptError::GrantAlreadyExists,
            ScriptError::ExecutionNotReclaimable => ScriptError::ExecutionNotReclaimable,
            ScriptError::InvalidDependency => ScriptError::InvalidDependency,
            ScriptError::StaleGraphRevision => ScriptError::StaleGraphRevision,
            ScriptError::ExecutionAlreadyInFlow => ScriptError::ExecutionAlreadyInFlow,
            ScriptError::CycleDetected => ScriptError::CycleDetected,
            ScriptError::FlowNotFound => ScriptError::FlowNotFound,
            ScriptError::ExecutionNotInFlow => ScriptError::ExecutionNotInFlow,
            ScriptError::DependencyAlreadyExists => ScriptError::DependencyAlreadyExists,
            ScriptError::SelfReferencingEdge => ScriptError::SelfReferencingEdge,
            ScriptError::FlowAlreadyTerminal => ScriptError::FlowAlreadyTerminal,
            ScriptError::DepsNotSatisfied => ScriptError::DepsNotSatisfied,
            ScriptError::NotBlockedByDeps => ScriptError::NotBlockedByDeps,
            ScriptError::NotRunnable => ScriptError::NotRunnable,
            ScriptError::Terminal => ScriptError::Terminal,
            ScriptError::InvalidBlockingReason => ScriptError::InvalidBlockingReason,
            ScriptError::OkAlreadyApplied => ScriptError::OkAlreadyApplied,
            ScriptError::AttemptNotFound => ScriptError::AttemptNotFound,
            ScriptError::AttemptNotInCreatedState => ScriptError::AttemptNotInCreatedState,
            ScriptError::AttemptNotStarted => ScriptError::AttemptNotStarted,
            ScriptError::AttemptAlreadyTerminal => ScriptError::AttemptAlreadyTerminal,
            ScriptError::ExecutionNotFound => ScriptError::ExecutionNotFound,
            ScriptError::ExecutionNotEligibleForAttempt => ScriptError::ExecutionNotEligibleForAttempt,
            ScriptError::ReplayNotAllowed => ScriptError::ReplayNotAllowed,
            ScriptError::MaxRetriesExhausted => ScriptError::MaxRetriesExhausted,
            ScriptError::StreamNotFound => ScriptError::StreamNotFound,
            ScriptError::StreamAlreadyClosed => ScriptError::StreamAlreadyClosed,
            ScriptError::InvalidFrameType => ScriptError::InvalidFrameType,
            ScriptError::InvalidOffset => ScriptError::InvalidOffset,
            ScriptError::Unauthorized => ScriptError::Unauthorized,
            ScriptError::BudgetNotFound => ScriptError::BudgetNotFound,
            ScriptError::InvalidBudgetScope => ScriptError::InvalidBudgetScope,
            ScriptError::BudgetAttachConflict => ScriptError::BudgetAttachConflict,
            ScriptError::BudgetOverrideNotAllowed => ScriptError::BudgetOverrideNotAllowed,
            ScriptError::QuotaPolicyNotFound => ScriptError::QuotaPolicyNotFound,
            ScriptError::RateLimitExceeded => ScriptError::RateLimitExceeded,
            ScriptError::ConcurrencyLimitExceeded => ScriptError::ConcurrencyLimitExceeded,
            ScriptError::QuotaAttachConflict => ScriptError::QuotaAttachConflict,
            ScriptError::InvalidQuotaSpec => ScriptError::InvalidQuotaSpec,
            ScriptError::InvalidInput(d) => ScriptError::InvalidInput(d@),
            ScriptError::CapabilityMismatch(d) => ScriptError::CapabilityMismatch(d@),
            ScriptError::InvalidCapabilities(d) => ScriptError::InvalidCapabilities(d@),
            ScriptError::InvalidPolicyJson(d) => ScriptError::InvalidPolicyJson(d@),
            ScriptError::WaitpointNotTokenBound => ScriptError::WaitpointNotTokenBound,
            ScriptError::InvalidTagKey(d) => ScriptError::InvalidTagKey(d@),
            ScriptError::InvalidKid => ScriptError::InvalidKid,
            ScriptError::InvalidSecretHex => ScriptError::InvalidSecretHex,
            ScriptError::InvalidGraceMs => ScriptError::InvalidGraceMs,
            ScriptError::RotationConflict(d) => ScriptError::RotationConflict(d@),
            ScriptError::Valkey(d) => ScriptError::Valkey(d@),
            ScriptError::Parse { fcall, execution_id, message } => ScriptError::Parse {
                fcall: fcall@,
                execution_id: text::opt_text(execution_id),
                message: message@,
            },
        }
    }
}

impl<S> ScriptError<S> {
    /// The wire code of a variant. Transport faults and unreadable replies have
    /// none: no server function reports them.
    pub open spec fn code_spec(self) -> Option<&'static str> {
        match self {
            ScriptError::StaleLease => Some("stale_lease"),
            ScriptError::LeaseExpired => Some("lease_expired"),
            ScriptError::LeaseRevoked => Some("lease_revoked"),
            ScriptError::ExecutionNotActive { .. } => Some("execution_not_active"),
            ScriptError::NoActiveLease => Some("no_active_lease"),
            ScriptError::ActiveAttemptExists => Some("active_attempt_exists"),
            ScriptError::UseClaimResumedExecution => Some("use_claim_resumed_execution"),
            ScriptError::NotAResumedExecution => Some("not_a_resumed_execution"),
            ScriptError::ExecutionNotLeaseable => Some("execution_not_leaseable"),
            ScriptError::LeaseConflict => Some("lease_conflict"),
            ScriptError::InvalidClaimGrant => Some("invalid_claim_grant"),
            ScriptError::ClaimGrantExpired => Some("claim_grant_expired"),
            ScriptError::NoEligibleExecution => Some("no_eligible_execution"),
            ScriptError::BudgetExceeded => Some("budget_exceeded"),
            ScriptError::BudgetSoftExceeded => Some("budget_soft_exceeded"),
            ScriptError::ExecutionNotSuspended => Some("execution_not_suspended"),
            ScriptError::AlreadySuspended => Some("already_suspended"),
            ScriptError::WaitpointClosed => Some("waitpoint_closed"),
            ScriptError::WaitpointNotFound => Some("waitpoint_not_found"),
            ScriptError::TargetNotSignalable => Some("target_not_signalable"),
            ScriptError::WaitpointPendingUseBufferScript => Some("waitpoint_pending_use_buffer_script"),
            ScriptError::DuplicateSignal => Some("duplicate_signal"),
            ScriptError::PayloadTooLarge => Some("payload_too_large"),
            ScriptError::SignalLimitExceeded => Some("signal_limit_exceeded"),
            ScriptError::InvalidWaitpointKey => Some("invalid_waitpoint_key"),
            ScriptError::InvalidLeaseForSuspend => Some("invalid_lease_for_suspend"),
            ScriptError::ResumeConditionNotMet => Some("resume_condition_not_met"),
            ScriptError::WaitpointNotPending => Some("waitpoint_not_pending"),
            ScriptError::PendingWaitpointExpired => Some("pending_waitpoint_expired"),
            ScriptError::InvalidWaitpointForExecution => Some("invalid_waitpoint_for_execution"),
            ScriptError::WaitpointAlreadyExists => Some("waitpoint_already_exists"),
            ScriptError::WaitpointNotOpen => Some("waitpoint_not_open"),
            ScriptError::ExecutionNotTerminal => Some("execution_not_terminal"),
            ScriptError::MaxReplaysExhausted => Some("max_replays_exhausted"),
            ScriptError::StreamClosed => Some("stream_closed"),
            ScriptError::StaleOwnerCannotAppend => Some("stale_owner_cannot_append"),
            ScriptError::RetentionLimitExceeded => Some("retention_limit_exceeded"),
            ScriptError::ExecutionNotEligible => Some("execution_not_eligible"),
            ScriptError::ExecutionNotInEligibleSet => Some("execution_not_in_eligible_set"),
            ScriptError::GrantAlreadyExists => Some("grant_already_exists"),
            ScriptError::ExecutionNotReclaimable => Some("execution_not_reclaimable"),
            ScriptError::InvalidDependency => Some("invalid_dependency"),
            ScriptError::StaleGraphRevision => Some("stale_graph_revision"),
            ScriptError::ExecutionAlreadyInFlow => Some("execution_already_in_flow"),
            ScriptError::CycleDetected => Some("cycle_detected"),
            ScriptError::FlowNotFound => Some("flow_not_found"),
            ScriptError::ExecutionNotInFlow => Some("execution_not_in_flow"),
            ScriptError::DependencyAlreadyExists => Some("dependency_already_exists"),
            ScriptError::SelfReferencingEdge => Some("self_referencing_edge"),
            ScriptError::FlowAlreadyTerminal => Some("flow_already_terminal"),
            ScriptError::DepsNotSatisfied => Some("deps_not_satisfied"),
            ScriptError::NotBlockedByDeps => Some("not_blocked_by_deps"),
            ScriptError::NotRunnable => Some("not_runnable"),
            ScriptError::Terminal => Some("terminal"),
            ScriptError::InvalidBlockingReason => Some("invalid_blocking_reason"),
            ScriptError::OkAlreadyApplied => Some("ok_already_applied"),
            ScriptError::AttemptNotFound => Some("attempt_not_found"),
            ScriptError::AttemptNotInCreatedState => Some("attempt_not_in_created_state"),
            ScriptError::AttemptNotStarted => Some("attempt_not_started"),
            ScriptError::AttemptAlreadyTerminal => Some("attempt_already_terminal"),
            ScriptError::ExecutionNotFound => Some("execution_not_found"),
            ScriptError::ExecutionNotEligibleForAttempt => Some("execution_not_eligible_for_attempt"),
            ScriptError::ReplayNotAllowed => Some("replay_not_allowed"),
            ScriptError::MaxRetriesExhausted => Some("max_retries_exhausted"),
            ScriptError::StreamNotFound => Some("stream_not_found"),
            ScriptError::StreamAlreadyClosed => Some("stream_already_closed"),
            ScriptError::InvalidFrameType => Some("invalid_frame_type"),
            ScriptError::InvalidOffset => Some("invalid_offset"),
            ScriptError::Unauthorized => Some("unauthorized"),
            ScriptError::BudgetNotFound => Some("budget_not_found"),
            ScriptError::InvalidBudgetScope => Some("invalid_budget_scope"),
            ScriptError::BudgetAttachConflict => Some("budget_attach_conflict"),
            ScriptError::BudgetOverrideNotAllowed => Some("budget_override_not_allowed"),
            ScriptError::QuotaPolicyNotFound => Some("quota_policy_not_found"),
            ScriptError::RateLimitExceeded => Some("rate_limit_exceeded"),
            ScriptError::ConcurrencyLimitExceeded => Some("concurrency_limit_exceeded"),
            ScriptError::QuotaAttachConflict => Some("quota_attach_conflict"),
            ScriptError::InvalidQuotaSpec => Some("invalid_quota_spec"),
            ScriptError::InvalidInput(_) => Some("invalid_input"),
            ScriptError::CapabilityMismatch(_) => Some("capability_mismatch"),
            ScriptError::InvalidCapabilities(_) => Some("invalid_capabilities"),
            ScriptError::InvalidPolicyJson(_) => Some("invalid_policy_json"),
            ScriptError::WaitpointNotTokenBound => Some("waitpoint_not_token_bound"),
            ScriptError::InvalidTagKey(_) => Some("invalid_tag_key"),
            ScriptError::InvalidKid => Some("invalid_kid"),
            ScriptError::InvalidSecretHex => Some("invalid_secret_hex"),
            ScriptError::InvalidGraceMs => Some("invalid_grace_ms"),
            ScriptError::RotationConflict(_) => Some("rotation_conflict"),
            ScriptError::Valkey(_) => None,
            ScriptError::Parse { .. } => None,
        }
    }

    /// The class of an error.
    pub open spec fn class_spec(self) -> ErrorClass {
        match self {
            ScriptError::Valkey(e) => if retry::retryable_kind(e.kind) {
                ErrorClass::Retryable
            } else {
                ErrorClass::Terminal
            },
            ScriptError::UseClaimResumedExecution
            | ScriptError::NotAResumedExecution
            | ScriptError::ExecutionNotLeaseable
            | ScriptError::LeaseConflict
            | ScriptError::InvalidClaimGrant
            | ScriptError::ClaimGrantExpired
            | ScriptError::NoEligibleExecution
            | ScriptError::WaitpointNotFound
            | ScriptError::WaitpointPendingUseBufferScript
            | ScriptError::StaleGraphRevision
            | ScriptError::InvalidOffset
            | ScriptError::RateLimitExceeded
            | ScriptError::ConcurrencyLimitExceeded
            | ScriptError::CapabilityMismatch(_) => ErrorClass::Retryable,
            ScriptError::BudgetExceeded => ErrorClass::Cooperative,
            ScriptError::NoActiveLease
            | ScriptError::BudgetSoftExceeded
            | ScriptError::ExecutionNotSuspended
            | ScriptError::AlreadySuspended
            | ScriptError::WaitpointClosed
            | ScriptError::DuplicateSignal
            | ScriptError::WaitpointNotPending
            | ScriptError::PendingWaitpointExpired
            | ScriptError::WaitpointAlreadyExists
            | ScriptError::WaitpointNotOpen
            | ScriptError::ExecutionNotEligible
            | ScriptError::ExecutionNotInEligibleSet
            | ScriptError::GrantAlreadyExists
            | ScriptError::ExecutionNotReclaimable
            | ScriptError::DepsNotSatisfied
            | ScriptError::NotBlockedByDeps
            | ScriptError::OkAlreadyApplied
            | ScriptError::AttemptAlreadyTerminal
            | ScriptError::StreamAlreadyClosed => ErrorClass::Informational,
            ScriptError::ActiveAttemptExists
            | ScriptError::AttemptNotInCreatedState => ErrorClass::Bug,
            ScriptError::StreamNotFound => ErrorClass::Expected,
            ScriptError::InvalidFrameType => ErrorClass::SoftError,
            _ => ErrorClass::Terminal,
        }
    }
}

/// The error that a wire code denotes, its details empty.
pub open spec fn error_of_code(code: Seq<char>) -> Option<ScriptError<Seq<char>>> {
    if code == "stale_lease"@ {
        Some(ScriptError::StaleLease)
    } else if code == "lease_expired"@ {
        Some(ScriptError::LeaseExpired)
    } else if code == "lease_revoked"@ {
        Some(ScriptError::LeaseRevoked)
    } else if code == "execution_not_active"@ {
        Some(ScriptError::ExecutionNotActive { terminal_outcome: Seq::empty(), lease_epoch: Seq::empty(), lifecycle_phase: Seq::empty(), attempt_id: Seq::empty() })
    } else if code == "no_active_lease"@ {
        Some(ScriptError::NoActiveLease)
    } else if code == "active_attempt_exists"@ {
        Some(ScriptError::ActiveAttemptExists)
    } else if code == "use_claim_resumed_execution"@ {
        Some(ScriptError::UseClaimResumedExecution)
    } else if code == "not_a_resumed_execution"@ {
        Some(ScriptError::NotAResumedExecution)
    } else if code == "execution_not_leaseable"@ {
        Some(ScriptError::ExecutionNotLeaseable)
    } else if code == "lease_conflict"@ {
        Some(ScriptError::LeaseConflict)
    } else if code == "invalid_claim_grant"@ {
        Some(ScriptError::InvalidClaimGrant)
    } else if code == "claim_grant_expired"@ {
        Some(ScriptError::ClaimGrantExpired)
    } else if code == "no_eligible_execution"@ {
        Some(ScriptError::NoEligibleExecution)
    } else if code == "budget_exceeded"@ {
        Some(ScriptError::BudgetExceeded)
    } else if code == "budget_soft_exceeded"@ {
        Some(ScriptError::BudgetSoftExceeded)
    } else if code == "execution_not_suspended"@ {
        Some(ScriptError::ExecutionNotSuspended)
    } else if code == "already_suspended"@ {
        Some(ScriptError::AlreadySuspended)
    } else if code == "waitpoint_closed"@ {
        Some(ScriptError::WaitpointClosed)
    } else if code == "waitpoint_not_found"@ {
        Some(ScriptError::WaitpointNotFound)
    } else if code == "target_not_signalable"@ {
        Some(ScriptError::TargetNotSignalable)
    } else if code == "waitpoint_pending_use_buffer_script"@ {
        Some(ScriptError::WaitpointPendingUseBufferScript)
    } else if code == "duplicate_signal"@ {
        Some(ScriptError::DuplicateSignal)
    } else if code == "payload_too_large"@ {
        Some(ScriptError::PayloadTooLarge)
    } else if code == "signal_limit_exceeded"@ {
        Some(ScriptError::SignalLimitExceeded)
    } else if code == "invalid_waitpoint_key"@ {
        Some(ScriptError::InvalidWaitpointKey)
    } else if code == "invalid_lease_for_suspend"@ {
        Some(ScriptError::InvalidLeaseForSuspend)
    } else if code == "resume_condition_not_met"@ {
        Some(ScriptError::ResumeConditionNotMet)
    } else if code == "waitpoint_not_pending"@ {
        Some(ScriptError::WaitpointNotPending)
    } else if code == "pending_waitpoint_expired"@ {
        Some(ScriptError::PendingWaitpointExpired)
    } else if code == "invalid_waitpoint_for_execution"@ {
        Some(ScriptError::InvalidWaitpointForExecution)
    } else if code == "waitpoint_already_exists"@ {
        Some(ScriptError::WaitpointAlreadyExists)
    } else if code == "waitpoint_not_open"@ {
        Some(ScriptError::WaitpointNotOpen)
    } else if code == "execution_not_terminal"@ {
        Some(ScriptError::ExecutionNotTerminal)
    } else if code == "max_replays_exhausted"@ {
        Some(ScriptError::MaxReplaysExhausted)
    } else if code == "stream_closed"@ {
        Some(ScriptError::StreamClosed)
    } else if code == "stale_owner_cannot_append"@ {
        Some(ScriptError::StaleOwnerCannotAppend)
    } else if code == "retention_limit_exceeded"@ {
        Some(ScriptError::RetentionLimitExceeded)
    } else if code == "execution_not_eligible"@ {
        Some(ScriptError::ExecutionNotEligible)
    } else if code == "execution_not_in_eligible_set"@ {
        Some(ScriptError::ExecutionNotInEligibleSet)
    } else if code == "grant_already_exists"@ {
        Some(ScriptError::GrantAlreadyExists)
    } else if code == "execution_not_reclaimable"@ {
        Some(ScriptError::ExecutionNotReclaimable)
    } else if code == "invalid_dependency"@ {
        Some(ScriptError::InvalidDependency)
    } else if code == "stale_graph_revision"@ {
        Some(ScriptError::StaleGraphRevision)
    } else if code == "execution_already_in_flow"@ {
        Some(ScriptError::ExecutionAlreadyInFlow)
    } else if code == "cycle_detected"@ {
        Some(ScriptError::CycleDetected)
    } else if code == "flow_not_found"@ {
        Some(ScriptError::FlowNotFound)
    } else if code == "execution_not_in_flow"@ {
        Some(ScriptError::ExecutionNotInFlow)
    } else if code == "dependency_already_exists"@ {
        Some(ScriptError::DependencyAlreadyExists)
    } else if code == "self_referencing_edge"@ {
        Some(ScriptError::SelfReferencingEdge)
    } else if code == "flow_already_terminal"@ {
        Some(ScriptError::FlowAlreadyTerminal)
    } else if code == "deps_not_satisfied"@ {
        Some(ScriptError::DepsNotSatisfied)
    } else if code == "not_blocked_by_deps"@ {
        Some(ScriptError::NotBlockedByDeps)
    } else if code == "not_runnable"@ {
        Some(ScriptError::NotRunnable)
    } else if code == "terminal"@ {
        Some(ScriptError::Terminal)
    } else if code == "invalid_blocking_reason"@ {
        Some(ScriptError::InvalidBlockingReason)
    } else if code == "ok_already_applied"@ {
        Some(ScriptError::OkAlreadyApplied)
    } else if code == "attempt_not_found"@ {
        Some(ScriptError::AttemptNotFound)
    } else if code == "attempt_not_in_created_state"@ {
        Some(ScriptError::AttemptNotInCreatedState)
    } else if code == "attempt_not_started"@ {
        Some(ScriptError::AttemptNotStarted)
    } else if code == "attempt_already_terminal"@ {
        Some(ScriptError::AttemptAlreadyTerminal)
    } else if code == "execution_not_found"@ {
        Some(ScriptError::ExecutionNotFound)
    } else if code == "execution_not_eligible_for_attempt"@ {
        Some(ScriptError::ExecutionNotEligibleForAttempt)
    } else if code == "replay_not_allowed"@ {
        Some(ScriptError::ReplayNotAllowed)
    } else if code == "max_retries_exhausted"@ {
        Some(ScriptError::MaxRetriesExhausted)
    } else if code == "stream_not_found"@ {
        Some(ScriptError::StreamNotFound)
    } else if code == "stream_already_closed"@ {
        Some(ScriptError::StreamAlreadyClosed)
    } else if code == "invalid_frame_type"@ {
        Some(ScriptError::InvalidFrameType)
    } else if code == "invalid_offset"@ {
        Some(ScriptError::InvalidOffset)
    } else if code == "unauthorized"@ {
        Some(ScriptError::Unauthorized)
    } else if code == "budget_not_found"@ {
        Some(ScriptError::BudgetNotFound)
    } else if code == "invalid_budget_scope"@ {
        Some(ScriptError::InvalidBudgetScope)
    } else if code == "budget_attach_conflict"@ {
        Some(ScriptError::BudgetAttachConflict)
    } else if code == "budget_override_not_allowed"@ {
        Some(ScriptError::BudgetOverrideNotAllowed)
    } else if code == "quota_policy_not_found"@ {
        Some(ScriptError::QuotaPolicyNotFound)
    } else if code == "rate_limit_exceeded"@ {
        Some(ScriptError::RateLimitExceeded)
    } else if code == "concurrency_limit_exceeded"@ {
        Some(ScriptError::ConcurrencyLimitExceeded)
    } else if code == "quota_attach_conflict"@ {
        Some(ScriptError::QuotaAttachConflict)
    } else if code == "invalid_quota_spec"@ {
        Some(ScriptError::InvalidQuotaSpec)
    } else if code == "invalid_input"@ {
        Some(ScriptError::InvalidInput(Seq::empty()))
    } else if code == "capability_mismatch"@ {
        Some(ScriptError::CapabilityMismatch(Seq::empty()))
    } else if code == "invalid_capabilities"@ {
        Some(ScriptError::InvalidCapabilities(Seq::empty()))
    } else if code == "invalid_policy_json"@ {
        Some(ScriptError::InvalidPolicyJson(Seq::empty()))
    } else if code == "waitpoint_not_token_bound"@ {
        Some(ScriptError::WaitpointNotTokenBound)
    } else if code == "invalid_tag_key"@ {
        Some(ScriptError::InvalidTagKey(Seq::empty()))
    } else if code == "invalid_kid"@ {
        Some(ScriptError::InvalidKid)
    } else if code == "invalid_secret_hex"@ {
        Some(ScriptError::InvalidSecretHex)
    } else if code == "invalid_grace_ms"@ {
        Some(ScriptError::InvalidGraceMs)
    } else if code == "rotation_conflict"@ {
        Some(ScriptError::RotationConflict(Seq::empty()))
    } else {
        None
    }
}

/// The detail in slot `i`, empty when the answer has fewer.
pub open spec fn slot(details: Seq<Seq<char>>, i: int) -> Seq<char> {
    if 0 <= i < details.len() {
        details[i]
    } else {
        Seq::empty()
    }
}

/// An error with the answer's details folded in: four slots for an execution
/// that is not active, the first slot for the other variants with a text.
pub open spec fn with_details(e: ScriptError<Seq<char>>, details: Seq<Seq<char>>) -> ScriptError<
    Seq<char>,
> {
    match e {
        ScriptError::ExecutionNotActive { .. } => ScriptError::ExecutionNotActive {
            terminal_outcome: slot(details, 0),
            lease_epoch: slot(details, 1),
            lifecycle_phase: slot(details, 2),
            attempt_id: slot(details, 3),
        },
        ScriptError::InvalidInput(_) => ScriptError::InvalidInput(slot(details, 0)),
        ScriptError::CapabilityMismatch(_) => ScriptError::CapabilityMismatch(slot(details, 0)),
        ScriptError::InvalidCapabilities(_) => ScriptError::InvalidCapabilities(slot(details, 0)),
        ScriptError::InvalidPolicyJson(_) => ScriptError::InvalidPolicyJson(slot(details, 0)),
        ScriptError::InvalidTagKey(_) => ScriptError::InvalidTagKey(slot(details, 0)),
        ScriptError::RotationConflict(_) => ScriptError::RotationConflict(slot(details, 0)),
        _ => e,
    }
}

/// The error that a wire code and its details denote.
pub open spec fn error_of_answer(code: Seq<char>, details: Seq<Seq<char>>) -> Option<
    ScriptError<Seq<char>>,
> {
    match error_of_code(code) {
        Some(e) => Some(with_details(e, details)),
        None => None,
    }
}

/// The views of an optional error.
pub open spec fn opt_view(e: Option<ScriptError>) -> Option<ScriptError<Seq<char>>> {
    match e {
        Some(x) => Some(x@),
        None => None,
    }
}

/// The texts of a list of string slices.
pub open spec fn slices(v: Seq<&str>) -> Seq<Seq<char>> {
    v.map_values(|s: &str| s@)
}

fn slot_text(details: &[&str], i: usize) -> (r: String)
    ensures
        r@ == slot(slices(details@), i as int),
{
    if i < details.len() {
        details[i].to_owned()
    } else {
        String::new()
    }
}

/// The error for a reply of `fcall` that cannot be read.
pub open spec fn parse_error(fcall: Seq<char>, message: Seq<char>) -> ScriptError<Seq<char>> {
    ScriptError::Parse { fcall, execution_id: None, message }
}

/// The error for a reply of `fcall` that cannot be read.
pub(crate) fn unreadable(fcall: &str, message: String) -> (r: ScriptError)
    ensures
        r@ == parse_error(fcall@, message@),
{
    ScriptError::Parse { fcall: fcall.to_owned(), execution_id: None, message }
}

impl ScriptError {
    /// The kind of the transport fault, if this is one.
    pub fn valkey_kind(&self) -> (r: Option<ErrorKind>)
        ensures
            r == match *self {
                ScriptError::Valkey(e) => Some(e.kind),
                _ => None,
            },
    {
        match self {
            ScriptError::Valkey(e) => Some(e.kind),
            _ => None,
        }
    }

    /// Classify this error for the caller's next step.
    pub fn class(&self) -> (r: ErrorClass)
        ensures
            r == self.class_spec(),
    {
        match self {
            ScriptError::Valkey(e) => if retry::is_retryable_kind(e.kind) {
                ErrorClass::Retryable
            } else {
                ErrorClass::Terminal
            },
            ScriptError::UseClaimResumedExecution
            | ScriptError::NotAResumedExecution
            | ScriptError::ExecutionNotLeaseable
            | ScriptError::LeaseConflict
            | ScriptError::InvalidClaimGrant
            | ScriptError::ClaimGrantExpired
            | ScriptError::NoEligibleExecution
            | ScriptError::WaitpointNotFound
            | ScriptError::WaitpointPendingUseBufferScript
            | ScriptError::StaleGraphRevision
            | ScriptError::InvalidOffset
            | ScriptError::RateLimitExceeded
            | ScriptError::ConcurrencyLimitExceeded
            | ScriptError::CapabilityMismatch(_) => ErrorClass::Retryable,
            ScriptError::BudgetExceeded => ErrorClass::Cooperative,
            ScriptError::NoActiveLease
            | ScriptError::BudgetSoftExceeded
            | ScriptError::ExecutionNotSuspended
            | ScriptError::AlreadySuspended
            | ScriptError::WaitpointClosed
            | ScriptError::DuplicateSignal
            | ScriptError::WaitpointNotPending
            | ScriptError::PendingWaitpointExpired
            | ScriptError::WaitpointAlreadyExists
            | ScriptError::WaitpointNotOpen
            | ScriptError::ExecutionNotEligible
            | ScriptError::ExecutionNotInEligibleSet
            | ScriptError::GrantAlreadyExists
            | ScriptError::ExecutionNotReclaimable
            | ScriptError::DepsNotSatisfied
            | ScriptError::NotBlockedByDeps
            | ScriptError::OkAlreadyApplied
            | ScriptError::AttemptAlreadyTerminal
            | ScriptError::StreamAlreadyClosed => ErrorClass::Informational,
            ScriptError::ActiveAttemptExists
            | ScriptError::AttemptNotInCreatedState => ErrorClass::Bug,
            ScriptError::StreamNotFound => ErrorClass::Expected,
            ScriptError::InvalidFrameType => ErrorClass::SoftError,
            _ => ErrorClass::Terminal,
        }
    }

    /// The error that a wire code denotes, its details empty. `None` for an
    /// unknown code.
    pub fn from_code(code: &str) -> (r: Option<ScriptError>)
        ensures
            opt_view(r) == error_of_code(code@),
    {
        if text::same(code, "stale_lease") {
            Some(ScriptError::StaleLease)
        } else if text::same(code, "lease_expired") {
            Some(ScriptError::LeaseExpired)
        } else if text::same(code, "lease_revoked") {
            Some(ScriptError::LeaseRevoked)
        } else if text::same(code, "execution_not_active") {
            Some(ScriptError::ExecutionNotActive { terminal_outcome: String::new(), lease_epoch: String::new(), lifecycle_phase: String::new(), attempt_id: String::new() })
        } else if text::same(code, "no_active_lease") {
            Some(ScriptError::NoActiveLease)
        } else if text::same(code, "active_attempt_exists") {
            Some(ScriptError::ActiveAttemptExists)
        } else if text::same(code, "use_claim_resumed_execution") {
            Some(ScriptError::UseClaimResumedExecution)
        } else if text::same(code, "not_a_resumed_execution") {
            Some(ScriptError::NotAResumedExecution)
        } else if text::same(code, "execution_not_leaseable") {
            Some(ScriptError::ExecutionNotLeaseable)
        } else if text::same(code, "lease_conflict") {
            Some(ScriptError::LeaseConflict)
        } else if text::same(code, "invalid_claim_grant") {
            Some(ScriptError::InvalidClaimGrant)
        } else if text::same(code, "claim_grant_expired") {
            Some(ScriptError::ClaimGrantExpired)
        } else if text::same(code, "no_eligible_execution") {
            Some(ScriptError::NoEligibleExecution)
        } else if text::same(code, "budget_exceeded") {
            Some(ScriptError::BudgetExceeded)
        } else if text::same(code, "budget_soft_exceeded") {
            Some(ScriptError::BudgetSoftExceeded)
        } else if text::same(code, "execution_not_suspended") {
            Some(ScriptError::ExecutionNotSuspended)
        } else if text::same(code, "already_suspended") {
            Some(ScriptError::AlreadySuspended)
        } else if text::same(code, "waitpoint_closed") {
            Some(ScriptError::WaitpointClosed)
        } else if text::same(code, "waitpoint_not_found") {
            Some(ScriptError::WaitpointNotFound)
        } else if text::same(code, "target_not_signalable") {
            Some(ScriptError::TargetNotSignalable)
        } else if text::same(code, "waitpoint_pending_use_buffer_script") {
            Some(ScriptError::WaitpointPendingUseBufferScript)
        } else if text::same(code, "duplicate_signal") {
            Some(ScriptError::DuplicateSignal)
        } else if text::same(code, "payload_too_large") {
            Some(ScriptError::PayloadTooLarge)
        } else if text::same(code, "signal_limit_exceeded") {
            Some(ScriptError::SignalLimitExceeded)
        } else if text::same(code, "invalid_waitpoint_key") {
            Some(ScriptError::InvalidWaitpointKey)
        } else if text::same(code, "invalid_lease_for_suspend") {
            Some(ScriptError::InvalidLeaseForSuspend)
        } else if text::same(code, "resume_condition_not_met") {
            Some(ScriptError::ResumeConditionNotMet)
        } else if text::same(code, "waitpoint_not_pending") {
            Some(ScriptError::WaitpointNotPending)
        } else if text::same(code, "pending_waitpoint_expired") {
            Some(ScriptError::PendingWaitpointExpired)
        } else if text::same(code, "invalid_waitpoint_for_execution") {
            Some(ScriptError::InvalidWaitpointForExecution)
        } else if text::same(code, "waitpoint_already_exists") {
            Some(ScriptError::WaitpointAlreadyExists)
        } else if text::same(code, "waitpoint_not_open") {
            Some(ScriptError::WaitpointNotOpen)
        } else if text::same(code, "execution_not_terminal") {
            Some(ScriptError::ExecutionNotTerminal)
        } else if text::same(code, "max_replays_exhausted") {
            Some(ScriptError::MaxReplaysExhausted)
        } else if text::same(code, "stream_closed") {
            Some(ScriptError::StreamClosed)
        } else if text::same(code, "stale_owner_cannot_append") {
            Some(ScriptError::StaleOwnerCannotAppend)
        } else if text::same(code, "retention_limit_exceeded") {
            Some(ScriptError::RetentionLimitExceeded)
        } else if text::same(code, "execution_not_eligible") {
            Some(ScriptError::ExecutionNotEligible)
        } else if text::same(code, "execution_not_in_eligible_set") {
            Some(ScriptError::ExecutionNotInEligibleSet)
        } else if text::same(code, "grant_already_exists") {
            Some(ScriptError::GrantAlreadyExists)
        } else if text::same(code, "execution_not_reclaimable") {
            Some(ScriptError::ExecutionNotReclaimable)
        } else if text::same(code, "invalid_dependency") {
            Some(ScriptError::InvalidDependency)
        } else if text::same(code, "stale_graph_revision") {
            Some(ScriptError::StaleGraphRevision)
        } else if text::same(code, "execution_already_in_flow") {
            Some(ScriptError::ExecutionAlreadyInFlow)
        } else if text::same(code, "cycle_detected") {
            Some(ScriptError::CycleDetected)
        } else if text::same(code, "flow_not_found") {
            Some(ScriptError::FlowNotFound)
        } else if text::same(code, "execution_not_in_flow") {
            Some(ScriptError::ExecutionNotInFlow)
        } else if text::same(code, "dependency_already_exists") {
            Some(ScriptError::DependencyAlreadyExists)
        } else if text::same(code, "self_referencing_edge") {
            Some(ScriptError::SelfReferencingEdge)
        } else if text::same(code, "flow_already_terminal") {
            Some(ScriptError::FlowAlreadyTerminal)
        } else if text::same(code, "deps_not_satisfied") {
            Some(ScriptError::DepsNotSatisfied)
        } else if text::same(code, "not_blocked_by_deps") {
            Some(ScriptError::NotBlockedByDeps)
        } else if text::same(code, "not_runnable") {
            Some(ScriptError::NotRunnable)
        } else if text::same(code, "terminal") {
            Some(ScriptError::Terminal)
        } else if text::same(code, "invalid_blocking_reason") {
            Some(ScriptError::InvalidBlockingReason)
        } else if text::same(code, "ok_already_applied") {
            Some(ScriptError::OkAlreadyApplied)
        } else if text::same(code, "attempt_not_found") {
            Some(ScriptError::AttemptNotFound)
        } else if text::same(code, "attempt_not_in_created_state") {
            Some(ScriptError::AttemptNotInCreatedState)
        } else if text::same(code, "attempt_not_started") {
            Some(ScriptError::AttemptNotStarted)
        } else if text::same(code, "attempt_already_terminal") {
            Some(ScriptError::AttemptAlreadyTerminal)
        } else if text::same(code, "execution_not_found") {
            Some(ScriptError::ExecutionNotFound)
        } else if text::same(code, "execution_not_eligible_for_attempt") {
            Some(ScriptError::ExecutionNotEligibleForAttempt)
        } else if text::same(code, "replay_not_allowed") {
            Some(ScriptError::ReplayNotAllowed)
        } else if text::same(code, "max_retries_exhausted") {
            Some(ScriptError::MaxRetriesExhausted)
        } else if text::same(code, "stream_not_found") {
            Some(ScriptError::StreamNotFound)
        } else if text::same(code, "stream_already_closed") {
            Some(ScriptError::StreamAlreadyClosed)
        } else if text::same(code, "invalid_frame_type") {
            Some(ScriptError::InvalidFrameType)
        } else if text::same(code, "invalid_offset") {
            Some(ScriptError::InvalidOffset)
        } else if text::same(code, "unauthorized") {
            Some(ScriptError::Unauthorized)
        } else if text::same(code, "budget_not_found") {
            Some(ScriptError::BudgetNotFound)
        } else if text::same(code, "invalid_budget_scope") {
            Some(ScriptError::InvalidBudgetScope)
        } else if text::same(code, "budget_attach_conflict") {
            Some(ScriptError::BudgetAttachConflict)
        } else if text::same(code, "budget_override_not_allowed") {
            Some(ScriptError::BudgetOverrideNotAllowed)
        } else if text::same(code, "quota_policy_not_found") {
            Some(ScriptError::QuotaPolicyNotFound)
        } else if text::same(code, "rate_limit_exceeded") {
            Some(ScriptError::RateLimitExceeded)
        } else if text::same(code, "concurrency_limit_exceeded") {
            Some(ScriptError::ConcurrencyLimitExceeded)
        } else if text::same(code, "quota_attach_conflict") {
            Some(ScriptError::QuotaAttachConflict)
        } else if text::same(code, "invalid_quota_spec") {
            Some(ScriptError::InvalidQuotaSpec)
        } else if text::same(code, "invalid_input") {
            Some(ScriptError::InvalidInput(String::new()))
        } else if text::same(code, "capability_mismatch") {
            Some(ScriptError::CapabilityMismatch(String::new()))
        } else if text::same(code, "invalid_capabilities") {
            Some(ScriptError::InvalidCapabilities(String::new()))
        } else if text::same(code, "invalid_policy_json") {
            Some(ScriptError::InvalidPolicyJson(String::new()))
        } else if text::same(code, "waitpoint_not_token_bound") {
            Some(ScriptError::WaitpointNotTokenBound)
        } else if text::same(code, "invalid_tag_key") {
            Some(ScriptError::InvalidTagKey(String::new()))
        } else if text::same(code, "invalid_kid") {
            Some(ScriptError::InvalidKid)
        } else if text::same(code, "invalid_secret_hex") {
            Some(ScriptError::InvalidSecretHex)
        } else if text::same(code, "invalid_grace_ms") {
            Some(ScriptError::InvalidGraceMs)
        } else if text::same(code, "rotation_conflict") {
            Some(ScriptError::RotationConflict(String::new()))
        } else {
            None
        }
    }

    /// Like [`ScriptError::from_code`], with one detail folded in.
    pub fn from_code_with_detail(code: &str, detail: &str) -> (r: Option<ScriptError>)
        ensures
            opt_view(r) == error_of_answer(code@, seq![detail@]),
    {
        let mut details: Vec<&str> = Vec::new();
        details.push(detail);
        assert(slices(details@) =~= seq![detail@]);
        Self::from_code_with_details(code, details.as_slice())
    }

    /// Like [`ScriptError::from_code`], with every detail slot of the answer
    /// folded in. Slots that the variant does not carry are dropped.
    pub fn from_code_with_details(code: &str, details: &[&str]) -> (r: Option<ScriptError>)
        ensures
            opt_view(r) == error_of_answer(code@, slices(details@)),
    {
        match Self::from_code(code) {
            None => None,
            Some(base) => Some(
                match base {
                    ScriptError::ExecutionNotActive { .. } => ScriptError::ExecutionNotActive {
                        terminal_outcome: slot_text(details, 0),
                        lease_epoch: slot_text(details, 1),
                        lifecycle_phase: slot_text(details, 2),
                        attempt_id: slot_text(details, 3),
                    },
                    ScriptError::InvalidInput(_) => ScriptError::InvalidInput(slot_text(details, 0)),
                    ScriptError::CapabilityMismatch(_) => ScriptError::CapabilityMismatch(slot_text(details, 0)),
                    ScriptError::InvalidCapabilities(_) => ScriptError::InvalidCapabilities(slot_text(details, 0)),
                    ScriptError::InvalidPolicyJson(_) => ScriptError::InvalidPolicyJson(slot_text(details, 0)),
                    ScriptError::InvalidTagKey(_) => ScriptError::InvalidTagKey(slot_text(details, 0)),
                    ScriptError::RotationConflict(_) => ScriptError::RotationConflict(slot_text(details, 0)),
                    other => other,
                },
            ),
        }
    }
}

impl ScriptError<Seq<char>> {
    /// What the error says to a reader.
    pub open spec fn text_spec(self) -> Seq<char> {
        match self {
            ScriptError::Valkey(e) => "valkey: "@ + e.text,
            ScriptError::Parse { message, .. } => "parse error: "@ + message,
            ScriptError::StaleLease => "stale_lease: lease superseded by reclaim"@,
            ScriptError::LeaseExpired => "lease_expired: lease TTL elapsed"@,
            ScriptError::LeaseRevoked => "lease_revoked: operator revoked lease"@,
            ScriptError::ExecutionNotActive { .. } => "execution_not_active: execution is not in active state"@,
            ScriptError::NoActiveLease => "no_active_lease: target has no active lease"@,
            ScriptError::ActiveAttemptExists => "active_attempt_exists: invariant violation"@,
            ScriptError::UseClaimResumedExecution => "use_claim_resumed_execution: attempt_interrupted, use resume claim path"@,
            ScriptError::NotAResumedExecution => "not_a_resumed_execution: use normal claim path"@,
            ScriptError::ExecutionNotLeaseable => "execution_not_leaseable: state changed since grant"@,
            ScriptError::LeaseConflict => "lease_conflict: another worker holds lease"@,
            ScriptError::InvalidClaimGrant => "invalid_claim_grant: grant missing or mismatched"@,
            ScriptError::ClaimGrantExpired => "claim_grant_expired: grant TTL elapsed"@,
            ScriptError::NoEligibleExecution => "no_eligible_execution: no execution available"@,
            ScriptError::BudgetExceeded => "budget_exceeded: hard budget limit reached"@,
            ScriptError::BudgetSoftExceeded => "budget_soft_exceeded: soft budget limit reached"@,
            ScriptError::ExecutionNotSuspended => "execution_not_suspended: already resumed or cancelled"@,
            ScriptError::AlreadySuspended => "already_suspended: suspension already active"@,
            ScriptError::WaitpointClosed => "waitpoint_closed: waitpoint already closed"@,
            ScriptError::WaitpointNotFound => "waitpoint_not_found: waitpoint does not exist yet"@,
            ScriptError::TargetNotSignalable => "target_not_signalable: no valid signal target"@,
            ScriptError::WaitpointPendingUseBufferScript => "waitpoint_pending_use_buffer_script: route to buffer script"@,
            ScriptError::DuplicateSignal => "duplicate_signal: signal already delivered"@,
            ScriptError::PayloadTooLarge => "payload_too_large: signal payload exceeds 64KB"@,
            ScriptError::SignalLimitExceeded => "signal_limit_exceeded: max signals per execution reached"@,
            ScriptError::InvalidWaitpointKey => "invalid_waitpoint_key: MAC verification failed"@,
            ScriptError::InvalidLeaseForSuspend => "invalid_lease_for_suspend: lease/attempt binding mismatch"@,
            ScriptError::ResumeConditionNotMet => "resume_condition_not_met: resume conditions not satisfied"@,
            ScriptError::WaitpointNotPending => "waitpoint_not_pending: waitpoint is not in pending state"@,
            ScriptError::PendingWaitpointExpired => "pending_waitpoint_expired: pending waitpoint aged out"@,
            ScriptError::InvalidWaitpointForExecution => "invalid_waitpoint_for_execution: waitpoint does not belong to execution"@,
            ScriptError::WaitpointAlreadyExists => "waitpoint_already_exists: waitpoint already exists"@,
            ScriptError::WaitpointNotOpen => "waitpoint_not_open: waitpoint is not pending or active"@,
            ScriptError::ExecutionNotTerminal => "execution_not_terminal: cannot replay non-terminal execution"@,
            ScriptError::MaxReplaysExhausted => "max_replays_exhausted: replay limit reached"@,
            ScriptError::StreamClosed => "stream_closed: attempt terminal, no appends allowed"@,
            ScriptError::StaleOwnerCannotAppend => "stale_owner_cannot_append: lease mismatch on append"@,
            ScriptError::RetentionLimitExceeded => "retention_limit_exceeded: frame exceeds size limit"@,
            ScriptError::ExecutionNotEligible => "execution_not_eligible: state changed"@,
            ScriptError::ExecutionNotInEligibleSet => "execution_not_in_eligible_set: removed by another scheduler"@,
            ScriptError::GrantAlreadyExists => "grant_already_exists: grant already active"@,
            ScriptError::ExecutionNotReclaimable => "execution_not_reclaimable: already reclaimed or cancelled"@,
            ScriptError::InvalidDependency => "invalid_dependency: dependency edge not found"@,
            ScriptError::StaleGraphRevision => "stale_graph_revision: graph has been updated"@,
            ScriptError::ExecutionAlreadyInFlow => "execution_already_in_flow: execution belongs to another flow"@,
            ScriptError::CycleDetected => "cycle_detected: dependency edge would create cycle"@,
            ScriptError::FlowNotFound => "flow_not_found: flow does not exist"@,
            ScriptError::ExecutionNotInFlow => "execution_not_in_flow: execution not in flow"@,
            ScriptError::DependencyAlreadyExists => "dependency_already_exists: edge already exists"@,
            ScriptError::SelfReferencingEdge => "self_referencing_edge: upstream and downstream are the same"@,
            ScriptError::FlowAlreadyTerminal => "flow_already_terminal: flow is already terminal"@,
            ScriptError::DepsNotSatisfied => "deps_not_satisfied: dependencies still unresolved"@,
            ScriptError::NotBlockedByDeps => "not_blocked_by_deps: execution not blocked by dependencies"@,
            ScriptError::NotRunnable => "not_runnable: execution is not in runnable state"@,
            ScriptError::Terminal => "terminal: execution is already terminal"@,
            ScriptError::InvalidBlockingReason => "invalid_blocking_reason: unrecognized blocking reason"@,
            ScriptError::OkAlreadyApplied => "ok_already_applied: usage seq already processed"@,
            ScriptError::AttemptNotFound => "attempt_not_found: attempt index does not exist"@,
            ScriptError::AttemptNotInCreatedState => "attempt_not_in_created_state: internal sequencing error"@,
            ScriptError::AttemptNotStarted => "attempt_not_started: attempt not in started state"@,
            ScriptError::AttemptAlreadyTerminal => "attempt_already_terminal: attempt already ended"@,
            ScriptError::ExecutionNotFound => "execution_not_found: execution does not exist"@,
            ScriptError::ExecutionNotEligibleForAttempt => "execution_not_eligible_for_attempt: wrong state for new attempt"@,
            ScriptError::ReplayNotAllowed => "replay_not_allowed: execution not terminal or limit reached"@,
            ScriptError::MaxRetriesExhausted => "max_retries_exhausted: retry limit reached"@,
            ScriptError::StreamNotFound => "stream_not_found: no frames appended yet"@,
            ScriptError::StreamAlreadyClosed => "stream_already_closed: stream already closed"@,
            ScriptError::InvalidFrameType => "invalid_frame_type: unrecognized frame type"@,
            ScriptError::InvalidOffset => "invalid_offset: invalid stream ID offset"@,
            ScriptError::Unauthorized => "unauthorized: authentication/authorization failed"@,
            ScriptError::BudgetNotFound => "budget_not_found: budget does not exist"@,
            ScriptError::InvalidBudgetScope => "invalid_budget_scope: malformed budget scope"@,
            ScriptError::BudgetAttachConflict => "budget_attach_conflict: budget attachment conflict"@,
            ScriptError::BudgetOverrideNotAllowed => "budget_override_not_allowed: insufficient privileges"@,
            ScriptError::QuotaPolicyNotFound => "quota_policy_not_found: quota policy does not exist"@,
            ScriptError::RateLimitExceeded => "rate_limit_exceeded: rate limit window full"@,
            ScriptError::ConcurrencyLimitExceeded => "concurrency_limit_exceeded: concurrency cap reached"@,
            ScriptError::QuotaAttachConflict => "quota_attach_conflict: quota policy already attached"@,
            ScriptError::InvalidQuotaSpec => "invalid_quota_spec: malformed quota policy definition"@,
            ScriptError::InvalidInput(d) => "invalid_input: "@ + d,
            ScriptError::CapabilityMismatch(d) => "capability_mismatch: missing "@ + d,
            ScriptError::InvalidCapabilities(d) => "invalid_capabilities: "@ + d,
            ScriptError::InvalidPolicyJson(d) => "invalid_policy_json: "@ + d,
            ScriptError::WaitpointNotTokenBound => "waitpoint_not_token_bound"@,
            ScriptError::InvalidTagKey(d) => "invalid_tag_key: "@ + d,
            ScriptError::InvalidKid => "invalid_kid: kid is empty or contains a separator"@,
            ScriptError::InvalidSecretHex => "invalid_secret_hex: secret is not an even-length hex string"@,
            ScriptError::InvalidGraceMs => "invalid_grace_ms: grace period is not a non-negative integer"@,
            ScriptError::RotationConflict(d) => "rotation_conflict: "@ + d,
        }
    }
}

/// `prefix` and `rest`, one after the other.
pub(crate) fn prefixed(prefix: &str, rest: &str) -> (r: String)
    ensures
        r@ == prefix@ + rest@,
{
    let mut out = prefix.to_owned();
    out.append(rest);
    out
}

impl ScriptError {
    /// What the error says to a reader.
    pub fn text(&self) -> (r: String)
        ensures
            r@ == self@.text_spec(),
    {
        match self {
            ScriptError::Valkey(e) => prefixed("valkey: ", e.text.as_str()),
            ScriptError::Parse { message, .. } => prefixed("parse error: ", message.as_str()),
            ScriptError::StaleLease => "stale_lease: lease superseded by reclaim".to_owned(),
            ScriptError::LeaseExpired => "lease_expired: lease TTL elapsed".to_owned(),
            ScriptError::LeaseRevoked => "lease_revoked: operator revoked lease".to_owned(),
            ScriptError::ExecutionNotActive { .. } => "execution_not_active: execution is not in active state".to_owned(),
            ScriptError::NoActiveLease => "no_active_lease: target has no active lease".to_owned(),
            ScriptError::ActiveAttemptExists => "active_attempt_exists: invariant violation".to_owned(),
            ScriptError::UseClaimResumedExecution => "use_claim_resumed_execution: attempt_interrupted, use resume claim path".to_owned(),
            ScriptError::NotAResumedExecution => "not_a_resumed_execution: use normal claim path".to_owned(),
            ScriptError::ExecutionNotLeaseable => "execution_not_leaseable: state changed since grant".to_owned(),
            ScriptError::LeaseConflict => "lease_conflict: another worker holds lease".to_owned(),
            ScriptError::InvalidClaimGrant => "invalid_claim_grant: grant missing or mismatched".to_owned(),
            ScriptError::ClaimGrantExpired => "claim_grant_expired: grant TTL elapsed".to_owned(),
            ScriptError::NoEligibleExecution => "no_eligible_execution: no execution available".to_owned(),
            ScriptError::BudgetExceeded => "budget_exceeded: hard budget limit reached".to_owned(),
            ScriptError::BudgetSoftExceeded => "budget_soft_exceeded: soft budget limit reached".to_owned(),
            ScriptError::ExecutionNotSuspended => "execution_not_suspended: already resumed or cancelled".to_owned(),
            ScriptError::AlreadySuspended => "already_suspended: suspension already active".to_owned(),
            ScriptError::WaitpointClosed => "waitpoint_closed: waitpoint already closed".to_owned(),
            ScriptError::WaitpointNotFound => "waitpoint_not_found: waitpoint does not exist yet".to_owned(),
            ScriptError::TargetNotSignalable => "target_not_signalable: no valid signal target".to_owned(),
            ScriptError::WaitpointPendingUseBufferScript => "waitpoint_pending_use_buffer_script: route to buffer script".to_owned(),
            ScriptError::DuplicateSignal => "duplicate_signal: signal already delivered".to_owned(),
            ScriptError::PayloadTooLarge => "payload_too_large: signal payload exceeds 64KB".to_owned(),
            ScriptError::SignalLimitExceeded => "signal_limit_exceeded: max signals per execution reached".to_owned(),
            ScriptError::InvalidWaitpointKey => "invalid_waitpoint_key: MAC verification failed".to_owned(),
            ScriptError::InvalidLeaseForSuspend => "invalid_lease_for_suspend: lease/attempt binding mismatch".to_owned(),
            ScriptError::ResumeConditionNotMet => "resume_condition_not_met: resume conditions not satisfied".to_owned(),
            ScriptError::WaitpointNotPending => "waitpoint_not_pending: waitpoint is not in pending state".to_owned(),
            ScriptError::PendingWaitpointExpired => "pending_waitpoint_expired: pending waitpoint aged out".to_owned(),
            ScriptError::InvalidWaitpointForExecution => "invalid_waitpoint_for_execution: waitpoint does not belong to execution".to_owned(),
            ScriptError::WaitpointAlreadyExists => "waitpoint_already_exists: waitpoint already exists".to_owned(),
            ScriptError::WaitpointNotOpen => "waitpoint_not_open: waitpoint is not pending or active".to_owned(),
            ScriptError::ExecutionNotTerminal => "execution_not_terminal: cannot replay non-terminal execution".to_owned(),
            ScriptError::MaxReplaysExhausted => "max_replays_exhausted: replay limit reached".to_owned(),
            ScriptError::StreamClosed => "stream_closed: attempt terminal, no appends allowed".to_owned(),
            ScriptError::StaleOwnerCannotAppend => "stale_owner_cannot_append: lease mismatch on append".to_owned(),
            ScriptError::RetentionLimitExceeded => "retention_limit_exceeded: frame exceeds size limit".to_owned(),
            ScriptError::ExecutionNotEligible => "execution_not_eligible: state changed".to_owned(),
            ScriptError::ExecutionNotInEligibleSet => "execution_not_in_eligible_set: removed by another scheduler".to_owned(),
            ScriptError::GrantAlreadyExists => "grant_already_exists: grant already active".to_owned(),
            ScriptError::ExecutionNotReclaimable => "execution_not_reclaimable: already reclaimed or cancelled".to_owned(),
            ScriptError::InvalidDependency => "invalid_dependency: dependency edge not found".to_owned(),
            ScriptError::StaleGraphRevision => "stale_graph_revision: graph has been updated".to_owned(),
            ScriptError::ExecutionAlreadyInFlow => "execution_already_in_flow: execution belongs to another flow".to_owned(),
            ScriptError::CycleDetected => "cycle_detected: dependency edge would create cycle".to_owned(),
            ScriptError::FlowNotFound => "flow_not_found: flow does not exist".to_owned(),
            ScriptError::ExecutionNotInFlow => "execution_not_in_flow: execution not in flow".to_owned(),
            ScriptError::DependencyAlreadyExists => "dependency_already_exists: edge already exists".to_owned(),
            ScriptError::SelfReferencingEdge => "self_referencing_edge: upstream and downstream are the same".to_owned(),
            ScriptError::FlowAlreadyTerminal => "flow_already_terminal: flow is already terminal".to_owned(),
            ScriptError::DepsNotSatisfied => "deps_not_satisfied: dependencies still unresolved".to_owned(),
            ScriptError::NotBlockedByDeps => "not_blocked_by_deps: execution not blocked by dependencies".to_owned(),
            ScriptError::NotRunnable => "not_runnable: execution is not in runnable state".to_owned(),
            ScriptError::Terminal => "terminal: execution is already terminal".to_owned(),
            ScriptError::InvalidBlockingReason => "invalid_blocking_reason: unrecognized blocking reason".to_owned(),
            ScriptError::OkAlreadyApplied => "ok_already_applied: usage seq already processed".to_owned(),
            ScriptError::AttemptNotFound => "attempt_not_found: attempt index does not exist".to_owned(),
            ScriptError::AttemptNotInCreatedState => "attempt_not_in_created_state: internal sequencing error".to_owned(),
            ScriptError::AttemptNotStarted => "attempt_not_started: attempt not in started state".to_owned(),
            ScriptError::AttemptAlreadyTerminal => "attempt_already_terminal: attempt already ended".to_owned(),
            ScriptError::ExecutionNotFound => "execution_not_found: execution does not exist".to_owned(),
            ScriptError::ExecutionNotEligibleForAttempt => "execution_not_eligible_for_attempt: wrong state for new attempt".to_owned(),
            ScriptError::ReplayNotAllowed => "replay_not_allowed: execution not terminal or limit reached".to_owned(),
            ScriptError::MaxRetriesExhausted => "max_retries_exhausted: retry limit reached".to_owned(),
            ScriptError::StreamNotFound => "stream_not_found: no frames appended yet".to_owned(),
            ScriptError::StreamAlreadyClosed => "stream_already_closed: stream already closed".to_owned(),
            ScriptError::InvalidFrameType => "invalid_frame_type: unrecognized frame type".to_owned(),
            ScriptError::InvalidOffset => "invalid_offset: invalid stream ID offset".to_owned(),
            ScriptError::Unauthorized => "unauthorized: authentication/authorization failed".to_owned(),
            ScriptError::BudgetNotFound => "budget_not_found: budget does not exist".to_owned(),
            ScriptError::InvalidBudgetScope => "invalid_budget_scope: malformed budget scope".to_owned(),
            ScriptError::BudgetAttachConflict => "budget_attach_conflict: budget attachment conflict".to_owned(),
            ScriptError::BudgetOverrideNotAllowed => "budget_override_not_allowed: insufficient privileges".to_owned(),
            ScriptError::QuotaPolicyNotFound => "quota_policy_not_found: quota policy does not exist".to_owned(),
            ScriptError::RateLimitExceeded => "rate_limit_exceeded: rate limit window full".to_owned(),
            ScriptError::ConcurrencyLimitExceeded => "concurrency_limit_exceeded: concurrency cap reached".to_owned(),
            ScriptError::QuotaAttachConflict => "quota_attach_conflict: quota policy already attached".to_owned(),
            ScriptError::InvalidQuotaSpec => "invalid_quota_spec: malformed quota policy definition".to_owned(),
            ScriptError::InvalidInput(d) => prefixed("invalid_input: ", d.as_str()),
            ScriptError::CapabilityMismatch(d) => prefixed("capability_mismatch: missing ", d.as_str()),
            ScriptError::InvalidCapabilities(d) => prefixed("invalid_capabilities: ", d.as_str()),
            ScriptError::InvalidPolicyJson(d) => prefixed("invalid_policy_json: ", d.as_str()),
            ScriptError::WaitpointNotTokenBound => "waitpoint_not_token_bound".to_owned(),
            ScriptError::InvalidTagKey(d) => prefixed("invalid_tag_key: ", d.as_str()),
            ScriptError::InvalidKid => "invalid_kid: kid is empty or contains a separator".to_owned(),
            ScriptError::InvalidSecretHex => "invalid_secret_hex: secret is not an even-length hex string".to_owned(),
            ScriptError::InvalidGraceMs => "invalid_grace_ms: grace period is not a non-negative integer".to_owned(),
            ScriptError::RotationConflict(d) => prefixed("rotation_conflict: ", d.as_str()),
        }
    }
}

} // verus!
