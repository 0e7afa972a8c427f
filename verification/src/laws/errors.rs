//! What errors are for: what each becomes on its way to a caller, and what a caller is
//! to do about it.

use vstd::prelude::*;
use vstd::string::*;

use crate::engine_error;
use crate::engine_error::{ConflictKind, EngineError, StateKind, TransportSource, ValidationKind};
use crate::error::ScriptError;
use crate::error_laws;
use crate::retry;

verus! {

/// An error of a server function keeps its name and what it carries when it becomes an
/// error of the engine. What is missing is named by what it is; what has no form of its
/// own is kept inside a transport fault.
#[verifier::rlimit(50)]
pub proof fn law_errors_keep_their_names(e: ScriptError<Seq<char>>, x: EngineError<Seq<char>>)
    requires
        x == engine_error::engine_error_of(e),
    ensures
        e is ExecutionNotFound ==> (x matches EngineError::NotFound { entity } && entity == "execution"),
        e is FlowNotFound ==> (x matches EngineError::NotFound { entity } && entity == "flow"),
        e is AttemptNotFound ==> (x matches EngineError::NotFound { entity } && entity == "attempt"),
        e is BudgetNotFound ==> (x matches EngineError::NotFound { entity } && entity == "budget"),
        e is QuotaPolicyNotFound ==> (x matches EngineError::NotFound { entity } && entity == "quota_policy"),
        e is StreamNotFound ==> (x matches EngineError::NotFound { entity } && entity == "stream"),
        e matches ScriptError::InvalidInput(d) ==> (x matches EngineError::Validation { kind, detail } && kind == ValidationKind::InvalidInput && detail == d),
        e matches ScriptError::CapabilityMismatch(d) ==> (x matches EngineError::Validation { kind, detail } && kind == ValidationKind::CapabilityMismatch && detail == d),
        e matches ScriptError::InvalidCapabilities(d) ==> (x matches EngineError::Validation { kind, detail } && kind == ValidationKind::InvalidCapabilities && detail == d),
        e matches ScriptError::InvalidPolicyJson(d) ==> (x matches EngineError::Validation { kind, detail } && kind == ValidationKind::InvalidPolicyJson && detail == d),
        e matches ScriptError::InvalidTagKey(d) ==> (x matches EngineError::Validation { kind, detail } && kind == ValidationKind::InvalidTagKey && detail == d),
        e is PayloadTooLarge ==> (x matches EngineError::Validation { kind, detail } && kind == ValidationKind::PayloadTooLarge && detail.len() == 0),
        e is SignalLimitExceeded ==> (x matches EngineError::Validation { kind, detail } && kind == ValidationKind::SignalLimitExceeded && detail.len() == 0),
        e is InvalidWaitpointKey ==> (x matches EngineError::Validation { kind, detail } && kind == ValidationKind::InvalidWaitpointKey && detail.len() == 0),
        e is WaitpointNotTokenBound ==> (x matches EngineError::Validation { kind, detail } && kind == ValidationKind::WaitpointNotTokenBound && detail.len() == 0),
        e is RetentionLimitExceeded ==> (x matches EngineError::Validation { kind, detail } && kind == ValidationKind::RetentionLimitExceeded && detail.len() == 0),
        e is InvalidLeaseForSuspend ==> (x matches EngineError::Validation { kind, detail } && kind == ValidationKind::InvalidLeaseForSuspend && detail.len() == 0),
        e is InvalidDependency ==> (x matches EngineError::Validation { kind, detail } && kind == ValidationKind::InvalidDependency && detail.len() == 0),
        e is InvalidWaitpointForExecution ==> (x matches EngineError::Validation { kind, detail } && kind == ValidationKind::InvalidWaitpointForExecution && detail.len() == 0),
        e is InvalidBlockingReason ==> (x matches EngineError::Validation { kind, detail } && kind == ValidationKind::InvalidBlockingReason && detail.len() == 0),
        e is InvalidOffset ==> (x matches EngineError::Validation { kind, detail } && kind == ValidationKind::InvalidOffset && detail.len() == 0),
        e is Unauthorized ==> (x matches EngineError::Validation { kind, detail } && kind == ValidationKind::Unauthorized && detail.len() == 0),
        e is InvalidBudgetScope ==> (x matches EngineError::Validation { kind, detail } && kind == ValidationKind::InvalidBudgetScope && detail.len() == 0),
        e is BudgetOverrideNotAllowed ==> (x matches EngineError::Validation { kind, detail } && kind == ValidationKind::BudgetOverrideNotAllowed && detail.len() == 0),
        e is InvalidQuotaSpec ==> (x matches EngineError::Validation { kind, detail } && kind == ValidationKind::InvalidQuotaSpec && detail.len() == 0),
        e is InvalidKid ==> (x matches EngineError::Validation { kind, detail } && kind == ValidationKind::InvalidKid && detail.len() == 0),
        e is InvalidSecretHex ==> (x matches EngineError::Validation { kind, detail } && kind == ValidationKind::InvalidSecretHex && detail.len() == 0),
        e is InvalidGraceMs ==> (x matches EngineError::Validation { kind, detail } && kind == ValidationKind::InvalidGraceMs && detail.len() == 0),
        e is InvalidFrameType ==> (x matches EngineError::Validation { kind, detail } && kind == ValidationKind::InvalidFrameType && detail.len() == 0),
        e is UseClaimResumedExecution ==> (x matches EngineError::Contention(kind) && kind is UseClaimResumedExecution),
        e is NotAResumedExecution ==> (x matches EngineError::Contention(kind) && kind is NotAResumedExecution),
        e is ExecutionNotLeaseable ==> (x matches EngineError::Contention(kind) && kind is ExecutionNotLeaseable),
        e is LeaseConflict ==> (x matches EngineError::Contention(kind) && kind is LeaseConflict),
        e is InvalidClaimGrant ==> (x matches EngineError::Contention(kind) && kind is InvalidClaimGrant),
        e is ClaimGrantExpired ==> (x matches EngineError::Contention(kind) && kind is ClaimGrantExpired),
        e is NoEligibleExecution ==> (x matches EngineError::Contention(kind) && kind is NoEligibleExecution),
        e is WaitpointNotFound ==> (x matches EngineError::Contention(kind) && kind is WaitpointNotFound),
        e is WaitpointPendingUseBufferScript ==> (x matches EngineError::Contention(kind) && kind is WaitpointPendingUseBufferScript),
        e is StaleGraphRevision ==> (x matches EngineError::Contention(kind) && kind is StaleGraphRevision),
        e is ExecutionNotActive ==> (x matches EngineError::Contention(kind)
            && kind is ExecutionNotActive && error_laws::details_of(e) == seq![
            kind->terminal_outcome,
            kind->lease_epoch,
            kind->lifecycle_phase,
            kind->attempt_id,
        ]),
        e is ExecutionNotEligible ==> (x matches EngineError::Contention(kind) && kind is ExecutionNotEligible),
        e is ExecutionNotInEligibleSet ==> (x matches EngineError::Contention(kind) && kind is ExecutionNotInEligibleSet),
        e is ExecutionNotReclaimable ==> (x matches EngineError::Contention(kind) && kind is ExecutionNotReclaimable),
        e is NoActiveLease ==> (x matches EngineError::Contention(kind) && kind is NoActiveLease),
        e is RateLimitExceeded ==> (x matches EngineError::Contention(kind) && kind is RateLimitExceeded),
        e is ConcurrencyLimitExceeded ==> (x matches EngineError::Contention(kind) && kind is ConcurrencyLimitExceeded),
        e is DependencyAlreadyExists ==> x == (EngineError::<Seq<char>>::Transport { backend: "valkey", source: TransportSource::Script(e) }),
        e is CycleDetected ==> (x matches EngineError::Conflict(kind) && kind is CycleDetected),
        e is SelfReferencingEdge ==> (x matches EngineError::Conflict(kind) && kind is SelfReferencingEdge),
        e is ExecutionAlreadyInFlow ==> (x matches EngineError::Conflict(kind) && kind is ExecutionAlreadyInFlow),
        e is WaitpointAlreadyExists ==> (x matches EngineError::Conflict(kind) && kind is WaitpointAlreadyExists),
        e is BudgetAttachConflict ==> (x matches EngineError::Conflict(kind) && kind is BudgetAttachConflict),
        e is QuotaAttachConflict ==> (x matches EngineError::Conflict(kind) && kind is QuotaAttachConflict),
        e matches ScriptError::RotationConflict(d) ==> (x matches EngineError::Conflict(ConflictKind::RotationConflict(k)) && k == d),
        e is ActiveAttemptExists ==> (x matches EngineError::Conflict(kind) && kind is ActiveAttemptExists),
        e is StaleLease ==> (x matches EngineError::State(kind) && kind == StateKind::StaleLease),
        e is LeaseExpired ==> (x matches EngineError::State(kind) && kind == StateKind::LeaseExpired),
        e is LeaseRevoked ==> (x matches EngineError::State(kind) && kind == StateKind::LeaseRevoked),
        e is ExecutionNotSuspended ==> (x matches EngineError::State(kind) && kind == StateKind::ExecutionNotSuspended),
        e is AlreadySuspended ==> (x matches EngineError::State(kind) && kind == StateKind::AlreadySuspended),
        e is WaitpointClosed ==> (x matches EngineError::State(kind) && kind == StateKind::WaitpointClosed),
        e is TargetNotSignalable ==> (x matches EngineError::State(kind) && kind == StateKind::TargetNotSignalable),
        e is DuplicateSignal ==> (x matches EngineError::State(kind) && kind == StateKind::DuplicateSignal),
        e is ResumeConditionNotMet ==> (x matches EngineError::State(kind) && kind == StateKind::ResumeConditionNotMet),
        e is WaitpointNotPending ==> (x matches EngineError::State(kind) && kind == StateKind::WaitpointNotPending),
        e is PendingWaitpointExpired ==> (x matches EngineError::State(kind) && kind == StateKind::PendingWaitpointExpired),
        e is WaitpointNotOpen ==> (x matches EngineError::State(kind) && kind == StateKind::WaitpointNotOpen),
        e is ExecutionNotTerminal ==> (x matches EngineError::State(kind) && kind == StateKind::ExecutionNotTerminal),
        e is MaxReplaysExhausted ==> (x matches EngineError::State(kind) && kind == StateKind::MaxReplaysExhausted),
        e is StreamClosed ==> (x matches EngineError::State(kind) && kind == StateKind::StreamClosed),
        e is StaleOwnerCannotAppend ==> (x matches EngineError::State(kind) && kind == StateKind::StaleOwnerCannotAppend),
        e is GrantAlreadyExists ==> (x matches EngineError::State(kind) && kind == StateKind::GrantAlreadyExists),
        e is ExecutionNotInFlow ==> (x matches EngineError::State(kind) && kind == StateKind::ExecutionNotInFlow),
        e is FlowAlreadyTerminal ==> (x matches EngineError::State(kind) && kind == StateKind::FlowAlreadyTerminal),
        e is DepsNotSatisfied ==> (x matches EngineError::State(kind) && kind == StateKind::DepsNotSatisfied),
        e is NotBlockedByDeps ==> (x matches EngineError::State(kind) && kind == StateKind::NotBlockedByDeps),
        e is NotRunnable ==> (x matches EngineError::State(kind) && kind == StateKind::NotRunnable),
        e is Terminal ==> (x matches EngineError::State(kind) && kind == StateKind::Terminal),
        e is BudgetExceeded ==> (x matches EngineError::State(kind) && kind == StateKind::BudgetExceeded),
        e is BudgetSoftExceeded ==> (x matches EngineError::State(kind) && kind == StateKind::BudgetSoftExceeded),
        e is OkAlreadyApplied ==> (x matches EngineError::State(kind) && kind == StateKind::OkAlreadyApplied),
        e is AttemptNotStarted ==> (x matches EngineError::State(kind) && kind == StateKind::AttemptNotStarted),
        e is AttemptAlreadyTerminal ==> (x matches EngineError::State(kind) && kind == StateKind::AttemptAlreadyTerminal),
        e is ExecutionNotEligibleForAttempt ==> (x matches EngineError::State(kind) && kind == StateKind::ExecutionNotEligibleForAttempt),
        e is ReplayNotAllowed ==> (x matches EngineError::State(kind) && kind == StateKind::ReplayNotAllowed),
        e is MaxRetriesExhausted ==> (x matches EngineError::State(kind) && kind == StateKind::MaxRetriesExhausted),
        e is StreamAlreadyClosed ==> (x matches EngineError::State(kind) && kind == StateKind::StreamAlreadyClosed),
        e is AttemptNotInCreatedState ==> (x matches EngineError::Bug(kind) && kind is AttemptNotInCreatedState),
        e is Parse ==> x == (EngineError::<Seq<char>>::Transport { backend: "valkey", source: TransportSource::Script(e) }),
        e is Valkey ==> x == (EngineError::<Seq<char>>::Transport { backend: "valkey", source: TransportSource::Script(e) }),
{
}

/// Two errors become the same error of the engine only if they are the same.
#[verifier::rlimit(100)]
#[verifier::spinoff_prover]
pub proof fn law_errors_stay_apart(a: ScriptError<Seq<char>>, b: ScriptError<Seq<char>>)
    requires
        engine_error::engine_error_of(a) == engine_error::engine_error_of(b),
    ensures
        a == b,
{
    reveal_strlit("execution");
    reveal_strlit("flow");
    reveal_strlit("attempt");
    reveal_strlit("budget");
    reveal_strlit("quota_policy");
    reveal_strlit("stream");
    assert("execution"@.len() == 9 && "flow"@.len() == 4 && "attempt"@.len() == 7);
    assert("budget"@.len() == 6 && "quota_policy"@.len() == 12 && "stream"@.len() == 6);
    assert("budget"@[0] == 'b' && "stream"@[0] == 's');
}

/// Which errors are worth another try, which call for nothing, which for an action, and
/// which should not happen. All others end the work.
pub proof fn law_error_classes(e: ScriptError<Seq<char>>)
    ensures
        e.class_spec() is Retryable <==> (e is UseClaimResumedExecution || e is NotAResumedExecution || e is ExecutionNotLeaseable || e is LeaseConflict || e is InvalidClaimGrant || e is ClaimGrantExpired || e is NoEligibleExecution || e is WaitpointNotFound || e is WaitpointPendingUseBufferScript || e is StaleGraphRevision || e is RateLimitExceeded || e is ConcurrencyLimitExceeded || e is CapabilityMismatch || e is InvalidOffset || (e matches ScriptError::Valkey(f) && retry::retryable_kind(f.kind))),
        e.class_spec() is Cooperative <==> (e is BudgetExceeded),
        e.class_spec() is Informational <==> (e is ExecutionNotSuspended || e is AlreadySuspended || e is WaitpointClosed || e is DuplicateSignal || e is ExecutionNotEligible || e is ExecutionNotInEligibleSet || e is GrantAlreadyExists || e is ExecutionNotReclaimable || e is NoActiveLease || e is OkAlreadyApplied || e is AttemptAlreadyTerminal || e is StreamAlreadyClosed || e is BudgetSoftExceeded || e is WaitpointAlreadyExists || e is WaitpointNotOpen || e is WaitpointNotPending || e is PendingWaitpointExpired || e is NotBlockedByDeps || e is DepsNotSatisfied),
        e.class_spec() is Bug <==> (e is ActiveAttemptExists || e is AttemptNotInCreatedState),
        e.class_spec() is Expected <==> (e is StreamNotFound),
        e.class_spec() is SoftError <==> (e is InvalidFrameType),
        !(e.class_spec() is Advisory),
{
}

/// Contention and exhausted resources pass; a budget that is used up calls for an action;
/// states that are as they should be call for nothing; what the engine calls a bug is one;
/// all other answers end the work. A server function's error inside a transport fault
/// keeps its own class.
pub proof fn law_engine_error_classes<S>(e: EngineError<S>)
    ensures
        e is Contention ==> e.class_spec() is Retryable,
        e is ResourceExhausted ==> e.class_spec() is Retryable,
        e is NotFound ==> e.class_spec() is Terminal,
        e is Validation ==> e.class_spec() is Terminal,
        e is Conflict ==> e.class_spec() is Terminal,
        e is Bug ==> e.class_spec() is Bug,
        e is Unavailable ==> e.class_spec() is Terminal,
        e is Timeout ==> e.class_spec() is Terminal,
        e is StreamDisconnected ==> e.class_spec() is Terminal,
        e is StreamBackpressure ==> e.class_spec() is Informational,
        (e is Transport && e->Transport_source is Other) ==> e.class_spec() is Terminal,
        e matches EngineError::State(k) ==> {
            &&& e.class_spec() is Cooperative <==> k is BudgetExceeded
            &&& e.class_spec() is Informational <==> (k is ExecutionNotSuspended
                || k is AlreadySuspended || k is AlreadySatisfied || k is WaitpointClosed
                || k is DuplicateSignal || k is GrantAlreadyExists || k is OkAlreadyApplied
                || k is AttemptAlreadyTerminal || k is StreamAlreadyClosed
                || k is BudgetSoftExceeded || k is WaitpointNotOpen || k is WaitpointNotPending
                || k is PendingWaitpointExpired || k is NotBlockedByDeps || k is DepsNotSatisfied)
            &&& e.class_spec() is Cooperative || e.class_spec() is Informational
                || e.class_spec() is Terminal
        },
{
}

} // verus!
