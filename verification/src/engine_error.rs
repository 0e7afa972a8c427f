//! Typed engine errors, and how the errors of server functions map to them.

use vstd::prelude::*;
use vstd::std_specs::convert::FromSpecImpl;

use crate::error::{ErrorClass, ScriptError};
use crate::retry::ErrorKind;
use crate::text;

verus! {

/// A dependency edge as stored on its flow.
#[derive(Debug)]
pub struct EdgeSnapshot<S = String> {
    pub edge_id: S,
    pub flow_id: S,
    pub upstream_execution_id: S,
    pub downstream_execution_id: S,
    pub dependency_kind: S,
    pub satisfaction_condition: S,
    pub data_passing_ref: Option<S>,
    pub edge_state: S,
    pub created_at: i64,
    pub created_by: S,
}

impl View for EdgeSnapshot {
    type V = EdgeSnapshot<Seq<char>>;

    open spec fn view(&self) -> EdgeSnapshot<Seq<char>> {
        EdgeSnapshot {
            edge_id: self.edge_id@,
            flow_id: self.flow_id@,
            upstream_execution_id: self.upstream_execution_id@,
            downstream_execution_id: self.downstream_execution_id@,
            dependency_kind: self.dependency_kind@,
            satisfaction_condition: self.satisfaction_condition@,
            data_passing_ref: text::opt_text(self.data_passing_ref),
            edge_state: self.edge_state@,
            created_at: self.created_at,
            created_by: self.created_by@,
        }
    }
}

/// What was wrong with a caller's input.
#[derive(Clone, Copy, Debug, PartialEq, Eq, Structural)]
pub enum ValidationKind {
    InvalidInput,
    CapabilityMismatch,
    InvalidCapabilities,
    InvalidPolicyJson,
    PayloadTooLarge,
    SignalLimitExceeded,
    InvalidWaitpointKey,
    InvalidToken,
    WaitpointNotTokenBound,
    RetentionLimitExceeded,
    InvalidLeaseForSuspend,
    InvalidDependency,
    InvalidWaitpointForExecution,
    InvalidBlockingReason,
    InvalidOffset,
    Unauthorized,
    InvalidBudgetScope,
    BudgetOverrideNotAllowed,
    InvalidQuotaSpec,
    InvalidKid,
    InvalidSecretHex,
    InvalidGraceMs,
    InvalidTagKey,
    InvalidFrameType,
    Corruption,
    HandleFromOtherBackend,
}

/// State that a retry may find changed.
#[derive(Debug)]
pub enum ContentionKind<S = String> {
    UseClaimResumedExecution,
    NotAResumedExecution,
    ExecutionNotLeaseable,
    LeaseConflict,
    InvalidClaimGrant,
    ClaimGrantExpired,
    NoEligibleExecution,
    WaitpointNotFound,
    WaitpointPendingUseBufferScript,
    StaleGraphRevision,
    ExecutionNotActive { terminal_outcome: S, lease_epoch: S, lifecycle_phase: S, attempt_id: S },
    ExecutionNotEligible,
    ExecutionNotInEligibleSet,
    ExecutionNotReclaimable,
    NoActiveLease,
    RateLimitExceeded,
    ConcurrencyLimitExceeded,
    RetryExhausted,
}

/// State that contradicts the request.
#[derive(Debug)]
pub enum ConflictKind<S = String> {
    /// The edge is already there: `existing`.
    DependencyAlreadyExists { existing: EdgeSnapshot<S> },
    CycleDetected,
    SelfReferencingEdge,
    ExecutionAlreadyInFlow,
    WaitpointAlreadyExists,
    BudgetAttachConflict,
    QuotaAttachConflict,
    RotationConflict(S),
    ActiveAttemptExists,
}

/// State in which the request makes no sense.
#[derive(Clone, Copy, Debug, PartialEq, Eq, Structural)]
pub enum StateKind {
    StaleLease,
    LeaseExpired,
    LeaseRevoked,
    ExecutionNotSuspended,
    AlreadySuspended,
    WaitpointClosed,
    TargetNotSignalable,
    DuplicateSignal,
    ResumeConditionNotMet,
    WaitpointNotPending,
    PendingWaitpointExpired,
    WaitpointNotOpen,
    ExecutionNotTerminal,
    MaxReplaysExhausted,
    StreamClosed,
    StaleOwnerCannotAppend,
    GrantAlreadyExists,
    ExecutionNotInFlow,
    FlowAlreadyTerminal,
    DepsNotSatisfied,
    NotBlockedByDeps,
    NotRunnable,
    Terminal,
    BudgetExceeded,
    BudgetSoftExceeded,
    OkAlreadyApplied,
    AttemptNotStarted,
    AttemptAlreadyTerminal,
    ExecutionNotEligibleForAttempt,
    ReplayNotAllowed,
    MaxRetriesExhausted,
    StreamAlreadyClosed,
    AlreadySatisfied,
}

/// Broken invariants.
#[derive(Clone, Copy, Debug, PartialEq, Eq, Structural)]
pub enum BugKind {
    AttemptNotInCreatedState,
}

/// What lies under a transport error: an error of a server function, or any
/// other fault, as rendered text.
#[derive(Debug)]
pub enum TransportSource<S = String> {
    Script(ScriptError<S>),
    Other(S),
}

/// An error of the engine.
#[allow(inconsistent_fields)]
#[derive(Debug)]
pub enum EngineError<S = String> {
    NotFound { entity: &'static str },
    Validation { kind: ValidationKind, detail: S },
    Contention(ContentionKind<S>),
    Conflict(ConflictKind<S>),
    State(StateKind),
    Bug(BugKind),
    /// A fault below the engine. `backend` names the storage engine.
    Transport { backend: &'static str, source: TransportSource<S> },
    /// The backend does not offer the operation.
    Unavailable { op: &'static str },
    /// A pool has no free slot.
    ResourceExhausted { pool: &'static str, max: u32, retry_after_ms: Option<u32> },
    /// An operation ran out of time. `elapsed` is rendered.
    Timeout { op: &'static str, elapsed: S },
    /// The event stream ended, and can be resumed.
    StreamDisconnected,
    /// Events were dropped.
    StreamBackpressure,
    /// An error with the label of the call site.
    Contextual { source: Box<EngineError<S>>, context: S },
}

impl View for ContentionKind {
    type V = ContentionKind<Seq<char>>;

    open spec fn view(&self) -> ContentionKind<Seq<char>> {
        match *self {
            ContentionKind::UseClaimResumedExecution => ContentionKind::UseClaimResumedExecution,
            ContentionKind::NotAResumedExecution => ContentionKind::NotAResumedExecution,
            ContentionKind::ExecutionNotLeaseable => ContentionKind::ExecutionNotLeaseable,
            ContentionKind::LeaseConflict => ContentionKind::LeaseConflict,
            ContentionKind::InvalidClaimGrant => ContentionKind::InvalidClaimGrant,
            ContentionKind::ClaimGrantExpired => ContentionKind::ClaimGrantExpired,
            ContentionKind::NoEligibleExecution => ContentionKind::NoEligibleExecution,
            ContentionKind::WaitpointNotFound => ContentionKind::WaitpointNotFound,
            ContentionKind::WaitpointPendingUseBufferScript => ContentionKind::WaitpointPendingUseBufferScript,
            ContentionKind::StaleGraphRevision => ContentionKind::StaleGraphRevision,
            ContentionKind::ExecutionNotActive {
                terminal_outcome,
                lease_epoch,
                lifecycle_phase,
                attempt_id,
            } => ContentionKind::ExecutionNotActive {
                terminal_outcome: terminal_outcome@,
                lease_epoch: lease_epoch@,
                lifecycle_phase: lifecycle_phase@,
                attempt_id: attempt_id@,
            },
            ContentionKind::ExecutionNotEligible => ContentionKind::ExecutionNotEligible,
            ContentionKind::ExecutionNotInEligibleSet => ContentionKind::ExecutionNotInEligibleSet,
            ContentionKind::ExecutionNotReclaimable => ContentionKind::ExecutionNotReclaimable,
            ContentionKind::NoActiveLease => ContentionKind::NoActiveLease,
            ContentionKind::RateLimitExceeded => ContentionKind::RateLimitExceeded,
            ContentionKind::ConcurrencyLimitExceeded => ContentionKind::ConcurrencyLimitExceeded,
            ContentionKind::RetryExhausted => ContentionKind::RetryExhausted,
        }
    }
}

impl View for ConflictKind {
    type V = ConflictKind<Seq<char>>;

    open spec fn view(&self) -> ConflictKind<Seq<char>> {
        match *self {
            ConflictKind::DependencyAlreadyExists { existing } => ConflictKind::DependencyAlreadyExists {
                existing: existing@,
            },
            ConflictKind::CycleDetected => ConflictKind::CycleDetected,
            ConflictKind::SelfReferencingEdge => ConflictKind::SelfReferencingEdge,
            ConflictKind::ExecutionAlreadyInFlow => ConflictKind::ExecutionAlreadyInFlow,
            ConflictKind::WaitpointAlreadyExists => ConflictKind::WaitpointAlreadyExists,
            ConflictKind::BudgetAttachConflict => ConflictKind::BudgetAttachConflict,
            ConflictKind::QuotaAttachConflict => ConflictKind::QuotaAttachConflict,
            ConflictKind::RotationConflict(k) => ConflictKind::RotationConflict(k@),
            ConflictKind::ActiveAttemptExists => ConflictKind::ActiveAttemptExists,
        }
    }
}

impl View for TransportSource {
    type V = TransportSource<Seq<char>>;

    open spec fn view(&self) -> TransportSource<Seq<char>> {
        match *self {
            TransportSource::Script(e) => TransportSource::Script(e@),
            TransportSource::Other(t) => TransportSource::Other(t@),
        }
    }
}

/// The view of an engine error.
pub open spec fn engine_view(e: EngineError) -> EngineError<Seq<char>>
    decreases e,
{
    match e {
        EngineError::NotFound { entity } => EngineError::NotFound { entity },
        EngineError::Validation { kind, detail } => EngineError::Validation { kind, detail: detail@ },
        EngineError::Contention(k) => EngineError::Contention(k@),
        EngineError::Conflict(k) => EngineError::Conflict(k@),
        EngineError::State(k) => EngineError::State(k),
        EngineError::Bug(k) => EngineError::Bug(k),
        EngineError::Transport { backend, source } => EngineError::Transport {
            backend,
            source: source@,
        },
        EngineError::Unavailable { op } => EngineError::Unavailable { op },
        EngineError::ResourceExhausted { pool, max, retry_after_ms } => EngineError::ResourceExhausted {
            pool,
            max,
            retry_after_ms,
        },
        EngineError::Timeout { op, elapsed } => EngineError::Timeout { op, elapsed: elapsed@ },
        EngineError::StreamDisconnected => EngineError::StreamDisconnected,
        EngineError::StreamBackpressure => EngineError::StreamBackpressure,
        EngineError::Contextual { source, context } => EngineError::Contextual {
            source: Box::new(engine_view(*source)),
            context: context@,
        },
    }
}

impl View for EngineError {
    type V = EngineError<Seq<char>>;

    open spec fn view(&self) -> EngineError<Seq<char>> {
        engine_view(*self)
    }
}

impl<S> EngineError<S> {
    /// The error under every label.
    pub open spec fn innermost(self) -> EngineError<S>
        decreases self,
    {
        match self {
            EngineError::Contextual { source, .. } => (*source).innermost(),
            _ => self,
        }
    }

    /// Whether the error is a transport fault, under any number of labels.
    pub open spec fn is_transport_spec(self) -> bool {
        self.innermost() is Transport
    }

    /// The error of a server function that a transport fault carries.
    pub open spec fn script_spec(self) -> Option<ScriptError<S>> {
        match self.innermost() {
            EngineError::Transport { source: TransportSource::Script(e), .. } => Some(e),
            _ => None,
        }
    }

    /// The kind of the client fault that a transport fault carries.
    pub open spec fn kind_spec(self) -> Option<ErrorKind> {
        match self.script_spec() {
            Some(ScriptError::Valkey(e)) => Some(e.kind),
            _ => None,
        }
    }

    /// The class of an error by its own variant, labels aside. A transport fault
    /// is terminal here.
    pub open spec fn own_class_spec(self) -> ErrorClass {
        match self.innermost() {
            EngineError::Contention(_) | EngineError::ResourceExhausted { .. } => ErrorClass::Retryable,
            EngineError::State(StateKind::BudgetExceeded) => ErrorClass::Cooperative,
            EngineError::State(k) => if informational_state(k) {
                ErrorClass::Informational
            } else {
                ErrorClass::Terminal
            },
            EngineError::Bug(_) => ErrorClass::Bug,
            EngineError::StreamBackpressure => ErrorClass::Informational,
            _ => ErrorClass::Terminal,
        }
    }

    /// The class of an error: that of the server function's error inside a
    /// transport fault, and otherwise the variant's own.
    pub open spec fn class_spec(self) -> ErrorClass {
        match self.script_spec() {
            Some(e) => e.class_spec(),
            None => self.own_class_spec(),
        }
    }
}

/// States that call for nothing but a log line.
pub open spec fn informational_state(k: StateKind) -> bool {
    match k {
        StateKind::ExecutionNotSuspended
        | StateKind::AlreadySuspended
        | StateKind::AlreadySatisfied
        | StateKind::WaitpointClosed
        | StateKind::DuplicateSignal
        | StateKind::GrantAlreadyExists
        | StateKind::OkAlreadyApplied
        | StateKind::AttemptAlreadyTerminal
        | StateKind::StreamAlreadyClosed
        | StateKind::BudgetSoftExceeded
        | StateKind::WaitpointNotOpen
        | StateKind::WaitpointNotPending
        | StateKind::PendingWaitpointExpired
        | StateKind::NotBlockedByDeps
        | StateKind::DepsNotSatisfied => true,
        _ => false,
    }
}

impl EngineError {
    /// The class of the error by its own variant. A transport fault is terminal.
    pub fn class(&self) -> (r: ErrorClass)
        ensures
            r == self.own_class_spec(),
        decreases self,
    {
        match self {
            EngineError::Contention(_) | EngineError::ResourceExhausted { .. } => ErrorClass::Retryable,
            EngineError::State(k) => match k {
                StateKind::BudgetExceeded => ErrorClass::Cooperative,
                StateKind::ExecutionNotSuspended
                | StateKind::AlreadySuspended
                | StateKind::AlreadySatisfied
                | StateKind::WaitpointClosed
                | StateKind::DuplicateSignal
                | StateKind::GrantAlreadyExists
                | StateKind::OkAlreadyApplied
                | StateKind::AttemptAlreadyTerminal
                | StateKind::StreamAlreadyClosed
                | StateKind::BudgetSoftExceeded
                | StateKind::WaitpointNotOpen
                | StateKind::WaitpointNotPending
                | StateKind::PendingWaitpointExpired
                | StateKind::NotBlockedByDeps
                | StateKind::DepsNotSatisfied => ErrorClass::Informational,
                _ => ErrorClass::Terminal,
            },
            EngineError::Bug(_) => ErrorClass::Bug,
            EngineError::StreamBackpressure => ErrorClass::Informational,
            EngineError::Contextual { source, .. } => source.class(),
            _ => ErrorClass::Terminal,
        }
    }
}

/// A Valkey transport error around a server function's error.
pub fn transport_script(err: ScriptError) -> (r: EngineError)
    ensures
        r == (EngineError::<String>::Transport {
            backend: "valkey",
            source: TransportSource::Script(err),
        }),
{
    EngineError::Transport { backend: "valkey", source: TransportSource::Script(err) }
}

/// The server function's error inside a transport error, under any number of
/// labels.
pub fn transport_script_ref(err: &EngineError) -> (r: Option<&ScriptError>)
    ensures
        match err.script_spec() {
            Some(e) => r matches Some(x) && *x == e,
            None => r is None,
        },
    decreases err,
{
    match err {
        EngineError::Transport { source, .. } => match source {
            TransportSource::Script(e) => Some(e),
            TransportSource::Other(_) => None,
        },
        EngineError::Contextual { source, .. } => transport_script_ref(source),
        _ => None,
    }
}

/// The kind of the client fault inside a transport error.
pub fn valkey_kind(err: &EngineError) -> (r: Option<ErrorKind>)
    ensures
        r == err.kind_spec(),
{
    match transport_script_ref(err) {
        Some(e) => e.valkey_kind(),
        None => None,
    }
}

/// The class of an error, reading through labels and transport errors.
pub fn class(err: &EngineError) -> (r: ErrorClass)
    ensures
        r == err.class_spec(),
    decreases err,
{
    match err {
        EngineError::Transport { source, .. } => match source {
            TransportSource::Script(e) => e.class(),
            TransportSource::Other(_) => ErrorClass::Terminal,
        },
        EngineError::Contextual { source, .. } => class(source),
        other => other.class(),
    }
}

/// Whether the error is a transport fault, under any number of labels.
pub fn is_transport(err: &EngineError) -> (r: bool)
    ensures
        r == err.is_transport_spec(),
    decreases err,
{
    match err {
        EngineError::Transport { .. } => true,
        EngineError::Contextual { source, .. } => is_transport(source),
        _ => false,
    }
}

/// A rejected input without a detail.
pub open spec fn plain(kind: ValidationKind) -> EngineError<Seq<char>> {
    EngineError::Validation { kind, detail: Seq::empty() }
}

/// The engine error that a server function's error becomes. An error without an
/// engine form of its own stays inside a transport error: an unreadable reply, a
/// client fault, and a duplicate edge, whose engine form needs the stored edge.
pub open spec fn engine_error_of(e: ScriptError<Seq<char>>) -> EngineError<Seq<char>> {
    match e {
        ScriptError::ExecutionNotFound => EngineError::NotFound { entity: "execution" },
        ScriptError::FlowNotFound => EngineError::NotFound { entity: "flow" },
        ScriptError::AttemptNotFound => EngineError::NotFound { entity: "attempt" },
        ScriptError::BudgetNotFound => EngineError::NotFound { entity: "budget" },
        ScriptError::QuotaPolicyNotFound => EngineError::NotFound { entity: "quota_policy" },
        ScriptError::StreamNotFound => EngineError::NotFound { entity: "stream" },
        ScriptError::InvalidInput(d) => EngineError::Validation {
            kind: ValidationKind::InvalidInput,
            detail: d,
        },
        ScriptError::CapabilityMismatch(d) => EngineError::Validation {
            kind: ValidationKind::CapabilityMismatch,
            detail: d,
        },
        ScriptError::InvalidCapabilities(d) => EngineError::Validation {
            kind: ValidationKind::InvalidCapabilities,
            detail: d,
        },
        ScriptError::InvalidPolicyJson(d) => EngineError::Validation {
            kind: ValidationKind::InvalidPolicyJson,
            detail: d,
        },
        ScriptError::InvalidTagKey(d) => EngineError::Validation {
            kind: ValidationKind::InvalidTagKey,
            detail: d,
        },
        ScriptError::PayloadTooLarge => plain(ValidationKind::PayloadTooLarge),
        ScriptError::SignalLimitExceeded => plain(ValidationKind::SignalLimitExceeded),
        ScriptError::InvalidWaitpointKey => plain(ValidationKind::InvalidWaitpointKey),
        ScriptError::WaitpointNotTokenBound => plain(ValidationKind::WaitpointNotTokenBound),
        ScriptError::RetentionLimitExceeded => plain(ValidationKind::RetentionLimitExceeded),
        ScriptError::InvalidLeaseForSuspend => plain(ValidationKind::InvalidLeaseForSuspend),
        ScriptError::InvalidDependency => plain(ValidationKind::InvalidDependency),
        ScriptError::InvalidWaitpointForExecution => plain(ValidationKind::InvalidWaitpointForExecution),
        ScriptError::InvalidBlockingReason => plain(ValidationKind::InvalidBlockingReason),
        ScriptError::InvalidOffset => plain(ValidationKind::InvalidOffset),
        ScriptError::Unauthorized => plain(ValidationKind::Unauthorized),
        ScriptError::InvalidBudgetScope => plain(ValidationKind::InvalidBudgetScope),
        ScriptError::BudgetOverrideNotAllowed => plain(ValidationKind::BudgetOverrideNotAllowed),
        ScriptError::InvalidQuotaSpec => plain(ValidationKind::InvalidQuotaSpec),
        ScriptError::InvalidKid => plain(ValidationKind::InvalidKid),
        ScriptError::InvalidSecretHex => plain(ValidationKind::InvalidSecretHex),
        ScriptError::InvalidGraceMs => plain(ValidationKind::InvalidGraceMs),
        ScriptError::InvalidFrameType => plain(ValidationKind::InvalidFrameType),
        ScriptError::UseClaimResumedExecution => EngineError::Contention(
            ContentionKind::UseClaimResumedExecution,
        ),
        ScriptError::NotAResumedExecution => EngineError::Contention(
            ContentionKind::NotAResumedExecution,
        ),
        ScriptError::ExecutionNotLeaseable => EngineError::Contention(
            ContentionKind::ExecutionNotLeaseable,
        ),
        ScriptError::LeaseConflict => EngineError::Contention(
            ContentionKind::LeaseConflict,
        ),
        ScriptError::InvalidClaimGrant => EngineError::Contention(
            ContentionKind::InvalidClaimGrant,
        ),
        ScriptError::ClaimGrantExpired => EngineError::Contention(
            ContentionKind::ClaimGrantExpired,
        ),
        ScriptError::NoEligibleExecution => EngineError::Contention(
            ContentionKind::NoEligibleExecution,
        ),
        ScriptError::WaitpointNotFound => EngineError::Contention(
            ContentionKind::WaitpointNotFound,
        ),
        ScriptError::WaitpointPendingUseBufferScript => EngineError::Contention(
            ContentionKind::WaitpointPendingUseBufferScript,
        ),
        ScriptError::StaleGraphRevision => EngineError::Contention(
            ContentionKind::StaleGraphRevision,
        ),
        ScriptError::ExecutionNotEligible => EngineError::Contention(
            ContentionKind::ExecutionNotEligible,
        ),
        ScriptError::ExecutionNotInEligibleSet => EngineError::Contention(
            ContentionKind::ExecutionNotInEligibleSet,
        ),
        ScriptError::ExecutionNotReclaimable => EngineError::Contention(
            ContentionKind::ExecutionNotReclaimable,
        ),
        ScriptError::NoActiveLease => EngineError::Contention(
            ContentionKind::NoActiveLease,
        ),
        ScriptError::RateLimitExceeded => EngineError::Contention(
            ContentionKind::RateLimitExceeded,
        ),
        ScriptError::ConcurrencyLimitExceeded => EngineError::Contention(
            ContentionKind::ConcurrencyLimitExceeded,
        ),
        ScriptError::ExecutionNotActive {
            terminal_outcome,
            lease_epoch,
            lifecycle_phase,
            attempt_id,
        } => EngineError::Contention(
            ContentionKind::ExecutionNotActive {
                terminal_outcome,
                lease_epoch,
                lifecycle_phase,
                attempt_id,
            },
        ),
        ScriptError::CycleDetected => EngineError::Conflict(ConflictKind::CycleDetected),
        ScriptError::SelfReferencingEdge => EngineError::Conflict(ConflictKind::SelfReferencingEdge),
        ScriptError::ExecutionAlreadyInFlow => EngineError::Conflict(ConflictKind::ExecutionAlreadyInFlow),
        ScriptError::WaitpointAlreadyExists => EngineError::Conflict(ConflictKind::WaitpointAlreadyExists),
        ScriptError::BudgetAttachConflict => EngineError::Conflict(ConflictKind::BudgetAttachConflict),
        ScriptError::QuotaAttachConflict => EngineError::Conflict(ConflictKind::QuotaAttachConflict),
        ScriptError::ActiveAttemptExists => EngineError::Conflict(ConflictKind::ActiveAttemptExists),
        ScriptError::RotationConflict(kid) => EngineError::Conflict(
            ConflictKind::RotationConflict(kid),
        ),
        ScriptError::StaleLease => EngineError::State(StateKind::StaleLease),
        ScriptError::LeaseExpired => EngineError::State(StateKind::LeaseExpired),
        ScriptError::LeaseRevoked => EngineError::State(StateKind::LeaseRevoked),
        ScriptError::ExecutionNotSuspended => EngineError::State(StateKind::ExecutionNotSuspended),
        ScriptError::AlreadySuspended => EngineError::State(StateKind::AlreadySuspended),
        ScriptError::WaitpointClosed => EngineError::State(StateKind::WaitpointClosed),
        ScriptError::TargetNotSignalable => EngineError::State(StateKind::TargetNotSignalable),
        ScriptError::DuplicateSignal => EngineError::State(StateKind::DuplicateSignal),
        ScriptError::ResumeConditionNotMet => EngineError::State(StateKind::ResumeConditionNotMet),
        ScriptError::WaitpointNotPending => EngineError::State(StateKind::WaitpointNotPending),
        ScriptError::PendingWaitpointExpired => EngineError::State(StateKind::PendingWaitpointExpired),
        ScriptError::WaitpointNotOpen => EngineError::State(StateKind::WaitpointNotOpen),
        ScriptError::ExecutionNotTerminal => EngineError::State(StateKind::ExecutionNotTerminal),
        ScriptError::MaxReplaysExhausted => EngineError::State(StateKind::MaxReplaysExhausted),
        ScriptError::StreamClosed => EngineError::State(StateKind::StreamClosed),
        ScriptError::StaleOwnerCannotAppend => EngineError::State(StateKind::StaleOwnerCannotAppend),
        ScriptError::GrantAlreadyExists => EngineError::State(StateKind::GrantAlreadyExists),
        ScriptError::ExecutionNotInFlow => EngineError::State(StateKind::ExecutionNotInFlow),
        ScriptError::FlowAlreadyTerminal => EngineError::State(StateKind::FlowAlreadyTerminal),
        ScriptError::DepsNotSatisfied => EngineError::State(StateKind::DepsNotSatisfied),
        ScriptError::NotBlockedByDeps => EngineError::State(StateKind::NotBlockedByDeps),
        ScriptError::NotRunnable => EngineError::State(StateKind::NotRunnable),
        ScriptError::Terminal => EngineError::State(StateKind::Terminal),
        ScriptError::BudgetExceeded => EngineError::State(StateKind::BudgetExceeded),
        ScriptError::BudgetSoftExceeded => EngineError::State(StateKind::BudgetSoftExceeded),
        ScriptError::OkAlreadyApplied => EngineError::State(StateKind::OkAlreadyApplied),
        ScriptError::AttemptNotStarted => EngineError::State(StateKind::AttemptNotStarted),
        ScriptError::AttemptAlreadyTerminal => EngineError::State(StateKind::AttemptAlreadyTerminal),
        ScriptError::ExecutionNotEligibleForAttempt => EngineError::State(StateKind::ExecutionNotEligibleForAttempt),
        ScriptError::ReplayNotAllowed => EngineError::State(StateKind::ReplayNotAllowed),
        ScriptError::MaxRetriesExhausted => EngineError::State(StateKind::MaxRetriesExhausted),
        ScriptError::StreamAlreadyClosed => EngineError::State(StateKind::StreamAlreadyClosed),
        ScriptError::AttemptNotInCreatedState => EngineError::Bug(
            BugKind::AttemptNotInCreatedState,
        ),
        ScriptError::DependencyAlreadyExists
        | ScriptError::Parse { .. }
        | ScriptError::Valkey(_) => EngineError::Transport {
            backend: "valkey",
            source: TransportSource::Script(e),
        },
    }
}

fn no_detail(kind: ValidationKind) -> (r: EngineError)
    ensures
        r@ == plain(kind),
{
    EngineError::Validation { kind, detail: String::new() }
}

/// The engine error that a server function's error becomes.
pub fn engine_error_from_script(err: ScriptError) -> (r: EngineError)
    ensures
        r@ == engine_error_of(err@),
{
    match err {
        ScriptError::ExecutionNotFound => EngineError::NotFound { entity: "execution" },
        ScriptError::FlowNotFound => EngineError::NotFound { entity: "flow" },
        ScriptError::AttemptNotFound => EngineError::NotFound { entity: "attempt" },
        ScriptError::BudgetNotFound => EngineError::NotFound { entity: "budget" },
        ScriptError::QuotaPolicyNotFound => EngineError::NotFound { entity: "quota_policy" },
        ScriptError::StreamNotFound => EngineError::NotFound { entity: "stream" },
        ScriptError::InvalidInput(d) => EngineError::Validation {
            kind: ValidationKind::InvalidInput,
            detail: d,
        },
        ScriptError::CapabilityMismatch(d) => EngineError::Validation {
            kind: ValidationKind::CapabilityMismatch,
            detail: d,
        },
        ScriptError::InvalidCapabilities(d) => EngineError::Validation {
            kind: ValidationKind::InvalidCapabilities,
            detail: d,
        },
        ScriptError::InvalidPolicyJson(d) => EngineError::Validation {
            kind: ValidationKind::InvalidPolicyJson,
            detail: d,
        },
        ScriptError::InvalidTagKey(d) => EngineError::Validation {
            kind: ValidationKind::InvalidTagKey,
            detail: d,
        },
        ScriptError::PayloadTooLarge => no_detail(ValidationKind::PayloadTooLarge),
        ScriptError::SignalLimitExceeded => no_detail(ValidationKind::SignalLimitExceeded),
        ScriptError::InvalidWaitpointKey => no_detail(ValidationKind::InvalidWaitpointKey),
        ScriptError::WaitpointNotTokenBound => no_detail(ValidationKind::WaitpointNotTokenBound),
        ScriptError::RetentionLimitExceeded => no_detail(ValidationKind::RetentionLimitExceeded),
        ScriptError::InvalidLeaseForSuspend => no_detail(ValidationKind::InvalidLeaseForSuspend),
        ScriptError::InvalidDependency => no_detail(ValidationKind::InvalidDependency),
        ScriptError::InvalidWaitpointForExecution => no_detail(ValidationKind::InvalidWaitpointForExecution),
        ScriptError::InvalidBlockingReason => no_detail(ValidationKind::InvalidBlockingReason),
        ScriptError::InvalidOffset => no_detail(ValidationKind::InvalidOffset),
        ScriptError::Unauthorized => no_detail(ValidationKind::Unauthorized),
        ScriptError::InvalidBudgetScope => no_detail(ValidationKind::InvalidBudgetScope),
        ScriptError::BudgetOverrideNotAllowed => no_detail(ValidationKind::BudgetOverrideNotAllowed),
        ScriptError::InvalidQuotaSpec => no_detail(ValidationKind::InvalidQuotaSpec),
        ScriptError::InvalidKid => no_detail(ValidationKind::InvalidKid),
        ScriptError::InvalidSecretHex => no_detail(ValidationKind::InvalidSecretHex),
        ScriptError::InvalidGraceMs => no_detail(ValidationKind::InvalidGraceMs),
        ScriptError::InvalidFrameType => no_detail(ValidationKind::InvalidFrameType),
        ScriptError::UseClaimResumedExecution => EngineError::Contention(
            ContentionKind::UseClaimResumedExecution,
        ),
        ScriptError::NotAResumedExecution => EngineError::Contention(
            ContentionKind::NotAResumedExecution,
        ),
        ScriptError::ExecutionNotLeaseable => EngineError::Contention(
            ContentionKind::ExecutionNotLeaseable,
        ),
        ScriptError::LeaseConflict => EngineError::Contention(
            ContentionKind::LeaseConflict,
        ),
        ScriptError::InvalidClaimGrant => EngineError::Contention(
            ContentionKind::InvalidClaimGrant,
        ),
        ScriptError::ClaimGrantExpired => EngineError::Contention(
            ContentionKind::ClaimGrantExpired,
        ),
        ScriptError::NoEligibleExecution => EngineError::Contention(
            ContentionKind::NoEligibleExecution,
        ),
        ScriptError::WaitpointNotFound => EngineError::Contention(
            ContentionKind::WaitpointNotFound,
        ),
        ScriptError::WaitpointPendingUseBufferScript => EngineError::Contention(
            ContentionKind::WaitpointPendingUseBufferScript,
        ),
        ScriptError::StaleGraphRevision => EngineError::Contention(
            ContentionKind::StaleGraphRevision,
        ),
        ScriptError::ExecutionNotEligible => EngineError::Contention(
            ContentionKind::ExecutionNotEligible,
        ),
        ScriptError::ExecutionNotInEligibleSet => EngineError::Contention(
            ContentionKind::ExecutionNotInEligibleSet,
        ),
        ScriptError::ExecutionNotReclaimable => EngineError::Contention(
            ContentionKind::ExecutionNotReclaimable,
        ),
        ScriptError::NoActiveLease => EngineError::Contention(
            ContentionKind::NoActiveLease,
        ),
        ScriptError::RateLimitExceeded => EngineError::Contention(
            ContentionKind::RateLimitExceeded,
        ),
        ScriptError::ConcurrencyLimitExceeded => EngineError::Contention(
            ContentionKind::ConcurrencyLimitExceeded,
        ),
        ScriptError::ExecutionNotActive {
            terminal_outcome,
            lease_epoch,
            lifecycle_phase,
            attempt_id,
        } => EngineError::Contention(
            ContentionKind::ExecutionNotActive {
                terminal_outcome,
                lease_epoch,
                lifecycle_phase,
                attempt_id,
            },
        ),
        ScriptError::CycleDetected => EngineError::Conflict(ConflictKind::CycleDetected),
        ScriptError::SelfReferencingEdge => EngineError::Conflict(ConflictKind::SelfReferencingEdge),
        ScriptError::ExecutionAlreadyInFlow => EngineError::Conflict(ConflictKind::ExecutionAlreadyInFlow),
        ScriptError::WaitpointAlreadyExists => EngineError::Conflict(ConflictKind::WaitpointAlreadyExists),
        ScriptError::BudgetAttachConflict => EngineError::Conflict(ConflictKind::BudgetAttachConflict),
        ScriptError::QuotaAttachConflict => EngineError::Conflict(ConflictKind::QuotaAttachConflict),
        ScriptError::ActiveAttemptExists => EngineError::Conflict(ConflictKind::ActiveAttemptExists),
        ScriptError::RotationConflict(kid) => EngineError::Conflict(
            ConflictKind::RotationConflict(kid),
        ),
        ScriptError::StaleLease => EngineError::State(StateKind::StaleLease),
        ScriptError::LeaseExpired => EngineError::State(StateKind::LeaseExpired),
        ScriptError::LeaseRevoked => EngineError::State(StateKind::LeaseRevoked),
        ScriptError::ExecutionNotSuspended => EngineError::State(StateKind::ExecutionNotSuspended),
        ScriptError::AlreadySuspended => EngineError::State(StateKind::AlreadySuspended),
        ScriptError::WaitpointClosed => EngineError::State(StateKind::WaitpointClosed),
        ScriptError::TargetNotSignalable => EngineError::State(StateKind::TargetNotSignalable),
        ScriptError::DuplicateSignal => EngineError::State(StateKind::DuplicateSignal),
        ScriptError::ResumeConditionNotMet => EngineError::State(StateKind::ResumeConditionNotMet),
        ScriptError::WaitpointNotPending => EngineError::State(StateKind::WaitpointNotPending),
        ScriptError::PendingWaitpointExpired => EngineError::State(StateKind::PendingWaitpointExpired),
        ScriptError::WaitpointNotOpen => EngineError::State(StateKind::WaitpointNotOpen),
        ScriptError::ExecutionNotTerminal => EngineError::State(StateKind::ExecutionNotTerminal),
        ScriptError::MaxReplaysExhausted => EngineError::State(StateKind::MaxReplaysExhausted),
        ScriptError::StreamClosed => EngineError::State(StateKind::StreamClosed),
        ScriptError::StaleOwnerCannotAppend => EngineError::State(StateKind::StaleOwnerCannotAppend),
        ScriptError::GrantAlreadyExists => EngineError::State(StateKind::GrantAlreadyExists),
        ScriptError::ExecutionNotInFlow => EngineError::State(StateKind::ExecutionNotInFlow),
        ScriptError::FlowAlreadyTerminal => EngineError::State(StateKind::FlowAlreadyTerminal),
        ScriptError::DepsNotSatisfied => EngineError::State(StateKind::DepsNotSatisfied),
        ScriptError::NotBlockedByDeps => EngineError::State(StateKind::NotBlockedByDeps),
        ScriptError::NotRunnable => EngineError::State(StateKind::NotRunnable),
        ScriptError::Terminal => EngineError::State(StateKind::Terminal),
        ScriptError::BudgetExceeded => EngineError::State(StateKind::BudgetExceeded),
        ScriptError::BudgetSoftExceeded => EngineError::State(StateKind::BudgetSoftExceeded),
        ScriptError::OkAlreadyApplied => EngineError::State(StateKind::OkAlreadyApplied),
        ScriptError::AttemptNotStarted => EngineError::State(StateKind::AttemptNotStarted),
        ScriptError::AttemptAlreadyTerminal => EngineError::State(StateKind::AttemptAlreadyTerminal),
        ScriptError::ExecutionNotEligibleForAttempt => EngineError::State(StateKind::ExecutionNotEligibleForAttempt),
        ScriptError::ReplayNotAllowed => EngineError::State(StateKind::ReplayNotAllowed),
        ScriptError::MaxRetriesExhausted => EngineError::State(StateKind::MaxRetriesExhausted),
        ScriptError::StreamAlreadyClosed => EngineError::State(StateKind::StreamAlreadyClosed),
        ScriptError::AttemptNotInCreatedState => EngineError::Bug(
            BugKind::AttemptNotInCreatedState,
        ),
        ScriptError::DependencyAlreadyExists
        | ScriptError::Parse { .. }
        | ScriptError::Valkey(_) => transport_script(err),
    }
}

impl From<ScriptError> for EngineError {
    fn from(err: ScriptError) -> (r: EngineError)
        ensures
            r@ == engine_error_of(err@),
    {
        engine_error_from_script(err)
    }
}

/// Nothing is claimed of the result as a value of the type: its texts have the
/// characters that `from` states, no more.
impl FromSpecImpl<ScriptError> for EngineError {
    open spec fn obeys_from_spec() -> bool {
        false
    }

    open spec fn from_spec(err: ScriptError) -> EngineError {
        arbitrary()
    }
}

/// A server function's error inside a transport error is found again, and decides
/// the class and the kind.
pub proof fn law_transport_round_trip<S>(backend: &'static str, e: ScriptError<S>)
    ensures
        ({
            let err = EngineError::<S>::Transport { backend, source: TransportSource::Script(e) };
            err.is_transport_spec() && err.script_spec() == Some(e) && err.class_spec()
                == e.class_spec()
        }),
{
}

/// A label changes nothing of what an error is: neither its class nor its kind, nor
/// what it carries, nor whether it is a transport fault.
pub proof fn law_labels_are_transparent<S>(err: EngineError<S>, context: S)
    ensures
        ({
            let labelled = EngineError::<S>::Contextual { source: Box::new(err), context };
            labelled.class_spec() == err.class_spec() && labelled.kind_spec() == err.kind_spec()
                && labelled.script_spec() == err.script_spec() && labelled.is_transport_spec()
                == err.is_transport_spec()
        }),
{
}

} // verus!
