//! What engine errors say to a reader.

use vstd::prelude::*;
use vstd::string::*;

use crate::engine_error::{
    BugKind, ConflictKind, ContentionKind, EdgeSnapshot, EngineError, StateKind, TransportSource,
    ValidationKind,
};
use crate::numbers;
use crate::text;

verus! {

impl ValidationKind {
    /// The name of the kind.
    pub open spec fn name_spec(self) -> &'static str {
        match self {
            ValidationKind::InvalidInput => "InvalidInput",
            ValidationKind::CapabilityMismatch => "CapabilityMismatch",
            ValidationKind::InvalidCapabilities => "InvalidCapabilities",
            ValidationKind::InvalidPolicyJson => "InvalidPolicyJson",
            ValidationKind::PayloadTooLarge => "PayloadTooLarge",
            ValidationKind::SignalLimitExceeded => "SignalLimitExceeded",
            ValidationKind::InvalidWaitpointKey => "InvalidWaitpointKey",
            ValidationKind::InvalidToken => "InvalidToken",
            ValidationKind::WaitpointNotTokenBound => "WaitpointNotTokenBound",
            ValidationKind::RetentionLimitExceeded => "RetentionLimitExceeded",
            ValidationKind::InvalidLeaseForSuspend => "InvalidLeaseForSuspend",
            ValidationKind::InvalidDependency => "InvalidDependency",
            ValidationKind::InvalidWaitpointForExecution => "InvalidWaitpointForExecution",
            ValidationKind::InvalidBlockingReason => "InvalidBlockingReason",
            ValidationKind::InvalidOffset => "InvalidOffset",
            ValidationKind::Unauthorized => "Unauthorized",
            ValidationKind::InvalidBudgetScope => "InvalidBudgetScope",
            ValidationKind::BudgetOverrideNotAllowed => "BudgetOverrideNotAllowed",
            ValidationKind::InvalidQuotaSpec => "InvalidQuotaSpec",
            ValidationKind::InvalidKid => "InvalidKid",
            ValidationKind::InvalidSecretHex => "InvalidSecretHex",
            ValidationKind::InvalidGraceMs => "InvalidGraceMs",
            ValidationKind::InvalidTagKey => "InvalidTagKey",
            ValidationKind::InvalidFrameType => "InvalidFrameType",
            ValidationKind::Corruption => "Corruption",
            ValidationKind::HandleFromOtherBackend => "HandleFromOtherBackend",
        }
    }

    /// The name of the kind.
    pub fn name(self) -> (r: &'static str)
        ensures
            r == self.name_spec(),
    {
        match self {
            ValidationKind::InvalidInput => "InvalidInput",
            ValidationKind::CapabilityMismatch => "CapabilityMismatch",
            ValidationKind::InvalidCapabilities => "InvalidCapabilities",
            ValidationKind::InvalidPolicyJson => "InvalidPolicyJson",
            ValidationKind::PayloadTooLarge => "PayloadTooLarge",
            ValidationKind::SignalLimitExceeded => "SignalLimitExceeded",
            ValidationKind::InvalidWaitpointKey => "InvalidWaitpointKey",
            ValidationKind::InvalidToken => "InvalidToken",
            ValidationKind::WaitpointNotTokenBound => "WaitpointNotTokenBound",
            ValidationKind::RetentionLimitExceeded => "RetentionLimitExceeded",
            ValidationKind::InvalidLeaseForSuspend => "InvalidLeaseForSuspend",
            ValidationKind::InvalidDependency => "InvalidDependency",
            ValidationKind::InvalidWaitpointForExecution => "InvalidWaitpointForExecution",
            ValidationKind::InvalidBlockingReason => "InvalidBlockingReason",
            ValidationKind::InvalidOffset => "InvalidOffset",
            ValidationKind::Unauthorized => "Unauthorized",
            ValidationKind::InvalidBudgetScope => "InvalidBudgetScope",
            ValidationKind::BudgetOverrideNotAllowed => "BudgetOverrideNotAllowed",
            ValidationKind::InvalidQuotaSpec => "InvalidQuotaSpec",
            ValidationKind::InvalidKid => "InvalidKid",
            ValidationKind::InvalidSecretHex => "InvalidSecretHex",
            ValidationKind::InvalidGraceMs => "InvalidGraceMs",
            ValidationKind::InvalidTagKey => "InvalidTagKey",
            ValidationKind::InvalidFrameType => "InvalidFrameType",
            ValidationKind::Corruption => "Corruption",
            ValidationKind::HandleFromOtherBackend => "HandleFromOtherBackend",
        }
    }
}

impl StateKind {
    /// The name of the kind.
    pub open spec fn name_spec(self) -> &'static str {
        match self {
            StateKind::StaleLease => "StaleLease",
            StateKind::LeaseExpired => "LeaseExpired",
            StateKind::LeaseRevoked => "LeaseRevoked",
            StateKind::ExecutionNotSuspended => "ExecutionNotSuspended",
            StateKind::AlreadySuspended => "AlreadySuspended",
            StateKind::WaitpointClosed => "WaitpointClosed",
            StateKind::TargetNotSignalable => "TargetNotSignalable",
            StateKind::DuplicateSignal => "DuplicateSignal",
            StateKind::ResumeConditionNotMet => "ResumeConditionNotMet",
            StateKind::WaitpointNotPending => "WaitpointNotPending",
            StateKind::PendingWaitpointExpired => "PendingWaitpointExpired",
            StateKind::WaitpointNotOpen => "WaitpointNotOpen",
            StateKind::ExecutionNotTerminal => "ExecutionNotTerminal",
            StateKind::MaxReplaysExhausted => "MaxReplaysExhausted",
            StateKind::StreamClosed => "StreamClosed",
            StateKind::StaleOwnerCannotAppend => "StaleOwnerCannotAppend",
            StateKind::GrantAlreadyExists => "GrantAlreadyExists",
            StateKind::ExecutionNotInFlow => "ExecutionNotInFlow",
            StateKind::FlowAlreadyTerminal => "FlowAlreadyTerminal",
            StateKind::DepsNotSatisfied => "DepsNotSatisfied",
            StateKind::NotBlockedByDeps => "NotBlockedByDeps",
            StateKind::NotRunnable => "NotRunnable",
            StateKind::Terminal => "Terminal",
            StateKind::BudgetExceeded => "BudgetExceeded",
            StateKind::BudgetSoftExceeded => "BudgetSoftExceeded",
            StateKind::OkAlreadyApplied => "OkAlreadyApplied",
            StateKind::AttemptNotStarted => "AttemptNotStarted",
            StateKind::AttemptAlreadyTerminal => "AttemptAlreadyTerminal",
            StateKind::ExecutionNotEligibleForAttempt => "ExecutionNotEligibleForAttempt",
            StateKind::ReplayNotAllowed => "ReplayNotAllowed",
            StateKind::MaxRetriesExhausted => "MaxRetriesExhausted",
            StateKind::StreamAlreadyClosed => "StreamAlreadyClosed",
            StateKind::AlreadySatisfied => "AlreadySatisfied",
        }
    }

    /// The name of the kind.
    pub fn name(self) -> (r: &'static str)
        ensures
            r == self.name_spec(),
    {
        match self {
            StateKind::StaleLease => "StaleLease",
            StateKind::LeaseExpired => "LeaseExpired",
            StateKind::LeaseRevoked => "LeaseRevoked",
            StateKind::ExecutionNotSuspended => "ExecutionNotSuspended",
            StateKind::AlreadySuspended => "AlreadySuspended",
            StateKind::WaitpointClosed => "WaitpointClosed",
            StateKind::TargetNotSignalable => "TargetNotSignalable",
            StateKind::DuplicateSignal => "DuplicateSignal",
            StateKind::ResumeConditionNotMet => "ResumeConditionNotMet",
            StateKind::WaitpointNotPending => "WaitpointNotPending",
            StateKind::PendingWaitpointExpired => "PendingWaitpointExpired",
            StateKind::WaitpointNotOpen => "WaitpointNotOpen",
            StateKind::ExecutionNotTerminal => "ExecutionNotTerminal",
            StateKind::MaxReplaysExhausted => "MaxReplaysExhausted",
            StateKind::StreamClosed => "StreamClosed",
            StateKind::StaleOwnerCannotAppend => "StaleOwnerCannotAppend",
            StateKind::GrantAlreadyExists => "GrantAlreadyExists",
            StateKind::ExecutionNotInFlow => "ExecutionNotInFlow",
            StateKind::FlowAlreadyTerminal => "FlowAlreadyTerminal",
            StateKind::DepsNotSatisfied => "DepsNotSatisfied",
            StateKind::NotBlockedByDeps => "NotBlockedByDeps",
            StateKind::NotRunnable => "NotRunnable",
            StateKind::Terminal => "Terminal",
            StateKind::BudgetExceeded => "BudgetExceeded",
            StateKind::BudgetSoftExceeded => "BudgetSoftExceeded",
            StateKind::OkAlreadyApplied => "OkAlreadyApplied",
            StateKind::AttemptNotStarted => "AttemptNotStarted",
            StateKind::AttemptAlreadyTerminal => "AttemptAlreadyTerminal",
            StateKind::ExecutionNotEligibleForAttempt => "ExecutionNotEligibleForAttempt",
            StateKind::ReplayNotAllowed => "ReplayNotAllowed",
            StateKind::MaxRetriesExhausted => "MaxRetriesExhausted",
            StateKind::StreamAlreadyClosed => "StreamAlreadyClosed",
            StateKind::AlreadySatisfied => "AlreadySatisfied",
        }
    }
}

impl ContentionKind<Seq<char>> {
    /// The kind with its fields, strings quoted.
    pub open spec fn text_spec(self) -> Seq<char> {
        match self {
            ContentionKind::ExecutionNotActive {
                terminal_outcome,
                lease_epoch,
                lifecycle_phase,
                attempt_id,
            } => "ExecutionNotActive { terminal_outcome: "@ + text::debug_text(terminal_outcome)
                + ", lease_epoch: "@ + text::debug_text(lease_epoch) + ", lifecycle_phase: "@
                + text::debug_text(lifecycle_phase) + ", attempt_id: "@ + text::debug_text(attempt_id)
                + " }"@,
            ContentionKind::UseClaimResumedExecution => "UseClaimResumedExecution"@,
            ContentionKind::NotAResumedExecution => "NotAResumedExecution"@,
            ContentionKind::ExecutionNotLeaseable => "ExecutionNotLeaseable"@,
            ContentionKind::LeaseConflict => "LeaseConflict"@,
            ContentionKind::InvalidClaimGrant => "InvalidClaimGrant"@,
            ContentionKind::ClaimGrantExpired => "ClaimGrantExpired"@,
            ContentionKind::NoEligibleExecution => "NoEligibleExecution"@,
            ContentionKind::WaitpointNotFound => "WaitpointNotFound"@,
            ContentionKind::WaitpointPendingUseBufferScript => "WaitpointPendingUseBufferScript"@,
            ContentionKind::StaleGraphRevision => "StaleGraphRevision"@,
            ContentionKind::ExecutionNotEligible => "ExecutionNotEligible"@,
            ContentionKind::ExecutionNotInEligibleSet => "ExecutionNotInEligibleSet"@,
            ContentionKind::ExecutionNotReclaimable => "ExecutionNotReclaimable"@,
            ContentionKind::NoActiveLease => "NoActiveLease"@,
            ContentionKind::RateLimitExceeded => "RateLimitExceeded"@,
            ContentionKind::ConcurrencyLimitExceeded => "ConcurrencyLimitExceeded"@,
            ContentionKind::RetryExhausted => "RetryExhausted"@,
        }
    }
}

impl ContentionKind {
    /// The kind with its fields, strings quoted.
    pub fn text(&self) -> (r: String)
        ensures
            r@ == self@.text_spec(),
    {
        match self {
            ContentionKind::ExecutionNotActive {
                terminal_outcome,
                lease_epoch,
                lifecycle_phase,
                attempt_id,
            } => {
                let mut out = "ExecutionNotActive { terminal_outcome: ".to_owned();
                out.append(text::debug(terminal_outcome.as_str()).as_str());
                out.append(", lease_epoch: ");
                out.append(text::debug(lease_epoch.as_str()).as_str());
                out.append(", lifecycle_phase: ");
                out.append(text::debug(lifecycle_phase.as_str()).as_str());
                out.append(", attempt_id: ");
                out.append(text::debug(attempt_id.as_str()).as_str());
                out.append(" }");
                out
            },
            ContentionKind::UseClaimResumedExecution => "UseClaimResumedExecution".to_owned(),
            ContentionKind::NotAResumedExecution => "NotAResumedExecution".to_owned(),
            ContentionKind::ExecutionNotLeaseable => "ExecutionNotLeaseable".to_owned(),
            ContentionKind::LeaseConflict => "LeaseConflict".to_owned(),
            ContentionKind::InvalidClaimGrant => "InvalidClaimGrant".to_owned(),
            ContentionKind::ClaimGrantExpired => "ClaimGrantExpired".to_owned(),
            ContentionKind::NoEligibleExecution => "NoEligibleExecution".to_owned(),
            ContentionKind::WaitpointNotFound => "WaitpointNotFound".to_owned(),
            ContentionKind::WaitpointPendingUseBufferScript => "WaitpointPendingUseBufferScript".to_owned(),
            ContentionKind::StaleGraphRevision => "StaleGraphRevision".to_owned(),
            ContentionKind::ExecutionNotEligible => "ExecutionNotEligible".to_owned(),
            ContentionKind::ExecutionNotInEligibleSet => "ExecutionNotInEligibleSet".to_owned(),
            ContentionKind::ExecutionNotReclaimable => "ExecutionNotReclaimable".to_owned(),
            ContentionKind::NoActiveLease => "NoActiveLease".to_owned(),
            ContentionKind::RateLimitExceeded => "RateLimitExceeded".to_owned(),
            ContentionKind::ConcurrencyLimitExceeded => "ConcurrencyLimitExceeded".to_owned(),
            ContentionKind::RetryExhausted => "RetryExhausted".to_owned(),
        }
    }
}

impl EdgeSnapshot<Seq<char>> {
    /// The edge with its fields, strings quoted.
    pub open spec fn text_spec(self) -> Seq<char> {
        "EdgeSnapshot { edge_id: EdgeId("@ + self.edge_id + "), flow_id: FlowId("@ + self.flow_id
            + "), upstream_execution_id: ExecutionId("@ + text::debug_text(
            self.upstream_execution_id,
        ) + "), downstream_execution_id: ExecutionId("@ + text::debug_text(
            self.downstream_execution_id,
        ) + "), dependency_kind: "@ + text::debug_text(self.dependency_kind)
            + ", satisfaction_condition: "@ + text::debug_text(self.satisfaction_condition)
            + ", data_passing_ref: "@ + match self.data_passing_ref {
            Some(d) => "Some("@ + text::debug_text(d) + ")"@,
            None => "None"@,
        } + ", edge_state: "@ + text::debug_text(self.edge_state) + ", created_at: TimestampMs("@
            + numbers::decimal(self.created_at as int) + "), created_by: "@ + text::debug_text(
            self.created_by,
        ) + " }"@
    }
}

impl EdgeSnapshot {
    /// The edge with its fields, strings quoted.
    pub fn text(&self) -> (r: String)
        ensures
            r@ == self@.text_spec(),
    {
        let mut out = "EdgeSnapshot { edge_id: EdgeId(".to_owned();
        out.append(self.edge_id.as_str());
        out.append("), flow_id: FlowId(");
        out.append(self.flow_id.as_str());
        out.append("), upstream_execution_id: ExecutionId(");
        out.append(text::debug(self.upstream_execution_id.as_str()).as_str());
        out.append("), downstream_execution_id: ExecutionId(");
        out.append(text::debug(self.downstream_execution_id.as_str()).as_str());
        out.append("), dependency_kind: ");
        out.append(text::debug(self.dependency_kind.as_str()).as_str());
        out.append(", satisfaction_condition: ");
        out.append(text::debug(self.satisfaction_condition.as_str()).as_str());
        out.append(", data_passing_ref: ");
        let data_ref = match &self.data_passing_ref {
            Some(d) => {
                let mut some = "Some(".to_owned();
                some.append(text::debug(d.as_str()).as_str());
                some.append(")");
                some
            },
            None => "None".to_owned(),
        };
        out.append(data_ref.as_str());
        out.append(", edge_state: ");
        out.append(text::debug(self.edge_state.as_str()).as_str());
        out.append(", created_at: TimestampMs(");
        out.append(numbers::i64_text(self.created_at).as_str());
        out.append("), created_by: ");
        out.append(text::debug(self.created_by.as_str()).as_str());
        out.append(" }");
        out
    }
}

impl ConflictKind<Seq<char>> {
    /// The kind, with the edge or key that it speaks of.
    pub open spec fn text_spec(self) -> Seq<char> {
        match self {
            ConflictKind::DependencyAlreadyExists { existing } => "DependencyAlreadyExists { existing: "@
                + existing.text_spec() + " }"@,
            ConflictKind::RotationConflict(kid) => "RotationConflict("@ + text::debug_text(kid) + ")"@,
            ConflictKind::CycleDetected => "CycleDetected"@,
            ConflictKind::SelfReferencingEdge => "SelfReferencingEdge"@,
            ConflictKind::ExecutionAlreadyInFlow => "ExecutionAlreadyInFlow"@,
            ConflictKind::WaitpointAlreadyExists => "WaitpointAlreadyExists"@,
            ConflictKind::BudgetAttachConflict => "BudgetAttachConflict"@,
            ConflictKind::QuotaAttachConflict => "QuotaAttachConflict"@,
            ConflictKind::ActiveAttemptExists => "ActiveAttemptExists"@,
        }
    }
}

impl ConflictKind {
    /// The kind, with the edge or key that it speaks of.
    pub fn text(&self) -> (r: String)
        ensures
            r@ == self@.text_spec(),
    {
        match self {
            ConflictKind::DependencyAlreadyExists { existing } => {
                let mut out = "DependencyAlreadyExists { existing: ".to_owned();
                out.append(existing.text().as_str());
                out.append(" }");
                out
            },
            ConflictKind::RotationConflict(kid) => {
                let mut out = "RotationConflict(".to_owned();
                out.append(text::debug(kid.as_str()).as_str());
                out.append(")");
                out
            },
            ConflictKind::CycleDetected => "CycleDetected".to_owned(),
            ConflictKind::SelfReferencingEdge => "SelfReferencingEdge".to_owned(),
            ConflictKind::ExecutionAlreadyInFlow => "ExecutionAlreadyInFlow".to_owned(),
            ConflictKind::WaitpointAlreadyExists => "WaitpointAlreadyExists".to_owned(),
            ConflictKind::BudgetAttachConflict => "BudgetAttachConflict".to_owned(),
            ConflictKind::QuotaAttachConflict => "QuotaAttachConflict".to_owned(),
            ConflictKind::ActiveAttemptExists => "ActiveAttemptExists".to_owned(),
        }
    }
}

impl TransportSource<Seq<char>> {
    /// What the source says to a reader.
    pub open spec fn text_spec(self) -> Seq<char> {
        match self {
            TransportSource::Script(e) => e.text_spec(),
            TransportSource::Other(t) => t,
        }
    }
}

impl TransportSource {
    /// What the source says to a reader.
    pub fn text(&self) -> (r: String)
        ensures
            r@ == self@.text_spec(),
    {
        match self {
            TransportSource::Script(e) => e.text(),
            TransportSource::Other(t) => t.as_str().to_owned(),
        }
    }
}

impl EngineError<Seq<char>> {
    /// What the error says to a reader.
    pub open spec fn text_spec(self) -> Seq<char>
        decreases self,
    {
        match self {
            EngineError::NotFound { entity } => "not found: "@ + entity@,
            EngineError::Validation { kind, detail } => "validation: "@ + kind.name_spec()@ + ": "@
                + detail,
            EngineError::Contention(k) => "contention: "@ + k.text_spec(),
            EngineError::Conflict(k) => "conflict: "@ + k.text_spec(),
            EngineError::State(k) => "state: "@ + k.name_spec()@,
            EngineError::Bug(_) => "bug: AttemptNotInCreatedState"@,
            EngineError::Transport { backend, source } => "transport ("@ + backend@ + "): "@
                + source.text_spec(),
            EngineError::Unavailable { op } => "unavailable: "@ + op@,
            EngineError::ResourceExhausted { pool, max, .. } => "resource exhausted: pool="@ + pool@
                + " max="@ + numbers::decimal(max as int),
            EngineError::Timeout { op, elapsed } => "timeout: op="@ + op@ + " elapsed="@ + elapsed,
            EngineError::StreamDisconnected => "stream disconnected; reconnect with returned cursor"@,
            EngineError::StreamBackpressure => "stream backpressure; events dropped"@,
            EngineError::Contextual { source, context } => context + ": "@ + (*source).text_spec(),
        }
    }
}

impl EngineError {
    /// What the error says to a reader.
    pub fn text(&self) -> (r: String)
        ensures
            r@ == self@.text_spec(),
        decreases self,
    {
        match self {
            EngineError::NotFound { entity } => {
                let mut out = "not found: ".to_owned();
                out.append(entity);
                out
            },
            EngineError::Validation { kind, detail } => {
                let mut out = "validation: ".to_owned();
                out.append((*kind).name());
                out.append(": ");
                out.append(detail.as_str());
                out
            },
            EngineError::Contention(k) => {
                let mut out = "contention: ".to_owned();
                out.append(k.text().as_str());
                out
            },
            EngineError::Conflict(k) => {
                let mut out = "conflict: ".to_owned();
                out.append(k.text().as_str());
                out
            },
            EngineError::State(k) => {
                let mut out = "state: ".to_owned();
                out.append((*k).name());
                out
            },
            EngineError::Bug(BugKind::AttemptNotInCreatedState) => {
                "bug: AttemptNotInCreatedState".to_owned()
            },
            EngineError::Transport { backend, source } => {
                let mut out = "transport (".to_owned();
                out.append(backend);
                out.append("): ");
                out.append(source.text().as_str());
                out
            },
            EngineError::Unavailable { op } => {
                let mut out = "unavailable: ".to_owned();
                out.append(op);
                out
            },
            EngineError::ResourceExhausted { pool, max, .. } => {
                let mut out = "resource exhausted: pool=".to_owned();
                out.append(pool);
                out.append(" max=");
                out.append(numbers::u64_text(*max as u64).as_str());
                out
            },
            EngineError::Timeout { op, elapsed } => {
                let mut out = "timeout: op=".to_owned();
                out.append(op);
                out.append(" elapsed=");
                out.append(elapsed.as_str());
                out
            },
            EngineError::StreamDisconnected => {
                "stream disconnected; reconnect with returned cursor".to_owned()
            },
            EngineError::StreamBackpressure => "stream backpressure; events dropped".to_owned(),
            EngineError::Contextual { source, context } => {
                let mut out = context.as_str().to_owned();
                out.append(": ");
                out.append(source.text().as_str());
                out
            },
        }
    }
}

} // verus!
