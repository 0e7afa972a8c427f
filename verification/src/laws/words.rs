//! Words: what the kinds of errors are called, and what errors say.

use vstd::prelude::*;
use vstd::string::*;

use crate::engine_error::{ConflictKind, ContentionKind, StateKind, ValidationKind};
use crate::error::ScriptError;
use crate::preamble;
use crate::preamble::capabilities_csv;
use crate::runtime::registry::StateMap;
use crate::sdk_error::{BackendErrorKind, SdkError};
use crate::text;
use crate::text_set;
use crate::value::{value_type_name, Value};

verus! {

/// What each error of a server function says.
pub proof fn law_error_words(e: ScriptError<Seq<char>>)
    ensures
        e is StaleLease ==> e.text_spec() == "stale_lease: lease superseded by reclaim"@,
        e is LeaseExpired ==> e.text_spec() == "lease_expired: lease TTL elapsed"@,
        e is LeaseRevoked ==> e.text_spec() == "lease_revoked: operator revoked lease"@,
        e is ExecutionNotActive ==> e.text_spec() == "execution_not_active: execution is not in active state"@,
        e is NoActiveLease ==> e.text_spec() == "no_active_lease: target has no active lease"@,
        e is ActiveAttemptExists ==> e.text_spec() == "active_attempt_exists: invariant violation"@,
        e is UseClaimResumedExecution ==> e.text_spec() == "use_claim_resumed_execution: attempt_interrupted, use resume claim path"@,
        e is NotAResumedExecution ==> e.text_spec() == "not_a_resumed_execution: use normal claim path"@,
        e is ExecutionNotLeaseable ==> e.text_spec() == "execution_not_leaseable: state changed since grant"@,
        e is LeaseConflict ==> e.text_spec() == "lease_conflict: another worker holds lease"@,
        e is InvalidClaimGrant ==> e.text_spec() == "invalid_claim_grant: grant missing or mismatched"@,
        e is ClaimGrantExpired ==> e.text_spec() == "claim_grant_expired: grant TTL elapsed"@,
        e is NoEligibleExecution ==> e.text_spec() == "no_eligible_execution: no execution available"@,
        e is BudgetExceeded ==> e.text_spec() == "budget_exceeded: hard budget limit reached"@,
        e is BudgetSoftExceeded ==> e.text_spec() == "budget_soft_exceeded: soft budget limit reached"@,
        e is ExecutionNotSuspended ==> e.text_spec() == "execution_not_suspended: already resumed or cancelled"@,
        e is AlreadySuspended ==> e.text_spec() == "already_suspended: suspension already active"@,
        e is WaitpointClosed ==> e.text_spec() == "waitpoint_closed: waitpoint already closed"@,
        e is WaitpointNotFound ==> e.text_spec() == "waitpoint_not_found: waitpoint does not exist yet"@,
        e is TargetNotSignalable ==> e.text_spec() == "target_not_signalable: no valid signal target"@,
        e is WaitpointPendingUseBufferScript ==> e.text_spec() == "waitpoint_pending_use_buffer_script: route to buffer script"@,
        e is DuplicateSignal ==> e.text_spec() == "duplicate_signal: signal already delivered"@,
        e is PayloadTooLarge ==> e.text_spec() == "payload_too_large: signal payload exceeds 64KB"@,
        e is SignalLimitExceeded ==> e.text_spec() == "signal_limit_exceeded: max signals per execution reached"@,
        e is InvalidWaitpointKey ==> e.text_spec() == "invalid_waitpoint_key: MAC verification failed"@,
        e is InvalidLeaseForSuspend ==> e.text_spec() == "invalid_lease_for_suspend: lease/attempt binding mismatch"@,
        e is ResumeConditionNotMet ==> e.text_spec() == "resume_condition_not_met: resume conditions not satisfied"@,
        e is WaitpointNotPending ==> e.text_spec() == "waitpoint_not_pending: waitpoint is not in pending state"@,
        e is PendingWaitpointExpired ==> e.text_spec() == "pending_waitpoint_expired: pending waitpoint aged out"@,
        e is InvalidWaitpointForExecution ==> e.text_spec() == "invalid_waitpoint_for_execution: waitpoint does not belong to execution"@,
        e is WaitpointAlreadyExists ==> e.text_spec() == "waitpoint_already_exists: waitpoint already exists"@,
        e is WaitpointNotOpen ==> e.text_spec() == "waitpoint_not_open: waitpoint is not pending or active"@,
        e is ExecutionNotTerminal ==> e.text_spec() == "execution_not_terminal: cannot replay non-terminal execution"@,
        e is MaxReplaysExhausted ==> e.text_spec() == "max_replays_exhausted: replay limit reached"@,
        e is StreamClosed ==> e.text_spec() == "stream_closed: attempt terminal, no appends allowed"@,
        e is StaleOwnerCannotAppend ==> e.text_spec() == "stale_owner_cannot_append: lease mismatch on append"@,
        e is RetentionLimitExceeded ==> e.text_spec() == "retention_limit_exceeded: frame exceeds size limit"@,
        e is ExecutionNotEligible ==> e.text_spec() == "execution_not_eligible: state changed"@,
        e is ExecutionNotInEligibleSet ==> e.text_spec() == "execution_not_in_eligible_set: removed by another scheduler"@,
        e is GrantAlreadyExists ==> e.text_spec() == "grant_already_exists: grant already active"@,
        e is ExecutionNotReclaimable ==> e.text_spec() == "execution_not_reclaimable: already reclaimed or cancelled"@,
        e is InvalidDependency ==> e.text_spec() == "invalid_dependency: dependency edge not found"@,
        e is StaleGraphRevision ==> e.text_spec() == "stale_graph_revision: graph has been updated"@,
        e is ExecutionAlreadyInFlow ==> e.text_spec() == "execution_already_in_flow: execution belongs to another flow"@,
        e is CycleDetected ==> e.text_spec() == "cycle_detected: dependency edge would create cycle"@,
        e is FlowNotFound ==> e.text_spec() == "flow_not_found: flow does not exist"@,
        e is ExecutionNotInFlow ==> e.text_spec() == "execution_not_in_flow: execution not in flow"@,
        e is DependencyAlreadyExists ==> e.text_spec() == "dependency_already_exists: edge already exists"@,
        e is SelfReferencingEdge ==> e.text_spec() == "self_referencing_edge: upstream and downstream are the same"@,
        e is FlowAlreadyTerminal ==> e.text_spec() == "flow_already_terminal: flow is already terminal"@,
        e is DepsNotSatisfied ==> e.text_spec() == "deps_not_satisfied: dependencies still unresolved"@,
        e is NotBlockedByDeps ==> e.text_spec() == "not_blocked_by_deps: execution not blocked by dependencies"@,
        e is NotRunnable ==> e.text_spec() == "not_runnable: execution is not in runnable state"@,
        e is Terminal ==> e.text_spec() == "terminal: execution is already terminal"@,
        e is InvalidBlockingReason ==> e.text_spec() == "invalid_blocking_reason: unrecognized blocking reason"@,
        e is OkAlreadyApplied ==> e.text_spec() == "ok_already_applied: usage seq already processed"@,
        e is AttemptNotFound ==> e.text_spec() == "attempt_not_found: attempt index does not exist"@,
        e is AttemptNotInCreatedState ==> e.text_spec() == "attempt_not_in_created_state: internal sequencing error"@,
        e is AttemptNotStarted ==> e.text_spec() == "attempt_not_started: attempt not in started state"@,
        e is AttemptAlreadyTerminal ==> e.text_spec() == "attempt_already_terminal: attempt already ended"@,
        e is ExecutionNotFound ==> e.text_spec() == "execution_not_found: execution does not exist"@,
        e is ExecutionNotEligibleForAttempt ==> e.text_spec() == "execution_not_eligible_for_attempt: wrong state for new attempt"@,
        e is ReplayNotAllowed ==> e.text_spec() == "replay_not_allowed: execution not terminal or limit reached"@,
        e is MaxRetriesExhausted ==> e.text_spec() == "max_retries_exhausted: retry limit reached"@,
        e is StreamNotFound ==> e.text_spec() == "stream_not_found: no frames appended yet"@,
        e is StreamAlreadyClosed ==> e.text_spec() == "stream_already_closed: stream already closed"@,
        e is InvalidFrameType ==> e.text_spec() == "invalid_frame_type: unrecognized frame type"@,
        e is InvalidOffset ==> e.text_spec() == "invalid_offset: invalid stream ID offset"@,
        e is Unauthorized ==> e.text_spec() == "unauthorized: authentication/authorization failed"@,
        e is BudgetNotFound ==> e.text_spec() == "budget_not_found: budget does not exist"@,
        e is InvalidBudgetScope ==> e.text_spec() == "invalid_budget_scope: malformed budget scope"@,
        e is BudgetAttachConflict ==> e.text_spec() == "budget_attach_conflict: budget attachment conflict"@,
        e is BudgetOverrideNotAllowed ==> e.text_spec() == "budget_override_not_allowed: insufficient privileges"@,
        e is QuotaPolicyNotFound ==> e.text_spec() == "quota_policy_not_found: quota policy does not exist"@,
        e is RateLimitExceeded ==> e.text_spec() == "rate_limit_exceeded: rate limit window full"@,
        e is ConcurrencyLimitExceeded ==> e.text_spec() == "concurrency_limit_exceeded: concurrency cap reached"@,
        e is QuotaAttachConflict ==> e.text_spec() == "quota_attach_conflict: quota policy already attached"@,
        e is InvalidQuotaSpec ==> e.text_spec() == "invalid_quota_spec: malformed quota policy definition"@,
        e matches ScriptError::InvalidInput(d) ==> e.text_spec() == "invalid_input: "@ + d,
        e matches ScriptError::CapabilityMismatch(d) ==> e.text_spec() == "capability_mismatch: missing "@ + d,
        e matches ScriptError::InvalidCapabilities(d) ==> e.text_spec() == "invalid_capabilities: "@ + d,
        e matches ScriptError::InvalidPolicyJson(d) ==> e.text_spec() == "invalid_policy_json: "@ + d,
        e is WaitpointNotTokenBound ==> e.text_spec() == "waitpoint_not_token_bound"@,
        e matches ScriptError::Valkey(f) ==> e.text_spec() == "valkey: "@ + f.text,
        e matches ScriptError::Parse { message, .. } ==> e.text_spec() == "parse error: "@ + message,
{
}

/// A kind of rejected input is called by its name.
pub proof fn law_validation_names(k: ValidationKind, r: &'static str)
    requires
        call_ensures(ValidationKind::name, (k,), r),
    ensures
        k is InvalidInput ==> r == "InvalidInput",
        k is CapabilityMismatch ==> r == "CapabilityMismatch",
        k is InvalidCapabilities ==> r == "InvalidCapabilities",
        k is InvalidPolicyJson ==> r == "InvalidPolicyJson",
        k is PayloadTooLarge ==> r == "PayloadTooLarge",
        k is SignalLimitExceeded ==> r == "SignalLimitExceeded",
        k is InvalidWaitpointKey ==> r == "InvalidWaitpointKey",
        k is InvalidToken ==> r == "InvalidToken",
        k is WaitpointNotTokenBound ==> r == "WaitpointNotTokenBound",
        k is RetentionLimitExceeded ==> r == "RetentionLimitExceeded",
        k is InvalidLeaseForSuspend ==> r == "InvalidLeaseForSuspend",
        k is InvalidDependency ==> r == "InvalidDependency",
        k is InvalidWaitpointForExecution ==> r == "InvalidWaitpointForExecution",
        k is InvalidBlockingReason ==> r == "InvalidBlockingReason",
        k is InvalidOffset ==> r == "InvalidOffset",
        k is Unauthorized ==> r == "Unauthorized",
        k is InvalidBudgetScope ==> r == "InvalidBudgetScope",
        k is BudgetOverrideNotAllowed ==> r == "BudgetOverrideNotAllowed",
        k is InvalidQuotaSpec ==> r == "InvalidQuotaSpec",
        k is InvalidKid ==> r == "InvalidKid",
        k is InvalidSecretHex ==> r == "InvalidSecretHex",
        k is InvalidGraceMs ==> r == "InvalidGraceMs",
        k is InvalidTagKey ==> r == "InvalidTagKey",
        k is InvalidFrameType ==> r == "InvalidFrameType",
        k is Corruption ==> r == "Corruption",
        k is HandleFromOtherBackend ==> r == "HandleFromOtherBackend",
{
}

/// A state is called by its name.
pub proof fn law_state_names(k: StateKind, r: &'static str)
    requires
        call_ensures(StateKind::name, (k,), r),
    ensures
        k is StaleLease ==> r == "StaleLease",
        k is LeaseExpired ==> r == "LeaseExpired",
        k is LeaseRevoked ==> r == "LeaseRevoked",
        k is ExecutionNotSuspended ==> r == "ExecutionNotSuspended",
        k is AlreadySuspended ==> r == "AlreadySuspended",
        k is WaitpointClosed ==> r == "WaitpointClosed",
        k is TargetNotSignalable ==> r == "TargetNotSignalable",
        k is DuplicateSignal ==> r == "DuplicateSignal",
        k is ResumeConditionNotMet ==> r == "ResumeConditionNotMet",
        k is WaitpointNotPending ==> r == "WaitpointNotPending",
        k is PendingWaitpointExpired ==> r == "PendingWaitpointExpired",
        k is WaitpointNotOpen ==> r == "WaitpointNotOpen",
        k is ExecutionNotTerminal ==> r == "ExecutionNotTerminal",
        k is MaxReplaysExhausted ==> r == "MaxReplaysExhausted",
        k is StreamClosed ==> r == "StreamClosed",
        k is StaleOwnerCannotAppend ==> r == "StaleOwnerCannotAppend",
        k is GrantAlreadyExists ==> r == "GrantAlreadyExists",
        k is ExecutionNotInFlow ==> r == "ExecutionNotInFlow",
        k is FlowAlreadyTerminal ==> r == "FlowAlreadyTerminal",
        k is DepsNotSatisfied ==> r == "DepsNotSatisfied",
        k is NotBlockedByDeps ==> r == "NotBlockedByDeps",
        k is NotRunnable ==> r == "NotRunnable",
        k is Terminal ==> r == "Terminal",
        k is BudgetExceeded ==> r == "BudgetExceeded",
        k is BudgetSoftExceeded ==> r == "BudgetSoftExceeded",
        k is OkAlreadyApplied ==> r == "OkAlreadyApplied",
        k is AttemptNotStarted ==> r == "AttemptNotStarted",
        k is AttemptAlreadyTerminal ==> r == "AttemptAlreadyTerminal",
        k is ExecutionNotEligibleForAttempt ==> r == "ExecutionNotEligibleForAttempt",
        k is ReplayNotAllowed ==> r == "ReplayNotAllowed",
        k is MaxRetriesExhausted ==> r == "MaxRetriesExhausted",
        k is StreamAlreadyClosed ==> r == "StreamAlreadyClosed",
        k is AlreadySatisfied ==> r == "AlreadySatisfied",
{
}

/// A kind of contention is called by its name.
pub proof fn law_contention_names(k: &ContentionKind, r: String)
    requires
        call_ensures(ContentionKind::<String>::text, (k,), r),
    ensures
        *k is UseClaimResumedExecution ==> r@ == "UseClaimResumedExecution"@,
        *k is NotAResumedExecution ==> r@ == "NotAResumedExecution"@,
        *k is ExecutionNotLeaseable ==> r@ == "ExecutionNotLeaseable"@,
        *k is LeaseConflict ==> r@ == "LeaseConflict"@,
        *k is InvalidClaimGrant ==> r@ == "InvalidClaimGrant"@,
        *k is ClaimGrantExpired ==> r@ == "ClaimGrantExpired"@,
        *k is NoEligibleExecution ==> r@ == "NoEligibleExecution"@,
        *k is WaitpointNotFound ==> r@ == "WaitpointNotFound"@,
        *k is WaitpointPendingUseBufferScript ==> r@ == "WaitpointPendingUseBufferScript"@,
        *k is StaleGraphRevision ==> r@ == "StaleGraphRevision"@,
        *k is ExecutionNotEligible ==> r@ == "ExecutionNotEligible"@,
        *k is ExecutionNotInEligibleSet ==> r@ == "ExecutionNotInEligibleSet"@,
        *k is ExecutionNotReclaimable ==> r@ == "ExecutionNotReclaimable"@,
        *k is NoActiveLease ==> r@ == "NoActiveLease"@,
        *k is RateLimitExceeded ==> r@ == "RateLimitExceeded"@,
        *k is ConcurrencyLimitExceeded ==> r@ == "ConcurrencyLimitExceeded"@,
        *k is RetryExhausted ==> r@ == "RetryExhausted"@,
{
}

/// A kind of conflict is called by its name.
pub proof fn law_conflict_names(k: &ConflictKind, r: String)
    requires
        call_ensures(ConflictKind::<String>::text, (k,), r),
    ensures
        *k is CycleDetected ==> r@ == "CycleDetected"@,
        *k is SelfReferencingEdge ==> r@ == "SelfReferencingEdge"@,
        *k is ExecutionAlreadyInFlow ==> r@ == "ExecutionAlreadyInFlow"@,
        *k is WaitpointAlreadyExists ==> r@ == "WaitpointAlreadyExists"@,
        *k is BudgetAttachConflict ==> r@ == "BudgetAttachConflict"@,
        *k is QuotaAttachConflict ==> r@ == "QuotaAttachConflict"@,
        *k is ActiveAttemptExists ==> r@ == "ActiveAttemptExists"@,
{
}

/// The families of backend faults have names for readers and names for machines.
pub proof fn law_family_names(k: BackendErrorKind, r: &'static str, s: &'static str)
    requires
        call_ensures(BackendErrorKind::name, (k,), r),
        call_ensures(BackendErrorKind::as_stable_str, (&k,), s),
    ensures
        k is Transport ==> r == "Transport" && s == "transport",
        k is Protocol ==> r == "Protocol" && s == "protocol",
        k is Timeout ==> r == "Timeout" && s == "timeout",
        k is Auth ==> r == "Auth" && s == "auth",
        k is Cluster ==> r == "Cluster" && s == "cluster",
        k is BusyLoading ==> r == "BusyLoading" && s == "busy_loading",
        k is ScriptNotLoaded ==> r == "ScriptNotLoaded" && s == "script_not_loaded",
        k is Other ==> r == "Other" && s == "other",
{
}

/// A value is called by its shape.
pub proof fn law_shape_names(v: &Value, r: &'static str)
    requires
        call_ensures(value_type_name, (v,), r),
    ensures
        *v is Nil ==> r == "Nil",
        *v is Int ==> r == "Int",
        *v is BulkString ==> r == "BulkString",
        *v is Array ==> r == "Array",
        *v is SimpleString ==> r == "SimpleString",
        *v is Okay ==> r == "Okay",
        *v is Dict ==> r == "Map",
        *v is Members ==> r == "Set",
        *v is Double ==> r == "Double",
        *v is Boolean ==> r == "Boolean",
        *v is BigNumber ==> r == "BigNumber",
        *v is VerbatimString ==> r == "VerbatimString",
        *v is Attribute ==> r == "Attribute",
        *v is Push ==> r == "Push",
{
}

/// Capabilities are advertised sorted, each once, with commas between them. They are refused
/// where one is empty or holds a comma or white space, where there are more than 256, or where
/// they take more than 4096 bytes.
pub proof fn law_capabilities_are_listed(caps: &Vec<String>, i: int, r: Result<String, SdkError>)
    requires
        call_ensures(capabilities_csv, (caps,), r),
    ensures
        r matches Err(x) ==> x is Config,
        r matches Ok(s) ==> s@ == text::joined(
            text_set::sorted(text::texts(caps@).to_set()),
            ","@,
        ) && vstd::utf8::encode_utf8(s@).len() <= 4096 && text_set::sorted(
            text::texts(caps@).to_set(),
        ).len() <= 256,
        (0 <= i < caps@.len() && (caps@[i]@.len() == 0 || caps@[i]@.contains(','))) ==> r is Err,
{
    if 0 <= i < caps@.len() && (caps@[i]@.len() == 0 || caps@[i]@.contains(',')) {
        preamble::law_every_capability_is_checked(text::texts(caps@));
        assert(text::texts(caps@)[i] == caps@[i]@);
        assert(preamble::fault(text::texts(caps@)[i]) is Some);
    }
}

/// A value that was given to a type is found under it, the last one that was given; the values
/// of other types are as they were.
pub proof fn law_state_is_found<V>(
    m: &mut StateMap<V>,
    id: std::any::TypeId,
    value: V,
    after: StateMap<V>,
    other: std::any::TypeId,
    r: Option<&V>,
    s: Option<&V>,
)
    requires
        call_ensures(StateMap::<V>::insert, (m, id, value), ()),
        *final(m) == after,
        call_ensures(StateMap::<V>::get, (&after, &id), r),
        call_ensures(StateMap::<V>::get, (&after, &other), s),
        other != id,
    ensures
        r matches Some(v) && *v == value,
        s is Some <==> old(m)@.contains_key(other),
        s matches Some(v) ==> *v == old(m)@[other],
{
}

} // verus!
