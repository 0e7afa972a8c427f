//! What holds of the error codes as a whole.

use vstd::prelude::*;
use vstd::string::*;

use crate::error::ScriptError;

verus! {

/// The details that an error carries, slot by slot.
pub open spec fn details_of(e: ScriptError<Seq<char>>) -> Seq<Seq<char>> {
    match e {
        ScriptError::ExecutionNotActive {
            terminal_outcome,
            lease_epoch,
            lifecycle_phase,
            attempt_id,
        } => seq![terminal_outcome, lease_epoch, lifecycle_phase, attempt_id],
        ScriptError::InvalidInput(d) => seq![d],
        ScriptError::CapabilityMismatch(d) => seq![d],
        ScriptError::InvalidCapabilities(d) => seq![d],
        ScriptError::InvalidPolicyJson(d) => seq![d],
        ScriptError::InvalidTagKey(d) => seq![d],
        ScriptError::RotationConflict(d) => seq![d],
        _ => Seq::empty(),
    }
}

/// An error without its details.
pub open spec fn emptied(e: ScriptError<Seq<char>>) -> ScriptError<Seq<char>> {
    match e {
        ScriptError::ExecutionNotActive { .. } => ScriptError::ExecutionNotActive {
            terminal_outcome: Seq::empty(),
            lease_epoch: Seq::empty(),
            lifecycle_phase: Seq::empty(),
            attempt_id: Seq::empty(),
        },
        ScriptError::InvalidInput(_) => ScriptError::InvalidInput(Seq::empty()),
        ScriptError::CapabilityMismatch(_) => ScriptError::CapabilityMismatch(Seq::empty()),
        ScriptError::InvalidCapabilities(_) => ScriptError::InvalidCapabilities(Seq::empty()),
        ScriptError::InvalidPolicyJson(_) => ScriptError::InvalidPolicyJson(Seq::empty()),
        ScriptError::InvalidTagKey(_) => ScriptError::InvalidTagKey(Seq::empty()),
        ScriptError::RotationConflict(_) => ScriptError::RotationConflict(Seq::empty()),
        _ => e,
    }
}

/// Whether a server function reports an error by a code: it is no fault of the client
/// and no unreadable reply.
pub open spec fn is_coded(e: ScriptError<Seq<char>>) -> bool {
    !(e is Valkey) && !(e is Parse)
}

/// The part of a text before its first colon; all of it, if it has none.
pub open spec fn head(s: Seq<char>) -> Seq<char>
    decreases s.len(),
{
    if s.len() == 0 || s[0] == ':' {
        Seq::empty()
    } else {
        seq![s[0]] + head(s.skip(1))
    }
}

proof fn lemma_head(s: Seq<char>, c: Seq<char>)
    requires
        c.len() <= s.len(),
        forall|i: int| 0 <= i < c.len() ==> #[trigger] s[i] == c[i] && c[i] != ':',
        c.len() == s.len() || s[c.len() as int] == ':',
    ensures
        head(s) == c,
    decreases c.len(),
{
    if c.len() > 0 {
        assert(s[0] == c[0]);
        let t = s.skip(1);
        let d = c.skip(1);
        assert forall|i: int| 0 <= i < d.len() implies #[trigger] t[i] == d[i] && d[i] != ':' by {
            assert(t[i] == s[i + 1]);
        }
        lemma_head(t, d);
        assert(seq![c[0]] + d =~= c);
    } else {
        assert(c =~= Seq::empty());
    }
}

/// A wire code denotes the error that it is the code of: no two variants share one.
#[verifier::rlimit(100)]
#[verifier::spinoff_prover]
pub proof fn law_code_round_trip(e: ScriptError<Seq<char>>)
    requires
        e.code_spec() is Some,
    ensures
        crate::error::error_of_code(e.code_spec()->0@) == Some(emptied(e)),
{
    reveal_strlit("stale_lease");
    assert("stale_lease"@.len() == 11 && "stale_lease"@[0] == 's');
    reveal_strlit("lease_expired");
    assert("lease_expired"@.len() == 13 && "lease_expired"@[6] == 'e');
    reveal_strlit("lease_revoked");
    assert("lease_revoked"@.len() == 13 && "lease_revoked"@[6] == 'r');
    reveal_strlit("execution_not_active");
    assert("execution_not_active"@.len() == 20 && "execution_not_active"@[8] == 'n');
    reveal_strlit("no_active_lease");
    assert("no_active_lease"@.len() == 15 && "no_active_lease"@[0] == 'n');
    reveal_strlit("active_attempt_exists");
    assert("active_attempt_exists"@.len() == 21 && "active_attempt_exists"@[0] == 'a' && "active_attempt_exists"@[7] == 'a');
    reveal_strlit("use_claim_resumed_execution");
    assert("use_claim_resumed_execution"@.len() == 27 && "use_claim_resumed_execution"@[0] == 'u');
    reveal_strlit("not_a_resumed_execution");
    assert("not_a_resumed_execution"@.len() == 23 && "not_a_resumed_execution"@[14] == 'e');
    reveal_strlit("execution_not_leaseable");
    assert("execution_not_leaseable"@.len() == 23 && "execution_not_leaseable"@[14] == 'l');
    reveal_strlit("lease_conflict");
    assert("lease_conflict"@.len() == 14 && "lease_conflict"@[0] == 'l');
    reveal_strlit("invalid_claim_grant");
    assert("invalid_claim_grant"@.len() == 19 && "invalid_claim_grant"@[0] == 'i' && "invalid_claim_grant"@[8] == 'c');
    reveal_strlit("claim_grant_expired");
    assert("claim_grant_expired"@.len() == 19 && "claim_grant_expired"@[0] == 'c' && "claim_grant_expired"@[8] == 'a');
    reveal_strlit("no_eligible_execution");
    assert("no_eligible_execution"@.len() == 21 && "no_eligible_execution"@[0] == 'n' && "no_eligible_execution"@[7] == 'i');
    reveal_strlit("budget_exceeded");
    assert("budget_exceeded"@.len() == 15 && "budget_exceeded"@[0] == 'b');
    reveal_strlit("budget_soft_exceeded");
    assert("budget_soft_exceeded"@.len() == 20 && "budget_soft_exceeded"@[8] == 'o');
    reveal_strlit("execution_not_suspended");
    assert("execution_not_suspended"@.len() == 23 && "execution_not_suspended"@[14] == 's');
    reveal_strlit("already_suspended");
    assert("already_suspended"@.len() == 17 && "already_suspended"@[1] == 'l');
    reveal_strlit("waitpoint_closed");
    assert("waitpoint_closed"@.len() == 16 && "waitpoint_closed"@[0] == 'w');
    reveal_strlit("waitpoint_not_found");
    assert("waitpoint_not_found"@.len() == 19 && "waitpoint_not_found"@[0] == 'w' && "waitpoint_not_found"@[8] == 't');
    reveal_strlit("target_not_signalable");
    assert("target_not_signalable"@.len() == 21 && "target_not_signalable"@[0] == 't' && "target_not_signalable"@[7] == 'n');
    reveal_strlit("waitpoint_pending_use_buffer_script");
    assert("waitpoint_pending_use_buffer_script"@.len() == 35);
    reveal_strlit("duplicate_signal");
    assert("duplicate_signal"@.len() == 16 && "duplicate_signal"@[0] == 'd');
    reveal_strlit("payload_too_large");
    assert("payload_too_large"@.len() == 17 && "payload_too_large"@[1] == 'a');
    reveal_strlit("signal_limit_exceeded");
    assert("signal_limit_exceeded"@.len() == 21 && "signal_limit_exceeded"@[0] == 's' && "signal_limit_exceeded"@[7] == 'l');
    reveal_strlit("invalid_waitpoint_key");
    assert("invalid_waitpoint_key"@.len() == 21 && "invalid_waitpoint_key"@[0] == 'i' && "invalid_waitpoint_key"@[7] == '_');
    reveal_strlit("invalid_lease_for_suspend");
    assert("invalid_lease_for_suspend"@.len() == 25 && "invalid_lease_for_suspend"@[14] == 'f');
    reveal_strlit("resume_condition_not_met");
    assert("resume_condition_not_met"@.len() == 24 && "resume_condition_not_met"@[5] == 'e');
    reveal_strlit("waitpoint_not_pending");
    assert("waitpoint_not_pending"@.len() == 21 && "waitpoint_not_pending"@[0] == 'w' && "waitpoint_not_pending"@[7] == 'n');
    reveal_strlit("pending_waitpoint_expired");
    assert("pending_waitpoint_expired"@.len() == 25 && "pending_waitpoint_expired"@[14] == 'i');
    reveal_strlit("invalid_waitpoint_for_execution");
    assert("invalid_waitpoint_for_execution"@.len() == 31);
    reveal_strlit("waitpoint_already_exists");
    assert("waitpoint_already_exists"@.len() == 24 && "waitpoint_already_exists"@[5] == 'o');
    reveal_strlit("waitpoint_not_open");
    assert("waitpoint_not_open"@.len() == 18 && "waitpoint_not_open"@[0] == 'w' && "waitpoint_not_open"@[8] == 't');
    reveal_strlit("execution_not_terminal");
    assert("execution_not_terminal"@.len() == 22 && "execution_not_terminal"@[14] == 't');
    reveal_strlit("max_replays_exhausted");
    assert("max_replays_exhausted"@.len() == 21 && "max_replays_exhausted"@[0] == 'm' && "max_replays_exhausted"@[7] == 'l');
    reveal_strlit("stream_closed");
    assert("stream_closed"@.len() == 13 && "stream_closed"@[6] == '_');
    reveal_strlit("stale_owner_cannot_append");
    assert("stale_owner_cannot_append"@.len() == 25 && "stale_owner_cannot_append"@[14] == 'n');
    reveal_strlit("retention_limit_exceeded");
    assert("retention_limit_exceeded"@.len() == 24 && "retention_limit_exceeded"@[5] == 't');
    reveal_strlit("execution_not_eligible");
    assert("execution_not_eligible"@.len() == 22 && "execution_not_eligible"@[14] == 'e');
    reveal_strlit("execution_not_in_eligible_set");
    assert("execution_not_in_eligible_set"@.len() == 29);
    reveal_strlit("grant_already_exists");
    assert("grant_already_exists"@.len() == 20 && "grant_already_exists"@[8] == 'r');
    reveal_strlit("execution_not_reclaimable");
    assert("execution_not_reclaimable"@.len() == 25 && "execution_not_reclaimable"@[14] == 'r');
    reveal_strlit("invalid_dependency");
    assert("invalid_dependency"@.len() == 18 && "invalid_dependency"@[0] == 'i' && "invalid_dependency"@[8] == 'd');
    reveal_strlit("stale_graph_revision");
    assert("stale_graph_revision"@.len() == 20 && "stale_graph_revision"@[8] == 'a');
    reveal_strlit("execution_already_in_flow");
    assert("execution_already_in_flow"@.len() == 25 && "execution_already_in_flow"@[14] == 'a');
    reveal_strlit("cycle_detected");
    assert("cycle_detected"@.len() == 14 && "cycle_detected"@[0] == 'c');
    reveal_strlit("flow_not_found");
    assert("flow_not_found"@.len() == 14 && "flow_not_found"@[0] == 'f');
    reveal_strlit("execution_not_in_flow");
    assert("execution_not_in_flow"@.len() == 21 && "execution_not_in_flow"@[0] == 'e' && "execution_not_in_flow"@[7] == 'o');
    reveal_strlit("dependency_already_exists");
    assert("dependency_already_exists"@.len() == 25 && "dependency_already_exists"@[14] == 'e');
    reveal_strlit("self_referencing_edge");
    assert("self_referencing_edge"@.len() == 21 && "self_referencing_edge"@[0] == 's' && "self_referencing_edge"@[7] == 'f');
    reveal_strlit("flow_already_terminal");
    assert("flow_already_terminal"@.len() == 21 && "flow_already_terminal"@[0] == 'f' && "flow_already_terminal"@[7] == 'r');
    reveal_strlit("deps_not_satisfied");
    assert("deps_not_satisfied"@.len() == 18 && "deps_not_satisfied"@[0] == 'd' && "deps_not_satisfied"@[8] == '_');
    reveal_strlit("not_blocked_by_deps");
    assert("not_blocked_by_deps"@.len() == 19 && "not_blocked_by_deps"@[0] == 'n' && "not_blocked_by_deps"@[8] == 'k');
    reveal_strlit("not_runnable");
    assert("not_runnable"@.len() == 12 && "not_runnable"@[0] == 'n');
    reveal_strlit("terminal");
    assert("terminal"@.len() == 8);
    reveal_strlit("invalid_blocking_reason");
    assert("invalid_blocking_reason"@.len() == 23 && "invalid_blocking_reason"@[14] == 'n');
    reveal_strlit("ok_already_applied");
    assert("ok_already_applied"@.len() == 18 && "ok_already_applied"@[0] == 'o' && "ok_already_applied"@[8] == 'd');
    reveal_strlit("attempt_not_found");
    assert("attempt_not_found"@.len() == 17 && "attempt_not_found"@[1] == 't');
    reveal_strlit("attempt_not_in_created_state");
    assert("attempt_not_in_created_state"@.len() == 28);
    reveal_strlit("attempt_not_started");
    assert("attempt_not_started"@.len() == 19 && "attempt_not_started"@[0] == 'a' && "attempt_not_started"@[8] == 'n');
    reveal_strlit("attempt_already_terminal");
    assert("attempt_already_terminal"@.len() == 24 && "attempt_already_terminal"@[5] == 'p');
    reveal_strlit("execution_not_found");
    assert("execution_not_found"@.len() == 19 && "execution_not_found"@[0] == 'e' && "execution_not_found"@[8] == 'n');
    reveal_strlit("execution_not_eligible_for_attempt");
    assert("execution_not_eligible_for_attempt"@.len() == 34);
    reveal_strlit("replay_not_allowed");
    assert("replay_not_allowed"@.len() == 18 && "replay_not_allowed"@[0] == 'r' && "replay_not_allowed"@[8] == 'o');
    reveal_strlit("max_retries_exhausted");
    assert("max_retries_exhausted"@.len() == 21 && "max_retries_exhausted"@[0] == 'm' && "max_retries_exhausted"@[7] == 'r');
    reveal_strlit("stream_not_found");
    assert("stream_not_found"@.len() == 16 && "stream_not_found"@[0] == 's');
    reveal_strlit("stream_already_closed");
    assert("stream_already_closed"@.len() == 21 && "stream_already_closed"@[0] == 's' && "stream_already_closed"@[7] == 'a');
    reveal_strlit("invalid_frame_type");
    assert("invalid_frame_type"@.len() == 18 && "invalid_frame_type"@[0] == 'i' && "invalid_frame_type"@[8] == 'f');
    reveal_strlit("invalid_offset");
    assert("invalid_offset"@.len() == 14 && "invalid_offset"@[0] == 'i');
    reveal_strlit("unauthorized");
    assert("unauthorized"@.len() == 12 && "unauthorized"@[0] == 'u');
    reveal_strlit("budget_not_found");
    assert("budget_not_found"@.len() == 16 && "budget_not_found"@[0] == 'b');
    reveal_strlit("invalid_budget_scope");
    assert("invalid_budget_scope"@.len() == 20 && "invalid_budget_scope"@[8] == 'b');
    reveal_strlit("budget_attach_conflict");
    assert("budget_attach_conflict"@.len() == 22 && "budget_attach_conflict"@[14] == 'c');
    reveal_strlit("budget_override_not_allowed");
    assert("budget_override_not_allowed"@.len() == 27 && "budget_override_not_allowed"@[0] == 'b');
    reveal_strlit("quota_policy_not_found");
    assert("quota_policy_not_found"@.len() == 22 && "quota_policy_not_found"@[14] == 'o');
    reveal_strlit("rate_limit_exceeded");
    assert("rate_limit_exceeded"@.len() == 19 && "rate_limit_exceeded"@[0] == 'r' && "rate_limit_exceeded"@[8] == 'i');
    reveal_strlit("concurrency_limit_exceeded");
    assert("concurrency_limit_exceeded"@.len() == 26);
    reveal_strlit("quota_attach_conflict");
    assert("quota_attach_conflict"@.len() == 21 && "quota_attach_conflict"@[0] == 'q' && "quota_attach_conflict"@[7] == 't');
    reveal_strlit("invalid_quota_spec");
    assert("invalid_quota_spec"@.len() == 18 && "invalid_quota_spec"@[0] == 'i' && "invalid_quota_spec"@[8] == 'q');
    reveal_strlit("invalid_input");
    assert("invalid_input"@.len() == 13 && "invalid_input"@[6] == 'd');
    reveal_strlit("capability_mismatch");
    assert("capability_mismatch"@.len() == 19 && "capability_mismatch"@[0] == 'c' && "capability_mismatch"@[8] == 't');
    reveal_strlit("invalid_capabilities");
    assert("invalid_capabilities"@.len() == 20 && "invalid_capabilities"@[8] == 'c');
    reveal_strlit("invalid_policy_json");
    assert("invalid_policy_json"@.len() == 19 && "invalid_policy_json"@[0] == 'i' && "invalid_policy_json"@[8] == 'p');
    reveal_strlit("waitpoint_not_token_bound");
    assert("waitpoint_not_token_bound"@.len() == 25 && "waitpoint_not_token_bound"@[14] == 't');
    reveal_strlit("invalid_tag_key");
    assert("invalid_tag_key"@.len() == 15 && "invalid_tag_key"@[0] == 'i');
    reveal_strlit("invalid_kid");
    assert("invalid_kid"@.len() == 11 && "invalid_kid"@[0] == 'i');
    reveal_strlit("invalid_secret_hex");
    assert("invalid_secret_hex"@.len() == 18 && "invalid_secret_hex"@[0] == 'i' && "invalid_secret_hex"@[8] == 's');
    reveal_strlit("invalid_grace_ms");
    assert("invalid_grace_ms"@.len() == 16 && "invalid_grace_ms"@[0] == 'i');
    reveal_strlit("rotation_conflict");
    assert("rotation_conflict"@.len() == 17 && "rotation_conflict"@[1] == 'o');
}

/// A wire code and the details of an error denote that error again: no detail is lost.
pub proof fn law_answer_round_trip(e: ScriptError<Seq<char>>)
    requires
        e.code_spec() is Some,
    ensures
        crate::error::error_of_answer(e.code_spec()->0@, details_of(e)) == Some(e),
{
    law_code_round_trip(e);
}

/// What an error says begins with its code, up to the first colon.
#[verifier::rlimit(100)]
#[verifier::spinoff_prover]
pub proof fn law_text_begins_with_code(e: ScriptError<Seq<char>>)
    requires
        is_coded(e),
    ensures
        e.code_spec() is Some,
        head(e.text_spec()) == e.code_spec()->0@,
{
    match e {
        ScriptError::StaleLease => {
            reveal_strlit("stale_lease");
            reveal_strlit("stale_lease: lease superseded by reclaim");
            lemma_head(e.text_spec(), "stale_lease"@);
        },
        ScriptError::LeaseExpired => {
            reveal_strlit("lease_expired");
            reveal_strlit("lease_expired: lease TTL elapsed");
            lemma_head(e.text_spec(), "lease_expired"@);
        },
        ScriptError::LeaseRevoked => {
            reveal_strlit("lease_revoked");
            reveal_strlit("lease_revoked: operator revoked lease");
            lemma_head(e.text_spec(), "lease_revoked"@);
        },
        ScriptError::ExecutionNotActive { .. } => {
            reveal_strlit("execution_not_active");
            reveal_strlit("execution_not_active: execution is not in active state");
            lemma_head(e.text_spec(), "execution_not_active"@);
        },
        ScriptError::NoActiveLease => {
            reveal_strlit("no_active_lease");
            reveal_strlit("no_active_lease: target has no active lease");
            lemma_head(e.text_spec(), "no_active_lease"@);
        },
        ScriptError::ActiveAttemptExists => {
            reveal_strlit("active_attempt_exists");
            reveal_strlit("active_attempt_exists: invariant violation");
            lemma_head(e.text_spec(), "active_attempt_exists"@);
        },
        ScriptError::UseClaimResumedExecution => {
            reveal_strlit("use_claim_resumed_execution");
            reveal_strlit("use_claim_resumed_execution: attempt_interrupted, use resume claim path");
            lemma_head(e.text_spec(), "use_claim_resumed_execution"@);
        },
        ScriptError::NotAResumedExecution => {
            reveal_strlit("not_a_resumed_execution");
            reveal_strlit("not_a_resumed_execution: use normal claim path");
            lemma_head(e.text_spec(), "not_a_resumed_execution"@);
        },
        ScriptError::ExecutionNotLeaseable => {
            reveal_strlit("execution_not_leaseable");
            reveal_strlit("execution_not_leaseable: state changed since grant");
            lemma_head(e.text_spec(), "execution_not_leaseable"@);
        },
        ScriptError::LeaseConflict => {
            reveal_strlit("lease_conflict");
            reveal_strlit("lease_conflict: another worker holds lease");
            lemma_head(e.text_spec(), "lease_conflict"@);
        },
        ScriptError::InvalidClaimGrant => {
            reveal_strlit("invalid_claim_grant");
            reveal_strlit("invalid_claim_grant: grant missing or mismatched");
            lemma_head(e.text_spec(), "invalid_claim_grant"@);
        },
        ScriptError::ClaimGrantExpired => {
            reveal_strlit("claim_grant_expired");
            reveal_strlit("claim_grant_expired: grant TTL elapsed");
            lemma_head(e.text_spec(), "claim_grant_expired"@);
        },
        ScriptError::NoEligibleExecution => {
            reveal_strlit("no_eligible_execution");
            reveal_strlit("no_eligible_execution: no execution available");
            lemma_head(e.text_spec(), "no_eligible_execution"@);
        },
        ScriptError::BudgetExceeded => {
            reveal_strlit("budget_exceeded");
            reveal_strlit("budget_exceeded: hard budget limit reached");
            lemma_head(e.text_spec(), "budget_exceeded"@);
        },
        ScriptError::BudgetSoftExceeded => {
            reveal_strlit("budget_soft_exceeded");
            reveal_strlit("budget_soft_exceeded: soft budget limit reached");
            lemma_head(e.text_spec(), "budget_soft_exceeded"@);
        },
        ScriptError::ExecutionNotSuspended => {
            reveal_strlit("execution_not_suspended");
            reveal_strlit("execution_not_suspended: already resumed or cancelled");
            lemma_head(e.text_spec(), "execution_not_suspended"@);
        },
        ScriptError::AlreadySuspended => {
            reveal_strlit("already_suspended");
            reveal_strlit("already_suspended: suspension already active");
            lemma_head(e.text_spec(), "already_suspended"@);
        },
        ScriptError::WaitpointClosed => {
            reveal_strlit("waitpoint_closed");
            reveal_strlit("waitpoint_closed: waitpoint already closed");
            lemma_head(e.text_spec(), "waitpoint_closed"@);
        },
        ScriptError::WaitpointNotFound => {
            reveal_strlit("waitpoint_not_found");
            reveal_strlit("waitpoint_not_found: waitpoint does not exist yet");
            lemma_head(e.text_spec(), "waitpoint_not_found"@);
        },
        ScriptError::TargetNotSignalable => {
            reveal_strlit("target_not_signalable");
            reveal_strlit("target_not_signalable: no valid signal target");
            lemma_head(e.text_spec(), "target_not_signalable"@);
        },
        ScriptError::WaitpointPendingUseBufferScript => {
            reveal_strlit("waitpoint_pending_use_buffer_script");
            reveal_strlit("waitpoint_pending_use_buffer_script: route to buffer script");
            lemma_head(e.text_spec(), "waitpoint_pending_use_buffer_script"@);
        },
        ScriptError::DuplicateSignal => {
            reveal_strlit("duplicate_signal");
            reveal_strlit("duplicate_signal: signal already delivered");
            lemma_head(e.text_spec(), "duplicate_signal"@);
        },
        ScriptError::PayloadTooLarge => {
            reveal_strlit("payload_too_large");
            reveal_strlit("payload_too_large: signal payload exceeds 64KB");
            lemma_head(e.text_spec(), "payload_too_large"@);
        },
        ScriptError::SignalLimitExceeded => {
            reveal_strlit("signal_limit_exceeded");
            reveal_strlit("signal_limit_exceeded: max signals per execution reached");
            lemma_head(e.text_spec(), "signal_limit_exceeded"@);
        },
        ScriptError::InvalidWaitpointKey => {
            reveal_strlit("invalid_waitpoint_key");
            reveal_strlit("invalid_waitpoint_key: MAC verification failed");
            lemma_head(e.text_spec(), "invalid_waitpoint_key"@);
        },
        ScriptError::InvalidLeaseForSuspend => {
            reveal_strlit("invalid_lease_for_suspend");
            reveal_strlit("invalid_lease_for_suspend: lease/attempt binding mismatch");
            lemma_head(e.text_spec(), "invalid_lease_for_suspend"@);
        },
        ScriptError::ResumeConditionNotMet => {
            reveal_strlit("resume_condition_not_met");
            reveal_strlit("resume_condition_not_met: resume conditions not satisfied");
            lemma_head(e.text_spec(), "resume_condition_not_met"@);
        },
        ScriptError::WaitpointNotPending => {
            reveal_strlit("waitpoint_not_pending");
            reveal_strlit("waitpoint_not_pending: waitpoint is not in pending state");
            lemma_head(e.text_spec(), "waitpoint_not_pending"@);
        },
        ScriptError::PendingWaitpointExpired => {
            reveal_strlit("pending_waitpoint_expired");
            reveal_strlit("pending_waitpoint_expired: pending waitpoint aged out");
            lemma_head(e.text_spec(), "pending_waitpoint_expired"@);
        },
        ScriptError::InvalidWaitpointForExecution => {
            reveal_strlit("invalid_waitpoint_for_execution");
            reveal_strlit("invalid_waitpoint_for_execution: waitpoint does not belong to execution");
            lemma_head(e.text_spec(), "invalid_waitpoint_for_execution"@);
        },
        ScriptError::WaitpointAlreadyExists => {
            reveal_strlit("waitpoint_already_exists");
            reveal_strlit("waitpoint_already_exists: waitpoint already exists");
            lemma_head(e.text_spec(), "waitpoint_already_exists"@);
        },
        ScriptError::WaitpointNotOpen => {
            reveal_strlit("waitpoint_not_open");
            reveal_strlit("waitpoint_not_open: waitpoint is not pending or active");
            lemma_head(e.text_spec(), "waitpoint_not_open"@);
        },
        ScriptError::ExecutionNotTerminal => {
            reveal_strlit("execution_not_terminal");
            reveal_strlit("execution_not_terminal: cannot replay non-terminal execution");
            lemma_head(e.text_spec(), "execution_not_terminal"@);
        },
        ScriptError::MaxReplaysExhausted => {
            reveal_strlit("max_replays_exhausted");
            reveal_strlit("max_replays_exhausted: replay limit reached");
            lemma_head(e.text_spec(), "max_replays_exhausted"@);
        },
        ScriptError::StreamClosed => {
            reveal_strlit("stream_closed");
            reveal_strlit("stream_closed: attempt terminal, no appends allowed");
            lemma_head(e.text_spec(), "stream_closed"@);
        },
        ScriptError::StaleOwnerCannotAppend => {
            reveal_strlit("stale_owner_cannot_append");
            reveal_strlit("stale_owner_cannot_append: lease mismatch on append");
            lemma_head(e.text_spec(), "stale_owner_cannot_append"@);
        },
        ScriptError::RetentionLimitExceeded => {
            reveal_strlit("retention_limit_exceeded");
            reveal_strlit("retention_limit_exceeded: frame exceeds size limit");
            lemma_head(e.text_spec(), "retention_limit_exceeded"@);
        },
        ScriptError::ExecutionNotEligible => {
            reveal_strlit("execution_not_eligible");
            reveal_strlit("execution_not_eligible: state changed");
            lemma_head(e.text_spec(), "execution_not_eligible"@);
        },
        ScriptError::ExecutionNotInEligibleSet => {
            reveal_strlit("execution_not_in_eligible_set");
            reveal_strlit("execution_not_in_eligible_set: removed by another scheduler");
            lemma_head(e.text_spec(), "execution_not_in_eligible_set"@);
        },
        ScriptError::GrantAlreadyExists => {
            reveal_strlit("grant_already_exists");
            reveal_strlit("grant_already_exists: grant already active");
            lemma_head(e.text_spec(), "grant_already_exists"@);
        },
        ScriptError::ExecutionNotReclaimable => {
            reveal_strlit("execution_not_reclaimable");
            reveal_strlit("execution_not_reclaimable: already reclaimed or cancelled");
            lemma_head(e.text_spec(), "execution_not_reclaimable"@);
        },
        ScriptError::InvalidDependency => {
            reveal_strlit("invalid_dependency");
            reveal_strlit("invalid_dependency: dependency edge not found");
            lemma_head(e.text_spec(), "invalid_dependency"@);
        },
        ScriptError::StaleGraphRevision => {
            reveal_strlit("stale_graph_revision");
            reveal_strlit("stale_graph_revision: graph has been updated");
            lemma_head(e.text_spec(), "stale_graph_revision"@);
        },
        ScriptError::ExecutionAlreadyInFlow => {
            reveal_strlit("execution_already_in_flow");
            reveal_strlit("execution_already_in_flow: execution belongs to another flow");
            lemma_head(e.text_spec(), "execution_already_in_flow"@);
        },
        ScriptError::CycleDetected => {
            reveal_strlit("cycle_detected");
            reveal_strlit("cycle_detected: dependency edge would create cycle");
            lemma_head(e.text_spec(), "cycle_detected"@);
        },
        ScriptError::FlowNotFound => {
            reveal_strlit("flow_not_found");
            reveal_strlit("flow_not_found: flow does not exist");
            lemma_head(e.text_spec(), "flow_not_found"@);
        },
        ScriptError::ExecutionNotInFlow => {
            reveal_strlit("execution_not_in_flow");
            reveal_strlit("execution_not_in_flow: execution not in flow");
            lemma_head(e.text_spec(), "execution_not_in_flow"@);
        },
        ScriptError::DependencyAlreadyExists => {
            reveal_strlit("dependency_already_exists");
            reveal_strlit("dependency_already_exists: edge already exists");
            lemma_head(e.text_spec(), "dependency_already_exists"@);
        },
        ScriptError::SelfReferencingEdge => {
            reveal_strlit("self_referencing_edge");
            reveal_strlit("self_referencing_edge: upstream and downstream are the same");
            lemma_head(e.text_spec(), "self_referencing_edge"@);
        },
        ScriptError::FlowAlreadyTerminal => {
            reveal_strlit("flow_already_terminal");
            reveal_strlit("flow_already_terminal: flow is already terminal");
            lemma_head(e.text_spec(), "flow_already_terminal"@);
        },
        ScriptError::DepsNotSatisfied => {
            reveal_strlit("deps_not_satisfied");
            reveal_strlit("deps_not_satisfied: dependencies still unresolved");
            lemma_head(e.text_spec(), "deps_not_satisfied"@);
        },
        ScriptError::NotBlockedByDeps => {
            reveal_strlit("not_blocked_by_deps");
            reveal_strlit("not_blocked_by_deps: execution not blocked by dependencies");
            lemma_head(e.text_spec(), "not_blocked_by_deps"@);
        },
        ScriptError::NotRunnable => {
            reveal_strlit("not_runnable");
            reveal_strlit("not_runnable: execution is not in runnable state");
            lemma_head(e.text_spec(), "not_runnable"@);
        },
        ScriptError::Terminal => {
            reveal_strlit("terminal");
            reveal_strlit("terminal: execution is already terminal");
            lemma_head(e.text_spec(), "terminal"@);
        },
        ScriptError::InvalidBlockingReason => {
            reveal_strlit("invalid_blocking_reason");
            reveal_strlit("invalid_blocking_reason: unrecognized blocking reason");
            lemma_head(e.text_spec(), "invalid_blocking_reason"@);
        },
        ScriptError::OkAlreadyApplied => {
            reveal_strlit("ok_already_applied");
            reveal_strlit("ok_already_applied: usage seq already processed");
            lemma_head(e.text_spec(), "ok_already_applied"@);
        },
        ScriptError::AttemptNotFound => {
            reveal_strlit("attempt_not_found");
            reveal_strlit("attempt_not_found: attempt index does not exist");
            lemma_head(e.text_spec(), "attempt_not_found"@);
        },
        ScriptError::AttemptNotInCreatedState => {
            reveal_strlit("attempt_not_in_created_state");
            reveal_strlit("attempt_not_in_created_state: internal sequencing error");
            lemma_head(e.text_spec(), "attempt_not_in_created_state"@);
        },
        ScriptError::AttemptNotStarted => {
            reveal_strlit("attempt_not_started");
            reveal_strlit("attempt_not_started: attempt not in started state");
            lemma_head(e.text_spec(), "attempt_not_started"@);
        },
        ScriptError::AttemptAlreadyTerminal => {
            reveal_strlit("attempt_already_terminal");
            reveal_strlit("attempt_already_terminal: attempt already ended");
            lemma_head(e.text_spec(), "attempt_already_terminal"@);
        },
        ScriptError::ExecutionNotFound => {
            reveal_strlit("execution_not_found");
            reveal_strlit("execution_not_found: execution does not exist");
            lemma_head(e.text_spec(), "execution_not_found"@);
        },
        ScriptError::ExecutionNotEligibleForAttempt => {
            reveal_strlit("execution_not_eligible_for_attempt");
            reveal_strlit("execution_not_eligible_for_attempt: wrong state for new attempt");
            lemma_head(e.text_spec(), "execution_not_eligible_for_attempt"@);
        },
        ScriptError::ReplayNotAllowed => {
            reveal_strlit("replay_not_allowed");
            reveal_strlit("replay_not_allowed: execution not terminal or limit reached");
            lemma_head(e.text_spec(), "replay_not_allowed"@);
        },
        ScriptError::MaxRetriesExhausted => {
            reveal_strlit("max_retries_exhausted");
            reveal_strlit("max_retries_exhausted: retry limit reached");
            lemma_head(e.text_spec(), "max_retries_exhausted"@);
        },
        ScriptError::StreamNotFound => {
            reveal_strlit("stream_not_found");
            reveal_strlit("stream_not_found: no frames appended yet");
            lemma_head(e.text_spec(), "stream_not_found"@);
        },
        ScriptError::StreamAlreadyClosed => {
            reveal_strlit("stream_already_closed");
            reveal_strlit("stream_already_closed: stream already closed");
            lemma_head(e.text_spec(), "stream_already_closed"@);
        },
        ScriptError::InvalidFrameType => {
            reveal_strlit("invalid_frame_type");
            reveal_strlit("invalid_frame_type: unrecognized frame type");
            lemma_head(e.text_spec(), "invalid_frame_type"@);
        },
        ScriptError::InvalidOffset => {
            reveal_strlit("invalid_offset");
            reveal_strlit("invalid_offset: invalid stream ID offset");
            lemma_head(e.text_spec(), "invalid_offset"@);
        },
        ScriptError::Unauthorized => {
            reveal_strlit("unauthorized");
            reveal_strlit("unauthorized: authentication/authorization failed");
            lemma_head(e.text_spec(), "unauthorized"@);
        },
        ScriptError::BudgetNotFound => {
            reveal_strlit("budget_not_found");
            reveal_strlit("budget_not_found: budget does not exist");
            lemma_head(e.text_spec(), "budget_not_found"@);
        },
        ScriptError::InvalidBudgetScope => {
            reveal_strlit("invalid_budget_scope");
            reveal_strlit("invalid_budget_scope: malformed budget scope");
            lemma_head(e.text_spec(), "invalid_budget_scope"@);
        },
        ScriptError::BudgetAttachConflict => {
            reveal_strlit("budget_attach_conflict");
            reveal_strlit("budget_attach_conflict: budget attachment conflict");
            lemma_head(e.text_spec(), "budget_attach_conflict"@);
        },
        ScriptError::BudgetOverrideNotAllowed => {
            reveal_strlit("budget_override_not_allowed");
            reveal_strlit("budget_override_not_allowed: insufficient privileges");
            lemma_head(e.text_spec(), "budget_override_not_allowed"@);
        },
        ScriptError::QuotaPolicyNotFound => {
            reveal_strlit("quota_policy_not_found");
            reveal_strlit("quota_policy_not_found: quota policy does not exist");
            lemma_head(e.text_spec(), "quota_policy_not_found"@);
        },
        ScriptError::RateLimitExceeded => {
            reveal_strlit("rate_limit_exceeded");
            reveal_strlit("rate_limit_exceeded: rate limit window full");
            lemma_head(e.text_spec(), "rate_limit_exceeded"@);
        },
        ScriptError::ConcurrencyLimitExceeded => {
            reveal_strlit("concurrency_limit_exceeded");
            reveal_strlit("concurrency_limit_exceeded: concurrency cap reached");
            lemma_head(e.text_spec(), "concurrency_limit_exceeded"@);
        },
        ScriptError::QuotaAttachConflict => {
            reveal_strlit("quota_attach_conflict");
            reveal_strlit("quota_attach_conflict: quota policy already attached");
            lemma_head(e.text_spec(), "quota_attach_conflict"@);
        },
        ScriptError::InvalidQuotaSpec => {
            reveal_strlit("invalid_quota_spec");
            reveal_strlit("invalid_quota_spec: malformed quota policy definition");
            lemma_head(e.text_spec(), "invalid_quota_spec"@);
        },
        ScriptError::InvalidInput(_) => {
            reveal_strlit("invalid_input");
            reveal_strlit("invalid_input: ");
            lemma_head(e.text_spec(), "invalid_input"@);
        },
        ScriptError::CapabilityMismatch(_) => {
            reveal_strlit("capability_mismatch");
            reveal_strlit("capability_mismatch: missing ");
            lemma_head(e.text_spec(), "capability_mismatch"@);
        },
        ScriptError::InvalidCapabilities(_) => {
            reveal_strlit("invalid_capabilities");
            reveal_strlit("invalid_capabilities: ");
            lemma_head(e.text_spec(), "invalid_capabilities"@);
        },
        ScriptError::InvalidPolicyJson(_) => {
            reveal_strlit("invalid_policy_json");
            reveal_strlit("invalid_policy_json: ");
            lemma_head(e.text_spec(), "invalid_policy_json"@);
        },
        ScriptError::WaitpointNotTokenBound => {
            reveal_strlit("waitpoint_not_token_bound");
            lemma_head(e.text_spec(), "waitpoint_not_token_bound"@);
        },
        ScriptError::InvalidTagKey(_) => {
            reveal_strlit("invalid_tag_key");
            reveal_strlit("invalid_tag_key: ");
            lemma_head(e.text_spec(), "invalid_tag_key"@);
        },
        ScriptError::InvalidKid => {
            reveal_strlit("invalid_kid");
            reveal_strlit("invalid_kid: kid is empty or contains a separator");
            lemma_head(e.text_spec(), "invalid_kid"@);
        },
        ScriptError::InvalidSecretHex => {
            reveal_strlit("invalid_secret_hex");
            reveal_strlit("invalid_secret_hex: secret is not an even-length hex string");
            lemma_head(e.text_spec(), "invalid_secret_hex"@);
        },
        ScriptError::InvalidGraceMs => {
            reveal_strlit("invalid_grace_ms");
            reveal_strlit("invalid_grace_ms: grace period is not a non-negative integer");
            lemma_head(e.text_spec(), "invalid_grace_ms"@);
        },
        ScriptError::RotationConflict(_) => {
            reveal_strlit("rotation_conflict");
            reveal_strlit("rotation_conflict: ");
            lemma_head(e.text_spec(), "rotation_conflict"@);
        },
        ScriptError::Valkey(_) => {},
        ScriptError::Parse { .. } => {},
    }
}

/// The part of an error's text before its first colon is read back as that error,
/// without its details.
pub proof fn law_text_reads_back(e: ScriptError<Seq<char>>)
    requires
        is_coded(e),
    ensures
        crate::error::error_of_code(head(e.text_spec())) == Some(emptied(e)),
{
    law_text_begins_with_code(e);
    law_code_round_trip(e);
}

/// A text is read as an error exactly where it is what some error's text begins with;
/// every other text denotes none.
pub proof fn law_other_codes_denote_nothing(code: Seq<char>)
    ensures
        crate::error::error_of_code(code) is Some <==> exists|e: ScriptError<Seq<char>>|
            is_coded(e) && #[trigger] head(e.text_spec()) == code,
{
    match crate::error::error_of_code(code) {
        Some(e) => {
            lemma_code_of_read(code);
            law_text_begins_with_code(e);
            assert(is_coded(e) && head(e.text_spec()) == code);
        },
        None => {
            assert forall|e: ScriptError<Seq<char>>| is_coded(e) implies #[trigger] head(
                e.text_spec(),
            ) != code by {
                law_text_reads_back(e);
            }
        },
    }
}

/// The error that a code denotes has that code.
proof fn lemma_code_of_read(code: Seq<char>)
    ensures
        crate::error::error_of_code(code) matches Some(e) ==> is_coded(e) && e.code_spec() is Some
            && e.code_spec()->0@ == code,
{
}

/// A code begins with a lower-case letter. The status words of accepted calls do not.
#[verifier::rlimit(50)]
pub proof fn lemma_code_is_lower(e: ScriptError<Seq<char>>)
    requires
        e.code_spec() is Some,
    ensures
        e.code_spec()->0@.len() > 0,
        'a' <= e.code_spec()->0@[0] <= 'z',
{
    reveal_strlit("stale_lease");
    reveal_strlit("lease_expired");
    reveal_strlit("lease_revoked");
    reveal_strlit("execution_not_active");
    reveal_strlit("no_active_lease");
    reveal_strlit("active_attempt_exists");
    reveal_strlit("use_claim_resumed_execution");
    reveal_strlit("not_a_resumed_execution");
    reveal_strlit("execution_not_leaseable");
    reveal_strlit("lease_conflict");
    reveal_strlit("invalid_claim_grant");
    reveal_strlit("claim_grant_expired");
    reveal_strlit("no_eligible_execution");
    reveal_strlit("budget_exceeded");
    reveal_strlit("budget_soft_exceeded");
    reveal_strlit("execution_not_suspended");
    reveal_strlit("already_suspended");
    reveal_strlit("waitpoint_closed");
    reveal_strlit("waitpoint_not_found");
    reveal_strlit("target_not_signalable");
    reveal_strlit("waitpoint_pending_use_buffer_script");
    reveal_strlit("duplicate_signal");
    reveal_strlit("payload_too_large");
    reveal_strlit("signal_limit_exceeded");
    reveal_strlit("invalid_waitpoint_key");
    reveal_strlit("invalid_lease_for_suspend");
    reveal_strlit("resume_condition_not_met");
    reveal_strlit("waitpoint_not_pending");
    reveal_strlit("pending_waitpoint_expired");
    reveal_strlit("invalid_waitpoint_for_execution");
    reveal_strlit("waitpoint_already_exists");
    reveal_strlit("waitpoint_not_open");
    reveal_strlit("execution_not_terminal");
    reveal_strlit("max_replays_exhausted");
    reveal_strlit("stream_closed");
    reveal_strlit("stale_owner_cannot_append");
    reveal_strlit("retention_limit_exceeded");
    reveal_strlit("execution_not_eligible");
    reveal_strlit("execution_not_in_eligible_set");
    reveal_strlit("grant_already_exists");
    reveal_strlit("execution_not_reclaimable");
    reveal_strlit("invalid_dependency");
    reveal_strlit("stale_graph_revision");
    reveal_strlit("execution_already_in_flow");
    reveal_strlit("cycle_detected");
    reveal_strlit("flow_not_found");
    reveal_strlit("execution_not_in_flow");
    reveal_strlit("dependency_already_exists");
    reveal_strlit("self_referencing_edge");
    reveal_strlit("flow_already_terminal");
    reveal_strlit("deps_not_satisfied");
    reveal_strlit("not_blocked_by_deps");
    reveal_strlit("not_runnable");
    reveal_strlit("terminal");
    reveal_strlit("invalid_blocking_reason");
    reveal_strlit("ok_already_applied");
    reveal_strlit("attempt_not_found");
    reveal_strlit("attempt_not_in_created_state");
    reveal_strlit("attempt_not_started");
    reveal_strlit("attempt_already_terminal");
    reveal_strlit("execution_not_found");
    reveal_strlit("execution_not_eligible_for_attempt");
    reveal_strlit("replay_not_allowed");
    reveal_strlit("max_retries_exhausted");
    reveal_strlit("stream_not_found");
    reveal_strlit("stream_already_closed");
    reveal_strlit("invalid_frame_type");
    reveal_strlit("invalid_offset");
    reveal_strlit("unauthorized");
    reveal_strlit("budget_not_found");
    reveal_strlit("invalid_budget_scope");
    reveal_strlit("budget_attach_conflict");
    reveal_strlit("budget_override_not_allowed");
    reveal_strlit("quota_policy_not_found");
    reveal_strlit("rate_limit_exceeded");
    reveal_strlit("concurrency_limit_exceeded");
    reveal_strlit("quota_attach_conflict");
    reveal_strlit("invalid_quota_spec");
    reveal_strlit("invalid_input");
    reveal_strlit("capability_mismatch");
    reveal_strlit("invalid_capabilities");
    reveal_strlit("invalid_policy_json");
    reveal_strlit("waitpoint_not_token_bound");
    reveal_strlit("invalid_tag_key");
    reveal_strlit("invalid_kid");
    reveal_strlit("invalid_secret_hex");
    reveal_strlit("invalid_grace_ms");
    reveal_strlit("rotation_conflict");
}

} // verus!
