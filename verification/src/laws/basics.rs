//! Numbers, names and identities: what they are written as, and what is read from them.

use vstd::prelude::*;
use vstd::string::*;

use crate::admin::FlowFabricAdminClient;
use crate::config::WorkerConfig;
use crate::engine_error::EngineError;
use crate::error::ScriptError;
use crate::functions::execution::{
    parse_attempt_type, parse_public_state, validate_tag_key, AttemptType, CancelExecutionResult,
    CancelExecutionResultPartial, ClaimExecutionResult, ClaimExecutionResultPartial,
    CompleteExecutionResult, CompleteExecutionResultPartial, DelayExecutionResult,
    DelayExecutionResultPartial, ExpireExecutionResult, ExpireExecutionResultPartial,
    MoveToWaitingChildrenResult, MoveToWaitingChildrenResultPartial, PublicState,
};
use crate::functions::scheduling::{ClaimGrantOutcome, ClaimGrantOutcomePartial};
use crate::functions::signal::{ClaimedResumedExecution, ClaimedResumedExecutionPartial};
use crate::ids;
use crate::ids::{ExecutionId, FlowId};
use crate::laws::execution_replies::attempt_word;
use crate::numbers;
use crate::numbers::{i64_text, parse_i64, parse_u64, u64_text, IntError};
use crate::partition::{Partition, PartitionConfig};
use crate::retry::{kind_to_stable_str, ErrorKind};
use crate::sdk_error::{lift, SdkError, SdkErrorView};
use crate::text;
use crate::worker::FlowFabricWorker;

verus! {

// ── Numbers ──

/// A number below ten is one digit; the text of any other is that of its tens, and its last
/// digit.
pub proof fn law_decimal_digits(tens: u64, d: u64, a: String, b: String, c: String)
    requires
        d < 10,
        0 < tens < u64::MAX / 10,
        call_ensures(u64_text, (tens,), a),
        call_ensures(u64_text, ((tens * 10 + d) as u64,), b),
        call_ensures(u64_text, (d,), c),
    ensures
        c@.len() == 1,
        c@[0] as u32 == '0' as u32 + d,
        b@ == a@ + c@,
{
    let n = (tens * 10 + d) as nat;
    assert(n / 10 == tens && n % 10 == d) by (nonlinear_arith)
        requires
            n == tens * 10 + d,
            d < 10,
    ;
    assert(a@ + c@ =~= a@.push(c@[0]));
}

/// A number that was written is read as itself, with its sign.
pub proof fn law_numbers_read_back(
    n: u64,
    i: i64,
    a: String,
    b: String,
    s: &str,
    t: &str,
    r: Result<u64, IntError>,
    q: Result<i64, IntError>,
)
    requires
        call_ensures(u64_text, (n,), a),
        call_ensures(i64_text, (i,), b),
        s@ == a@,
        t@ == b@,
        call_ensures(parse_u64, (s,), r),
        call_ensures(parse_i64, (t,), q),
    ensures
        r == Ok::<u64, IntError>(n),
        q == Ok::<i64, IntError>(i),
        i < 0 <==> b@[0] == '-',
{
    numbers::law_u64_round_trip(n);
    numbers::law_i64_round_trip(i);
    if i >= 0 {
        numbers::law_u64_round_trip(i as u64);
        if b@[0] == '-' {
            reveal_with_fuel(numbers::read_digits, 2);
        }
    }
}

/// What holds a character that is no digit, but for a sign at its head, is no number; nor is
/// the empty text.
pub proof fn law_only_digits_are_numbers(s: &str, at: int, r: Result<u64, IntError>)
    requires
        call_ensures(parse_u64, (s,), r),
        s@.len() == 0 || (0 <= at < s@.len() && !('0' <= s@[at] <= '9') && !(at == 0 && s@[at]
            == '+')),
    ensures
        r is Err,
{
    if s@.len() > 0 {
        if s@[0] == '+' {
            if s@.len() > 1 {
                assert(s@.skip(1)[at - 1] == s@[at]);
                lemma_no_digit(s@.skip(1), at - 1, 0, u64::MAX as nat);
            }
        } else {
            lemma_no_digit(s@, at, 0, u64::MAX as nat);
        }
    }
}

proof fn lemma_no_digit(s: Seq<char>, at: int, acc: nat, max: nat)
    requires
        0 <= at < s.len(),
        !('0' <= s[at] <= '9'),
    ensures
        numbers::read_digits(s, acc, max, IntError::PosOverflow) is Err,
    decreases s.len(),
{
    if at > 0 && numbers::is_digit(s[0]) {
        assert(s.skip(1)[at - 1] == s[at]);
        lemma_no_digit(s.skip(1), at - 1, acc * 10 + numbers::digit_value(s[0]), max);
    }
}

// ── Partitions and identities ──

/// The tag of a partition is its family's prefix and its number, in braces. An execution is
/// tagged as its flow.
pub proof fn law_partition_tags(p: &Partition, r: String)
    requires
        call_ensures(Partition::hash_tag, (p,), r),
    ensures
        (p.family is Flow || p.family is Execution) ==> r@ == "{fp:"@ + numbers::decimal(
            p.index as int,
        ) + "}"@,
        p.family is Budget ==> r@ == "{b:"@ + numbers::decimal(p.index as int) + "}"@,
        p.family is Quota ==> r@ == "{q:"@ + numbers::decimal(p.index as int) + "}"@,
{
    reveal_strlit("{");
    reveal_strlit(":");
    reveal_strlit("fp");
    reveal_strlit("b");
    reveal_strlit("q");
    reveal_strlit("{fp:");
    reveal_strlit("{b:");
    reveal_strlit("{q:");
    assert("{"@ + "fp"@ + ":"@ =~= "{fp:"@);
    assert("{"@ + "b"@ + ":"@ =~= "{b:"@);
    assert("{"@ + "q"@ + ":"@ =~= "{q:"@);
}

/// An identity in plain form is taken as it is, and what was taken is in plain form.
pub proof fn law_identities_are_kept(s: &str, r: Result<FlowId, String>, q: Result<ExecutionId, String>)
    requires
        call_ensures(FlowId::parse, (s,), r),
        call_ensures(ExecutionId::parse, (s,), q),
    ensures
        ids::canonical_uuid(s@) ==> (r matches Ok(id) && id@ == s@),
        ids::plain_execution_id(s@) ==> q is Ok,
        q matches Ok(id) ==> (ids::plain_execution_id(s@) ==> id@ == s@),
{
}

// ── Words ──

/// A state, and why an attempt was made, are read back from their words; no other word is
/// read.
pub proof fn law_words_are_read(
    s: &str,
    p: PublicState,
    k: AttemptType,
    r: Result<PublicState, ScriptError>,
    q: Result<AttemptType, ScriptError>,
)
    requires
        call_ensures(parse_public_state, (s,), r),
        call_ensures(parse_attempt_type, (s,), q),
    ensures
        s@ == crate::functions::execution::state_word(p)@ ==> r == Ok::<PublicState, ScriptError>(
            p,
        ),
        s@ == attempt_word(k)@ ==> q == Ok::<AttemptType, ScriptError>(k),
        (q is Ok) ==> exists|j: AttemptType| s@ == (#[trigger] attempt_word(j))@,
{
    crate::functions::execution::law_state_round_trip(p);
    crate::laws::execution_replies::law_attempt_type_round_trip(k);
    if q is Ok {
        assert(s@ == attempt_word(q->Ok_0)@);
    }
}

/// A tag has a namespace and a name with a dot between them. The namespace is in lower case
/// and begins with a letter; the name does not begin with a dot.
pub proof fn law_tag_keys_are_checked(key: &str, dot: int, r: Result<(), ScriptError>)
    requires
        call_ensures(validate_tag_key, (key,), r),
    ensures
        (1 <= dot && dot + 1 < key@.len() && 'a' <= key@[0] <= 'z' && key@[dot] == '.' && key@[dot
            + 1] != '.' && forall|i: int|
            0 < i < dot ==> ('a' <= #[trigger] key@[i] <= 'z' || '0' <= key@[i] <= '9' || key@[i]
                == '_')) ==> r is Ok,
        (forall|i: int| 0 <= i < key@.len() ==> #[trigger] key@[i] != '.') ==> r is Err,
        (key@.len() > 0 && !('a' <= key@[0] <= 'z')) ==> r is Err,
        key@.len() == 0 ==> r is Err,
        (key@.len() > 0 && key@.last() == '.' && forall|i: int|
            0 <= i < key@.len() - 1 ==> #[trigger] key@[i] != '.') ==> r is Err,
        r matches Err(e) ==> (e matches ScriptError::InvalidTagKey(k) && k@ == key@),
{
    if 1 <= dot && dot + 1 < key@.len() && 'a' <= key@[0] <= 'z' && key@[dot] == '.' && key@[dot
        + 1] != '.' && forall|i: int|
        0 < i < dot ==> ('a' <= #[trigger] key@[i] <= 'z' || '0' <= key@[i] <= '9' || key@[i]
            == '_') {
        assert(crate::functions::execution::tag_key_with(key@, dot));
    }
}

/// The wire names of the kinds of client faults. A kind without a name of its own is unknown.
pub proof fn law_kind_names(kind: ErrorKind, r: &'static str)
    requires
        call_ensures(kind_to_stable_str, (kind,), r),
    ensures
        kind == ErrorKind::ResponseError ==> r == "response_error",
        kind == ErrorKind::ParseError ==> r == "parse_error",
        kind == ErrorKind::AuthenticationFailed ==> r == "authentication_failed",
        kind == ErrorKind::PermissionDenied ==> r == "permission_denied",
        kind == ErrorKind::TypeError ==> r == "type_error",
        kind == ErrorKind::ExecAbortError ==> r == "exec_abort",
        kind == ErrorKind::BusyLoadingError ==> r == "busy_loading",
        kind == ErrorKind::NoScriptError ==> r == "no_script",
        kind == ErrorKind::InvalidClientConfig ==> r == "invalid_client_config",
        kind == ErrorKind::Moved ==> r == "moved",
        kind == ErrorKind::Ask ==> r == "ask",
        kind == ErrorKind::TryAgain ==> r == "try_again",
        kind == ErrorKind::ClusterDown ==> r == "cluster_down",
        kind == ErrorKind::CrossSlot ==> r == "cross_slot",
        kind == ErrorKind::MasterDown ==> r == "master_down",
        kind == ErrorKind::IoError ==> r == "io_error",
        kind == ErrorKind::FatalSendError ==> r == "fatal_send",
        kind == ErrorKind::FatalReceiveError ==> r == "fatal_receive",
        kind == ErrorKind::ClientError ==> r == "client_error",
        kind == ErrorKind::ExtensionError ==> r == "extension_error",
        kind == ErrorKind::ReadOnly ==> r == "read_only",
        kind == ErrorKind::MasterNameNotFoundBySentinel ==> r == "master_name_not_found_by_sentinel",
        kind == ErrorKind::NoValidReplicasFoundBySentinel ==> r == "no_valid_replicas_found_by_sentinel",
        (kind != ErrorKind::ResponseError && kind != ErrorKind::ParseError && kind != ErrorKind::AuthenticationFailed && kind != ErrorKind::PermissionDenied && kind != ErrorKind::TypeError && kind != ErrorKind::ExecAbortError && kind != ErrorKind::BusyLoadingError && kind != ErrorKind::NoScriptError && kind != ErrorKind::InvalidClientConfig && kind != ErrorKind::Moved && kind != ErrorKind::Ask && kind != ErrorKind::TryAgain && kind != ErrorKind::ClusterDown && kind != ErrorKind::CrossSlot && kind != ErrorKind::MasterDown && kind != ErrorKind::IoError && kind != ErrorKind::FatalSendError && kind != ErrorKind::FatalReceiveError && kind != ErrorKind::ClientError && kind != ErrorKind::ExtensionError && kind != ErrorKind::ReadOnly && kind != ErrorKind::MasterNameNotFoundBySentinel && kind != ErrorKind::NoValidReplicasFoundBySentinel) ==> r == "unknown",
{
}

// ── What is attached ──

/// A claim that was read is of the execution that is attached to it, with everything that was
/// read.
pub proof fn law_claim_is_of_its_execution(
    p: ClaimExecutionResultPartial,
    id: ExecutionId,
    r: ClaimExecutionResult,
)
    requires
        call_ensures(ClaimExecutionResultPartial::complete, (p, id), r),
    ensures
        r matches ClaimExecutionResult::Claimed(c) && (p matches ClaimExecutionResultPartial::Claimed(
            q,
        ) && c.execution_id == id && c.lease_id == q.lease_id && c.lease_epoch == q.lease_epoch
            && c.attempt_index == q.attempt_index && c.attempt_id == q.attempt_id && c.attempt_type
            == q.attempt_type && c.lease_expires_at == q.lease_expires_at),
{
}

/// A claim of a resumed execution, and one that was granted at once, keep what was read.
pub proof fn law_other_claims_are_kept(
    p: ClaimedResumedExecutionPartial,
    id: ExecutionId,
    r: ClaimedResumedExecution,
    q: ClaimGrantOutcomePartial,
    s: ClaimGrantOutcome,
)
    requires
        call_ensures(ClaimedResumedExecutionPartial::complete, (p, id), r),
        call_ensures(ClaimGrantOutcomePartial::complete, (q,), s),
    ensures
        r.execution_id == id,
        r.lease_id == p.lease_id,
        r.lease_epoch == p.lease_epoch,
        r.attempt_index == p.attempt_index,
        r.attempt_id == p.attempt_id,
        r.lease_expires_at == p.lease_expires_at,
        s.lease_id == q.lease_id,
        s.lease_epoch == q.lease_epoch,
        s.attempt_index == q.attempt_index,
{
}

/// An expiry names the execution exactly where it expired.
pub proof fn law_expiry_is_of_its_execution(
    p: ExpireExecutionResultPartial,
    id: ExecutionId,
    r: ExpireExecutionResult,
)
    requires
        call_ensures(ExpireExecutionResultPartial::complete, (p, id), r),
    ensures
        p is Expired ==> (r matches ExpireExecutionResult::Expired { execution_id } && execution_id
            == id),
        p is AlreadyTerminal ==> r is AlreadyTerminal,
{
}

/// A completion that was read is of the execution that is attached to it, in the state that was
/// read.
pub proof fn law_completion_is_of_its_execution(p: CompleteExecutionResultPartial, id: ExecutionId, r: CompleteExecutionResult)
    requires
        call_ensures(CompleteExecutionResultPartial::complete, (p, id), r),
    ensures
        r matches CompleteExecutionResult::Completed { execution_id, public_state } && execution_id == id && p == (CompleteExecutionResultPartial::Completed { public_state }),
{
}

/// A cancellation that was read is of the execution that is attached to it, in the state that was
/// read.
pub proof fn law_cancellation_is_of_its_execution(p: CancelExecutionResultPartial, id: ExecutionId, r: CancelExecutionResult)
    requires
        call_ensures(CancelExecutionResultPartial::complete, (p, id), r),
    ensures
        r matches CancelExecutionResult::Cancelled { execution_id, public_state } && execution_id == id && p == (CancelExecutionResultPartial::Cancelled { public_state }),
{
}

/// A delay that was read is of the execution that is attached to it, in the state that was
/// read.
pub proof fn law_delay_is_of_its_execution(p: DelayExecutionResultPartial, id: ExecutionId, r: DelayExecutionResult)
    requires
        call_ensures(DelayExecutionResultPartial::complete, (p, id), r),
    ensures
        r matches DelayExecutionResult::Delayed { execution_id, public_state } && execution_id == id && p == (DelayExecutionResultPartial::Delayed { public_state }),
{
}

/// A wait for children that was read is of the execution that is attached to it, in the state that was
/// read.
pub proof fn law_waiting_is_of_its_execution(p: MoveToWaitingChildrenResultPartial, id: ExecutionId, r: MoveToWaitingChildrenResult)
    requires
        call_ensures(MoveToWaitingChildrenResultPartial::complete, (p, id), r),
    ensures
        r matches MoveToWaitingChildrenResult::Moved { execution_id, public_state } && execution_id == id && p == (MoveToWaitingChildrenResultPartial::Moved { public_state }),
{
}

// ── Configuration ──

/// Leases are renewed three times in their life; a worker holds at least one task.
pub proof fn law_configuration(c: &WorkerConfig, r: u64, n: usize)
    requires
        call_ensures(WorkerConfig::renewal_interval_ms, (c,), r),
        call_ensures(WorkerConfig::permits, (c,), n),
    ensures
        3 * r <= c.lease_ttl_ms < 3 * (r + 1),
        n >= 1,
        c.max_concurrent_tasks >= 1 ==> n == c.max_concurrent_tasks,
        c.max_concurrent_tasks == 0 ==> n == 1,
{
}

/// A worker on a backend that it is given needs a lane and good capabilities, and no backend
/// of its own. It has the partitions that it is told, or the usual number.
pub proof fn law_connecting_with(config: WorkerConfig, r: Result<FlowFabricWorker, SdkError>)
    requires
        call_ensures(FlowFabricWorker::connect_with, (config,), r),
    ensures
        config.lanes@.len() == 0 ==> r is Err,
        (config.lanes@.len() > 0 && config.capabilities@.len() == 0) ==> r is Ok,
        r matches Err(x) ==> x is Config,
        r matches Ok(w) ==> w.config_spec() == config && w.lane_cursor() == 0,
        (r is Ok && config.partition_config is Some) ==> r->Ok_0.partitions_spec()
            == config.partition_config->0,
        (r is Ok && config.partition_config is None) ==> r->Ok_0.partitions_spec() == (
        PartitionConfig {
            num_flow_partitions: 256,
            num_budget_partitions: 32,
            num_quota_partitions: 32,
        }),
{
    if config.lanes@.len() > 0 && config.capabilities@.len() == 0 {
        assert(text::texts(config.capabilities@).len() == 0);
    }
}

/// A result of the engine is handed on; its error becomes the client's.
pub proof fn law_results_are_lifted<T>(out: Result<T, EngineError>, r: Result<T, SdkError>)
    requires
        call_ensures(lift::<T>, (out,), r),
    ensures
        out matches Ok(v) ==> r == Ok::<T, SdkError>(v),
        out matches Err(e) ==> (r matches Err(x) && x@ == SdkErrorView::Engine(Box::new(e@))),
{
}

/// A rotation is asked for under the client's address.
pub proof fn law_rotation_address(c: &FlowFabricAdminClient, r: String)
    requires
        call_ensures(FlowFabricAdminClient::rotate_url, (c,), r),
    ensures
        r@ == c.base_url@ + "/v1/admin/rotate-waitpoint-secret"@,
{
}

} // verus!
