//! What a server writes is what is read: replies to calls of the execution lifecycle.

use vstd::prelude::*;
use vstd::string::*;

use crate::error::{ScriptError, ScriptErrorView};
use crate::error_laws;
use crate::fields::FromFcallResult;
use crate::functions::execution::{AttemptType, CancelExecutionResultPartial, ClaimExecutionResultPartial, CompleteExecutionResultPartial, CreateExecutionResult, DelayExecutionResultPartial, ExpireExecutionResultPartial, FailExecutionResult, MoveToWaitingChildrenResultPartial, PublicState, SetExecutionTagsResult};
use crate::functions::execution;
use crate::ids;
use crate::laws::written::{refused, written};
use crate::laws::written;
use crate::numbers;
use crate::value::Value;

verus! {

/// A completion that was accepted has happened.
pub proof fn law_complete_accepted(raw: &Value, status: Seq<char>, fields: Seq<Seq<char>>, r: Result<CompleteExecutionResultPartial, ScriptError>)
    requires
        call_ensures(CompleteExecutionResultPartial::from_fcall_result, (raw,), r),
        written(*raw, status, fields),
    ensures
        r == Ok::<CompleteExecutionResultPartial, ScriptError>(CompleteExecutionResultPartial::Completed { public_state: PublicState::Completed }),
{
    let f = written::lemma_written(*raw, status, fields);
}

/// A completion that was refused is the error whose code was written.
pub proof fn law_complete_refusal(raw: &Value, e: ScriptError<Seq<char>>, r: Result<CompleteExecutionResultPartial, ScriptError>)
    requires
        call_ensures(CompleteExecutionResultPartial::from_fcall_result, (raw,), r),
        refused(*raw, e),
    ensures
        r matches Err(x) && x@ == error_laws::emptied(e),
{
    let f = written::lemma_refused(*raw, e);
}

/// A cancellation that was accepted has happened.
pub proof fn law_cancel_accepted(raw: &Value, status: Seq<char>, fields: Seq<Seq<char>>, r: Result<CancelExecutionResultPartial, ScriptError>)
    requires
        call_ensures(CancelExecutionResultPartial::from_fcall_result, (raw,), r),
        written(*raw, status, fields),
    ensures
        r == Ok::<CancelExecutionResultPartial, ScriptError>(CancelExecutionResultPartial::Cancelled { public_state: PublicState::Cancelled }),
{
    let f = written::lemma_written(*raw, status, fields);
}

/// A cancellation that was refused is the error whose code was written.
pub proof fn law_cancel_refusal(raw: &Value, e: ScriptError<Seq<char>>, r: Result<CancelExecutionResultPartial, ScriptError>)
    requires
        call_ensures(CancelExecutionResultPartial::from_fcall_result, (raw,), r),
        refused(*raw, e),
    ensures
        r matches Err(x) && x@ == error_laws::emptied(e),
{
    let f = written::lemma_refused(*raw, e);
}

/// A delay that was accepted has happened.
pub proof fn law_delay_accepted(raw: &Value, status: Seq<char>, fields: Seq<Seq<char>>, r: Result<DelayExecutionResultPartial, ScriptError>)
    requires
        call_ensures(DelayExecutionResultPartial::from_fcall_result, (raw,), r),
        written(*raw, status, fields),
    ensures
        r == Ok::<DelayExecutionResultPartial, ScriptError>(DelayExecutionResultPartial::Delayed { public_state: PublicState::Delayed }),
{
    let f = written::lemma_written(*raw, status, fields);
}

/// A delay that was refused is the error whose code was written.
pub proof fn law_delay_refusal(raw: &Value, e: ScriptError<Seq<char>>, r: Result<DelayExecutionResultPartial, ScriptError>)
    requires
        call_ensures(DelayExecutionResultPartial::from_fcall_result, (raw,), r),
        refused(*raw, e),
    ensures
        r matches Err(x) && x@ == error_laws::emptied(e),
{
    let f = written::lemma_refused(*raw, e);
}

/// A wait for children that was accepted has happened.
pub proof fn law_move_accepted(raw: &Value, status: Seq<char>, fields: Seq<Seq<char>>, r: Result<MoveToWaitingChildrenResultPartial, ScriptError>)
    requires
        call_ensures(MoveToWaitingChildrenResultPartial::from_fcall_result, (raw,), r),
        written(*raw, status, fields),
    ensures
        r == Ok::<MoveToWaitingChildrenResultPartial, ScriptError>(MoveToWaitingChildrenResultPartial::Moved { public_state: PublicState::WaitingChildren }),
{
    let f = written::lemma_written(*raw, status, fields);
}

/// A wait for children that was refused is the error whose code was written.
pub proof fn law_move_refusal(raw: &Value, e: ScriptError<Seq<char>>, r: Result<MoveToWaitingChildrenResultPartial, ScriptError>)
    requires
        call_ensures(MoveToWaitingChildrenResultPartial::from_fcall_result, (raw,), r),
        refused(*raw, e),
    ensures
        r matches Err(x) && x@ == error_laws::emptied(e),
{
    let f = written::lemma_refused(*raw, e);
}

/// A new execution is read with the identity and the state that were written.
pub proof fn law_create_reads_back(raw: &Value, id: Seq<char>, s: PublicState, r: Result<CreateExecutionResult, ScriptError>)
    requires
        call_ensures(CreateExecutionResult::from_fcall_result, (raw,), r),
        written(*raw, "OK"@, seq![id, execution::state_word(s)@]),
        ids::plain_execution_id(id),
    ensures
        r matches Ok(CreateExecutionResult::Created { execution_id, public_state }) && execution_id@ == id && public_state == s,
{
    let f = written::lemma_written(*raw, "OK"@, seq![id, execution::state_word(s)@]);
    reveal_strlit("OK");
    reveal_strlit("DUPLICATE");
    assert("OK"@.len() == 2);
    assert("DUPLICATE"@.len() == 9);
    execution::law_state_round_trip(s);
}

/// An execution that the same key made before is read as that one.
pub proof fn law_create_duplicate(raw: &Value, id: Seq<char>, r: Result<CreateExecutionResult, ScriptError>)
    requires
        call_ensures(CreateExecutionResult::from_fcall_result, (raw,), r),
        written(*raw, "DUPLICATE"@, seq![id]),
        ids::plain_execution_id(id),
    ensures
        r matches Ok(CreateExecutionResult::Duplicate { execution_id }) && execution_id@ == id,
{
    let f = written::lemma_written(*raw, "DUPLICATE"@, seq![id]);
}

/// A refused creation is the error whose code was written.
pub proof fn law_create_refusal(raw: &Value, e: ScriptError<Seq<char>>, r: Result<CreateExecutionResult, ScriptError>)
    requires
        call_ensures(CreateExecutionResult::from_fcall_result, (raw,), r),
        refused(*raw, e),
    ensures
        r matches Err(x) && x@ == error_laws::emptied(e),
{
    let f = written::lemma_refused(*raw, e);
    error_laws::lemma_code_is_lower(e);
    reveal_strlit("DUPLICATE");
}

/// The word in which a server tells why an attempt was made.
pub open spec fn attempt_word(k: AttemptType) -> &'static str {
    match k {
        AttemptType::Initial => "initial",
        AttemptType::Retry => "retry",
        AttemptType::Reclaim => "reclaim",
        AttemptType::Replay => "replay",
        AttemptType::Fallback => "fallback",
    }
}

/// Why an attempt was made is read back from its word.
pub proof fn law_attempt_type_round_trip(k: AttemptType)
    ensures
        execution::attempt_type_of(attempt_word(k)@) == Ok::<AttemptType, ScriptErrorView>(k),
{
    reveal_strlit("initial");
    reveal_strlit("retry");
    reveal_strlit("reclaim");
    reveal_strlit("replay");
    reveal_strlit("fallback");
    assert("initial"@.len() == 7);
    assert("retry"@.len() == 5);
    assert("reclaim"@.len() == 7);
    assert("replay"@.len() == 6);
    assert("fallback"@.len() == 8);
    assert("initial"@[0] == 'i');
    assert("reclaim"@[0] == 'r');
}

/// The word of a state is its name in lower case, and no two states share one.
pub proof fn law_state_words()
    ensures
        execution::state_of("waiting"@) == Some(PublicState::Waiting),
        execution::state_of("delayed"@) == Some(PublicState::Delayed),
        execution::state_of("rate_limited"@) == Some(PublicState::RateLimited),
        execution::state_of("waiting_children"@) == Some(PublicState::WaitingChildren),
        execution::state_of("active"@) == Some(PublicState::Active),
        execution::state_of("suspended"@) == Some(PublicState::Suspended),
        execution::state_of("resumable"@) == Some(PublicState::Resumable),
        execution::state_of("completed"@) == Some(PublicState::Completed),
        execution::state_of("failed"@) == Some(PublicState::Failed),
        execution::state_of("cancelled"@) == Some(PublicState::Cancelled),
        execution::state_of("expired"@) == Some(PublicState::Expired),
        execution::state_of("skipped"@) == Some(PublicState::Skipped),
{
    execution::law_state_round_trip(PublicState::Waiting);
    execution::law_state_round_trip(PublicState::Delayed);
    execution::law_state_round_trip(PublicState::RateLimited);
    execution::law_state_round_trip(PublicState::WaitingChildren);
    execution::law_state_round_trip(PublicState::Active);
    execution::law_state_round_trip(PublicState::Suspended);
    execution::law_state_round_trip(PublicState::Resumable);
    execution::law_state_round_trip(PublicState::Completed);
    execution::law_state_round_trip(PublicState::Failed);
    execution::law_state_round_trip(PublicState::Cancelled);
    execution::law_state_round_trip(PublicState::Expired);
    execution::law_state_round_trip(PublicState::Skipped);
}

/// A claim is read with the lease, the epoch, the expiry, the attempt, its index and its type that were written, each as itself.
pub proof fn law_claim_reads_back(raw: &Value, status: Seq<char>, l: Seq<char>, e: u64, t: i64, a: Seq<char>, i: u32, k: AttemptType, r: Result<ClaimExecutionResultPartial, ScriptError>)
    requires
        call_ensures(ClaimExecutionResultPartial::from_fcall_result, (raw,), r),
        written(*raw, status, seq![l, numbers::decimal(e as int), numbers::decimal(t as int), a, numbers::decimal(i as int), attempt_word(k)@]),
        ids::canonical_uuid(l),
        ids::canonical_uuid(a),
    ensures
        r matches Ok(ClaimExecutionResultPartial::Claimed(p)) && p.lease_id@ == l && p.lease_epoch.0 == e && p.lease_expires_at.0 == t && p.attempt_id@ == a && p.attempt_index.0 == i && p.attempt_type == k,
{
    let f = written::lemma_written(*raw, status, seq![l, numbers::decimal(e as int), numbers::decimal(t as int), a, numbers::decimal(i as int), attempt_word(k)@]);
    numbers::law_u64_round_trip(e);
    numbers::law_i64_round_trip(t);
    numbers::law_u32_round_trip(i);
    law_attempt_type_round_trip(k);
}

/// A claim with a part that cannot be read is none: the lease and the attempt are
/// identities, the epoch, the expiry and the index are numbers, and the type is a word.
pub proof fn law_claim_needs_every_part(raw: &Value, status: Seq<char>, fields: Seq<Seq<char>>, r: Result<ClaimExecutionResultPartial, ScriptError>)
    requires
        call_ensures(ClaimExecutionResultPartial::from_fcall_result, (raw,), r),
        written(*raw, status, fields),
        fields.len() == 6,
        r is Ok,
    ensures
        ids::lease_id_of(fields[0]) is Ok,
        numbers::parse_u64_spec(fields[1]) is Ok,
        numbers::parse_i64_spec(fields[2]) is Ok,
        ids::attempt_id_of(fields[3]) is Ok,
        numbers::parse_u32_spec(fields[4]) is Ok,
        exists|k: AttemptType| fields[5] == (#[trigger] attempt_word(k))@,
{
    let f = written::lemma_written(*raw, status, fields);
    assert(f.field(0) == fields[0] && f.field(1) == fields[1] && f.field(2) == fields[2]);
    assert(f.field(3) == fields[3] && f.field(4) == fields[4] && f.field(5) == fields[5]);
    let k = execution::attempt_type_of(fields[5])->Ok_0;
    assert(fields[5] == attempt_word(k)@);
}

/// A refused claim is the error whose code was written.
pub proof fn law_claim_refusal(raw: &Value, e: ScriptError<Seq<char>>, r: Result<ClaimExecutionResultPartial, ScriptError>)
    requires
        call_ensures(ClaimExecutionResultPartial::from_fcall_result, (raw,), r),
        refused(*raw, e),
    ensures
        r matches Err(x) && x@ == error_laws::emptied(e),
{
    let f = written::lemma_refused(*raw, e);
}

/// An attempt that is due again is read with the time that was written.
pub proof fn law_fail_retry(raw: &Value, status: Seq<char>, t: i64, r: Result<FailExecutionResult, ScriptError>)
    requires
        call_ensures(FailExecutionResult::from_fcall_result, (raw,), r),
        written(*raw, status, seq!["retry_scheduled"@, numbers::decimal(t as int)]),
    ensures
        r matches Ok(FailExecutionResult::RetryScheduled { delay_until, next_attempt_index }) && delay_until.0 == t,
{
    let f = written::lemma_written(*raw, status, seq!["retry_scheduled"@, numbers::decimal(t as int)]);
    numbers::law_i64_round_trip(t);
    reveal_strlit("retry_scheduled");
    reveal_strlit("terminal_failed");
    assert("retry_scheduled"@.len() == 15);
    assert("terminal_failed"@.len() == 15);
    assert("retry_scheduled"@[0] == 'r');
    assert("terminal_failed"@[0] == 't');
}

/// A final failure is read as such.
pub proof fn law_fail_final(raw: &Value, status: Seq<char>, r: Result<FailExecutionResult, ScriptError>)
    requires
        call_ensures(FailExecutionResult::from_fcall_result, (raw,), r),
        written(*raw, status, seq!["terminal_failed"@]),
    ensures
        r == Ok::<FailExecutionResult, ScriptError>(FailExecutionResult::TerminalFailed),
{
    let f = written::lemma_written(*raw, status, seq!["terminal_failed"@]);
    reveal_strlit("retry_scheduled");
    reveal_strlit("terminal_failed");
    assert("retry_scheduled"@.len() == 15);
    assert("terminal_failed"@.len() == 15);
    assert("retry_scheduled"@[0] == 'r');
    assert("terminal_failed"@[0] == 't');
}

/// A word that is neither cannot be read.
pub proof fn law_fail_other_words(raw: &Value, status: Seq<char>, word: Seq<char>, r: Result<FailExecutionResult, ScriptError>)
    requires
        call_ensures(FailExecutionResult::from_fcall_result, (raw,), r),
        written(*raw, status, seq![word]),
        word != "retry_scheduled"@,
        word != "terminal_failed"@,
    ensures
        r is Err,
{
    let f = written::lemma_written(*raw, status, seq![word]);
}

/// A refused failure is the error whose code was written.
pub proof fn law_fail_refusal(raw: &Value, e: ScriptError<Seq<char>>, r: Result<FailExecutionResult, ScriptError>)
    requires
        call_ensures(FailExecutionResult::from_fcall_result, (raw,), r),
        refused(*raw, e),
    ensures
        r matches Err(x) && x@ == error_laws::emptied(e),
{
    let f = written::lemma_refused(*raw, e);
}

/// An execution has expired unless it had ended, or was gone.
pub proof fn law_expire_reads_back(raw: &Value, status: Seq<char>, word: Seq<char>, r: Result<ExpireExecutionResultPartial, ScriptError>)
    requires
        call_ensures(ExpireExecutionResultPartial::from_fcall_result, (raw,), r),
        written(*raw, status, seq![word]),
    ensures
        (word == "already_terminal"@ || word == "not_found_cleaned"@) ==> r == Ok::<ExpireExecutionResultPartial, ScriptError>(ExpireExecutionResultPartial::AlreadyTerminal),
        (word != "already_terminal"@ && word != "not_found_cleaned"@) ==> r == Ok::<ExpireExecutionResultPartial, ScriptError>(ExpireExecutionResultPartial::Expired),
{
    let f = written::lemma_written(*raw, status, seq![word]);
}

/// A refused expiry is the error whose code was written.
pub proof fn law_expire_refusal(raw: &Value, e: ScriptError<Seq<char>>, r: Result<ExpireExecutionResultPartial, ScriptError>)
    requires
        call_ensures(ExpireExecutionResultPartial::from_fcall_result, (raw,), r),
        refused(*raw, e),
    ensures
        r matches Err(x) && x@ == error_laws::emptied(e),
{
    let f = written::lemma_refused(*raw, e);
}

/// The number of tags is read as it was written.
pub proof fn law_tags_read_back(raw: &Value, status: Seq<char>, n: u32, r: Result<SetExecutionTagsResult, ScriptError>)
    requires
        call_ensures(SetExecutionTagsResult::from_fcall_result, (raw,), r),
        written(*raw, status, seq![numbers::decimal(n as int)]),
    ensures
        r matches Ok(x) && x.count == n,
{
    let f = written::lemma_written(*raw, status, seq![numbers::decimal(n as int)]);
    numbers::law_u32_round_trip(n);
}

/// Refused tags are the error whose code was written.
pub proof fn law_tags_refusal(raw: &Value, e: ScriptError<Seq<char>>, r: Result<SetExecutionTagsResult, ScriptError>)
    requires
        call_ensures(SetExecutionTagsResult::from_fcall_result, (raw,), r),
        refused(*raw, e),
    ensures
        r matches Err(x) && x@ == error_laws::emptied(e),
{
    let f = written::lemma_refused(*raw, e);
}

} // verus!
