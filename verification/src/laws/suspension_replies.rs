//! What a server writes is what is read: replies to calls on suspensions.

use vstd::prelude::*;
use vstd::string::*;

use crate::collect;
use crate::error::ScriptError;
use crate::error_laws;
use crate::fields::FromFcallResult;
use crate::functions::execution::PublicState;
use crate::functions::execution;
use crate::functions::suspension::VerifyingKid;
use crate::functions::suspension::{CloseWaitpointResult, CreatePendingWaitpointResult, ExpireSuspensionResult, ResumeExecutionResult, RotateWaitpointHmacSecretOutcome, SuspendExecutionResult, WaitpointHmacKids};
use crate::functions::suspension;
use crate::ids;
use crate::laws::written::{refused, written};
use crate::laws::written;
use crate::numbers;
use crate::value::Value;

verus! {

/// A closing that was accepted has happened.
pub proof fn law_close_accepted(raw: &Value, status: Seq<char>, fields: Seq<Seq<char>>, r: Result<CloseWaitpointResult, ScriptError>)
    requires
        call_ensures(CloseWaitpointResult::from_fcall_result, (raw,), r),
        written(*raw, status, fields),
    ensures
        r matches Ok(CloseWaitpointResult::Closed),
{
    let f = written::lemma_written(*raw, status, fields);
}

/// A closing that was refused is the error whose code was written.
pub proof fn law_close_refusal(raw: &Value, e: ScriptError<Seq<char>>, r: Result<CloseWaitpointResult, ScriptError>)
    requires
        call_ensures(CloseWaitpointResult::from_fcall_result, (raw,), r),
        refused(*raw, e),
    ensures
        r matches Err(x) && x@ == error_laws::emptied(e),
{
    let f = written::lemma_refused(*raw, e);
}

/// A suspension is read with its identity, its waitpoint, the key and the token.
pub proof fn law_suspend_reads_back(raw: &Value, id: Seq<char>, w: Seq<char>, k: Seq<char>, t: Seq<char>, r: Result<SuspendExecutionResult, ScriptError>)
    requires
        call_ensures(SuspendExecutionResult::from_fcall_result, (raw,), r),
        written(*raw, "OK"@, seq![id, w, k, t]),
        ids::canonical_uuid(id),
        ids::canonical_uuid(w),
    ensures
        r matches Ok(SuspendExecutionResult::Suspended { suspension_id, waitpoint_id, waitpoint_key, waitpoint_token }) && suspension_id@ == id && waitpoint_id@ == w && waitpoint_key@ == k && waitpoint_token@ == t,
{
    let f = written::lemma_written(*raw, "OK"@, seq![id, w, k, t]);
    reveal_strlit("OK");
    reveal_strlit("ALREADY_SATISFIED");
    assert("OK"@.len() == 2);
    assert("ALREADY_SATISFIED"@.len() == 17);
}

/// A suspension that was there is told from a new one.
pub proof fn law_suspend_repeated(raw: &Value, id: Seq<char>, w: Seq<char>, k: Seq<char>, t: Seq<char>, r: Result<SuspendExecutionResult, ScriptError>)
    requires
        call_ensures(SuspendExecutionResult::from_fcall_result, (raw,), r),
        written(*raw, "ALREADY_SATISFIED"@, seq![id, w, k, t]),
        ids::canonical_uuid(id),
        ids::canonical_uuid(w),
    ensures
        r matches Ok(SuspendExecutionResult::AlreadySatisfied { suspension_id, waitpoint_id, waitpoint_key, waitpoint_token }) && suspension_id@ == id && waitpoint_id@ == w && waitpoint_key@ == k && waitpoint_token@ == t,
{
    let f = written::lemma_written(*raw, "ALREADY_SATISFIED"@, seq![id, w, k, t]);
    reveal_strlit("OK");
    reveal_strlit("ALREADY_SATISFIED");
    assert("OK"@.len() == 2);
    assert("ALREADY_SATISFIED"@.len() == 17);
}

/// A refused suspension is the error whose code was written.
pub proof fn law_suspend_refusal(raw: &Value, e: ScriptError<Seq<char>>, r: Result<SuspendExecutionResult, ScriptError>)
    requires
        call_ensures(SuspendExecutionResult::from_fcall_result, (raw,), r),
        refused(*raw, e),
    ensures
        r matches Err(x) && x@ == error_laws::emptied(e),
{
    let f = written::lemma_refused(*raw, e);
    error_laws::lemma_code_is_lower(e);
    reveal_strlit("ALREADY_SATISFIED");
}

/// A resumed execution is read with the state that was written.
pub proof fn law_resume_reads_back(raw: &Value, status: Seq<char>, s: PublicState, r: Result<ResumeExecutionResult, ScriptError>)
    requires
        call_ensures(ResumeExecutionResult::from_fcall_result, (raw,), r),
        written(*raw, status, seq![execution::state_word(s)@]),
        s != PublicState::Resumable,
    ensures
        r == Ok::<ResumeExecutionResult, ScriptError>(ResumeExecutionResult::Resumed { public_state: s }),
{
    let f = written::lemma_written(*raw, status, seq![execution::state_word(s)@]);
    execution::law_state_round_trip(s);
}

/// A refused resumption is the error whose code was written.
pub proof fn law_resume_refusal(raw: &Value, e: ScriptError<Seq<char>>, r: Result<ResumeExecutionResult, ScriptError>)
    requires
        call_ensures(ResumeExecutionResult::from_fcall_result, (raw,), r),
        refused(*raw, e),
    ensures
        r matches Err(x) && x@ == error_laws::emptied(e),
{
    let f = written::lemma_refused(*raw, e);
}

/// A waitpoint is read with its identity, its key and its token.
pub proof fn law_pending_reads_back(raw: &Value, status: Seq<char>, w: Seq<char>, k: Seq<char>, t: Seq<char>, r: Result<CreatePendingWaitpointResult, ScriptError>)
    requires
        call_ensures(CreatePendingWaitpointResult::from_fcall_result, (raw,), r),
        written(*raw, status, seq![w, k, t]),
        ids::canonical_uuid(w),
    ensures
        r matches Ok(CreatePendingWaitpointResult::Created { waitpoint_id, waitpoint_key, waitpoint_token }) && waitpoint_id@ == w && waitpoint_key@ == k && waitpoint_token@ == t,
{
    let f = written::lemma_written(*raw, status, seq![w, k, t]);
}

/// A refused waitpoint is the error whose code was written.
pub proof fn law_pending_refusal(raw: &Value, e: ScriptError<Seq<char>>, r: Result<CreatePendingWaitpointResult, ScriptError>)
    requires
        call_ensures(CreatePendingWaitpointResult::from_fcall_result, (raw,), r),
        refused(*raw, e),
    ensures
        r matches Err(x) && x@ == error_laws::emptied(e),
{
    let f = written::lemma_refused(*raw, e);
}

/// A suspension has expired, with the behavior that was written, unless there was nothing to expire.
pub proof fn law_expiry_reads_back(raw: &Value, status: Seq<char>, word: Seq<char>, r: Result<ExpireSuspensionResult, ScriptError>)
    requires
        call_ensures(ExpireSuspensionResult::from_fcall_result, (raw,), r),
        written(*raw, status, seq![word]),
    ensures
        (word == "not_found_cleaned"@ || word == "not_suspended_cleaned"@ || word == "no_active_suspension_cleaned"@ || word == "not_yet_due"@) ==> (r matches Ok(ExpireSuspensionResult::AlreadySatisfied { reason }) && reason@ == word),
        !(word == "not_found_cleaned"@ || word == "not_suspended_cleaned"@ || word == "no_active_suspension_cleaned"@ || word == "not_yet_due"@) ==> (r matches Ok(ExpireSuspensionResult::Expired { behavior_applied }) && behavior_applied@ == word),
{
    let f = written::lemma_written(*raw, status, seq![word]);
}

/// A refused expiry is the error whose code was written.
pub proof fn law_expiry_refusal(raw: &Value, e: ScriptError<Seq<char>>, r: Result<ExpireSuspensionResult, ScriptError>)
    requires
        call_ensures(ExpireSuspensionResult::from_fcall_result, (raw,), r),
        refused(*raw, e),
    ensures
        r matches Err(x) && x@ == error_laws::emptied(e),
{
    let f = written::lemma_refused(*raw, e);
}

/// A rotation is read with the old secret, the new one and the number that was dropped.
pub proof fn law_rotation_reads_back(raw: &Value, status: Seq<char>, old: Seq<char>, new: Seq<char>, n: u32, r: Result<RotateWaitpointHmacSecretOutcome, ScriptError>)
    requires
        call_ensures(RotateWaitpointHmacSecretOutcome::from_fcall_result, (raw,), r),
        written(*raw, status, seq!["rotated"@, old, new, numbers::decimal(n as int)]),
    ensures
        r matches Ok(RotateWaitpointHmacSecretOutcome::Rotated { previous_kid, new_kid, gc_count }) && new_kid@ == new && gc_count == n && (old.len() == 0 <==> previous_kid is None) && (previous_kid matches Some(p) ==> p@ == old),
{
    let f = written::lemma_written(*raw, status, seq!["rotated"@, old, new, numbers::decimal(n as int)]);
    numbers::law_u32_round_trip(n);
    reveal_strlit("rotated");
    reveal_strlit("noop");
    assert("rotated"@.len() == 7);
    assert("noop"@.len() == 4);
}

/// A secret that was there is told from a new one.
pub proof fn law_rotation_repeated(raw: &Value, status: Seq<char>, k: Seq<char>, r: Result<RotateWaitpointHmacSecretOutcome, ScriptError>)
    requires
        call_ensures(RotateWaitpointHmacSecretOutcome::from_fcall_result, (raw,), r),
        written(*raw, status, seq!["noop"@, k]),
    ensures
        r matches Ok(RotateWaitpointHmacSecretOutcome::Noop { kid }) && kid@ == k,
{
    let f = written::lemma_written(*raw, status, seq!["noop"@, k]);
    reveal_strlit("rotated");
    reveal_strlit("noop");
    assert("rotated"@.len() == 7);
    assert("noop"@.len() == 4);
}

/// A word that is neither cannot be read.
pub proof fn law_rotation_other_words(raw: &Value, status: Seq<char>, word: Seq<char>, r: Result<RotateWaitpointHmacSecretOutcome, ScriptError>)
    requires
        call_ensures(RotateWaitpointHmacSecretOutcome::from_fcall_result, (raw,), r),
        written(*raw, status, seq![word]),
        word != "rotated"@,
        word != "noop"@,
    ensures
        r is Err,
{
    let f = written::lemma_written(*raw, status, seq![word]);
}

/// A refused rotation is the error whose code was written.
pub proof fn law_rotation_refusal(raw: &Value, e: ScriptError<Seq<char>>, r: Result<RotateWaitpointHmacSecretOutcome, ScriptError>)
    requires
        call_ensures(RotateWaitpointHmacSecretOutcome::from_fcall_result, (raw,), r),
        refused(*raw, e),
    ensures
        r matches Err(x) && x@ == error_laws::emptied(e),
{
    let f = written::lemma_refused(*raw, e);
}

/// A refused list is the error whose code was written.
pub proof fn law_kids_refusal(raw: &Value, e: ScriptError<Seq<char>>, r: Result<WaitpointHmacKids, ScriptError>)
    requires
        call_ensures(WaitpointHmacKids::from_fcall_result, (raw,), r),
        refused(*raw, e),
    ensures
        r matches Err(x) && x@ == error_laws::emptied(e),
{
    let f = written::lemma_refused(*raw, e);
}

/// The fields in which a server lists secrets: the current one, how many more verify, and
/// each of these with its expiry.
pub open spec fn kid_fields(current: Seq<char>, kids: Seq<VerifyingKid<Seq<char>>>) -> Seq<
    Seq<char>,
> {
    Seq::new(
        2 + 2 * kids.len(),
        |i: int|
            if i == 0 {
                current
            } else if i == 1 {
                numbers::decimal(kids.len() as int)
            } else if i % 2 == 0 {
                kids[(i - 2) / 2].kid
            } else {
                numbers::decimal(kids[(i - 2) / 2].expires_at_ms as int)
            },
    )
}

/// The secrets are read as they were written, each with its own expiry and in order.
pub proof fn law_kids_read_back(
    raw: &Value,
    status: Seq<char>,
    current: Seq<char>,
    kids: Seq<VerifyingKid<Seq<char>>>,
    r: Result<WaitpointHmacKids, ScriptError>,
)
    requires
        call_ensures(WaitpointHmacKids::from_fcall_result, (raw,), r),
        kids.len() <= usize::MAX,
        written(*raw, status, kid_fields(current, kids)),
    ensures
        r matches Ok(k) && k.verifying@.len() == kids.len() && (current.len() == 0
            <==> k.current_kid is None) && (k.current_kid matches Some(c) ==> c@ == current)
            && forall|i: int|
            0 <= i < kids.len() ==> (#[trigger] k.verifying@[i]).kid@ == kids[i].kid
                && k.verifying@[i].expires_at_ms == kids[i].expires_at_ms,
{
    let fields = kid_fields(current, kids);
    let f = written::lemma_written(*raw, status, fields);
    assert(f.field(0) == fields[0] && f.field(1) == fields[1]);
    numbers::law_usize_round_trip(kids.len() as usize);
    let list = suspension::kid_list(f, kids.len());
    assert forall|i: int| 0 <= i < kids.len() implies #[trigger] list[i] == Ok::<
        VerifyingKid<Seq<char>>,
        ScriptError<Seq<char>>,
    >(kids[i]) by {
        assert(f.field(2 + 2 * i) == fields[2 + 2 * i]);
        assert(f.field(2 + 2 * i + 1) == fields[2 + 2 * i + 1]);
        numbers::law_i64_round_trip(kids[i].expires_at_ms);
    }
    collect::lemma_all_ok_values(list);
    let k = r->Ok_0;
    assert forall|i: int| 0 <= i < kids.len() implies (#[trigger] k.verifying@[i]).kid@
        == kids[i].kid && k.verifying@[i].expires_at_ms == kids[i].expires_at_ms by {
        assert(suspension::kids_view(k.verifying@)[i] == kids[i]);
    }
}

} // verus!
