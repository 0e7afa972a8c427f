//! What a server writes is what is read: replies to calls of scheduling.

use vstd::prelude::*;
use vstd::string::*;

use crate::error::ScriptError;
use crate::error_laws;
use crate::fields::FromFcallResult;
use crate::functions::scheduling::{ChangePriorityResultPartial, ClaimGrantOutcomePartial, IssueClaimGrantResult, UpdateProgressResult};
use crate::ids;
use crate::laws::written::{refused, written};
use crate::laws::written;
use crate::numbers;
use crate::value::Value;

verus! {

/// A change of priority that was accepted has happened.
pub proof fn law_priority_accepted(raw: &Value, status: Seq<char>, fields: Seq<Seq<char>>, r: Result<ChangePriorityResultPartial, ScriptError>)
    requires
        call_ensures(ChangePriorityResultPartial::from_fcall_result, (raw,), r),
        written(*raw, status, fields),
    ensures
        r matches Ok(ChangePriorityResultPartial::Changed),
{
    let f = written::lemma_written(*raw, status, fields);
}

/// A change of priority that was refused is the error whose code was written.
pub proof fn law_priority_refusal(raw: &Value, e: ScriptError<Seq<char>>, r: Result<ChangePriorityResultPartial, ScriptError>)
    requires
        call_ensures(ChangePriorityResultPartial::from_fcall_result, (raw,), r),
        refused(*raw, e),
    ensures
        r matches Err(x) && x@ == error_laws::emptied(e),
{
    let f = written::lemma_refused(*raw, e);
}

/// A report of progress that was accepted has happened.
pub proof fn law_progress_accepted(raw: &Value, status: Seq<char>, fields: Seq<Seq<char>>, r: Result<UpdateProgressResult, ScriptError>)
    requires
        call_ensures(UpdateProgressResult::from_fcall_result, (raw,), r),
        written(*raw, status, fields),
    ensures
        r matches Ok(UpdateProgressResult::Updated),
{
    let f = written::lemma_written(*raw, status, fields);
}

/// A report of progress that was refused is the error whose code was written.
pub proof fn law_progress_refusal(raw: &Value, e: ScriptError<Seq<char>>, r: Result<UpdateProgressResult, ScriptError>)
    requires
        call_ensures(UpdateProgressResult::from_fcall_result, (raw,), r),
        refused(*raw, e),
    ensures
        r matches Err(x) && x@ == error_laws::emptied(e),
{
    let f = written::lemma_refused(*raw, e);
}

/// A grant names the execution that was written.
pub proof fn law_grant_reads_back(raw: &Value, status: Seq<char>, id: Seq<char>, r: Result<IssueClaimGrantResult, ScriptError>)
    requires
        call_ensures(IssueClaimGrantResult::from_fcall_result, (raw,), r),
        written(*raw, status, seq![id]),
        ids::plain_execution_id(id),
    ensures
        r matches Ok(IssueClaimGrantResult::Granted { execution_id }) && execution_id@ == id,
{
    let f = written::lemma_written(*raw, status, seq![id]);
}

/// A refused grant is the error whose code was written.
pub proof fn law_grant_refusal(raw: &Value, e: ScriptError<Seq<char>>, r: Result<IssueClaimGrantResult, ScriptError>)
    requires
        call_ensures(IssueClaimGrantResult::from_fcall_result, (raw,), r),
        refused(*raw, e),
    ensures
        r matches Err(x) && x@ == error_laws::emptied(e),
{
    let f = written::lemma_refused(*raw, e);
}

/// A lease that was granted and claimed at once is read with the epoch and the attempt index that were written.
pub proof fn law_grant_and_claim_reads_back(raw: &Value, status: Seq<char>, l: Seq<char>, e: u64, i: u32, r: Result<ClaimGrantOutcomePartial, ScriptError>)
    requires
        call_ensures(ClaimGrantOutcomePartial::from_fcall_result, (raw,), r),
        written(*raw, status, seq![l, numbers::decimal(e as int), numbers::decimal(i as int)]),
        ids::canonical_uuid(l),
    ensures
        r matches Ok(p) && p.lease_id@ == l && p.lease_epoch.0 == e && p.attempt_index.0 == i,
{
    let f = written::lemma_written(*raw, status, seq![l, numbers::decimal(e as int), numbers::decimal(i as int)]);
    numbers::law_u64_round_trip(e);
    numbers::law_u32_round_trip(i);
}

/// A refused grant with its claim is the error whose code was written.
pub proof fn law_grant_and_claim_refusal(raw: &Value, e: ScriptError<Seq<char>>, r: Result<ClaimGrantOutcomePartial, ScriptError>)
    requires
        call_ensures(ClaimGrantOutcomePartial::from_fcall_result, (raw,), r),
        refused(*raw, e),
    ensures
        r matches Err(x) && x@ == error_laws::emptied(e),
{
    let f = written::lemma_refused(*raw, e);
}

} // verus!
