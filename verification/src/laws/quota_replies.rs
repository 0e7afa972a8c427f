//! What a server writes is what is read: replies to calls on quotas.

use vstd::prelude::*;
use vstd::string::*;

use crate::error::ScriptError;
use crate::error::ServerError;
use crate::error_laws;
use crate::fields::FromFcallResult;
use crate::functions::quota::CheckAdmissionResult;
use crate::functions::quota::{CreateQuotaPolicyResult};
use crate::ids;
use crate::laws::written::says;
use crate::laws::written::{refused, written};
use crate::laws::written;
use crate::numbers;
use crate::value::Value;

verus! {

/// A quota policy that was made is told from one that was there.
pub proof fn law_create_quota_created(raw: &Value, id: Seq<char>, r: Result<CreateQuotaPolicyResult, ScriptError>)
    requires
        call_ensures(CreateQuotaPolicyResult::from_fcall_result, (raw,), r),
        written(*raw, "OK"@, seq![id]),
        ids::canonical_uuid(id),
    ensures
        r matches Ok(CreateQuotaPolicyResult::Created { quota_policy_id }) && quota_policy_id@ == id,
{
    let f = written::lemma_written(*raw, "OK"@, seq![id]);
    reveal_strlit("OK");
    reveal_strlit("ALREADY_SATISFIED");
    assert("OK"@.len() == 2);
    assert("ALREADY_SATISFIED"@.len() == 17);
}

/// A quota policy that was there is told from one that was made.
pub proof fn law_create_quota_already(raw: &Value, id: Seq<char>, r: Result<CreateQuotaPolicyResult, ScriptError>)
    requires
        call_ensures(CreateQuotaPolicyResult::from_fcall_result, (raw,), r),
        written(*raw, "ALREADY_SATISFIED"@, seq![id]),
        ids::canonical_uuid(id),
    ensures
        r matches Ok(CreateQuotaPolicyResult::AlreadySatisfied { quota_policy_id }) && quota_policy_id@ == id,
{
    let f = written::lemma_written(*raw, "ALREADY_SATISFIED"@, seq![id]);
    reveal_strlit("OK");
    reveal_strlit("ALREADY_SATISFIED");
    assert("OK"@.len() == 2);
    assert("ALREADY_SATISFIED"@.len() == 17);
}

/// No other status says that it is there.
pub proof fn law_create_quota_other_status(raw: &Value, status: Seq<char>, id: Seq<char>, r: Result<CreateQuotaPolicyResult, ScriptError>)
    requires
        call_ensures(CreateQuotaPolicyResult::from_fcall_result, (raw,), r),
        written(*raw, status, seq![id]),
        status != "OK"@,
        status != "ALREADY_SATISFIED"@,
    ensures
        r is Err,
{
    let f = written::lemma_written(*raw, status, seq![id]);
}

/// A refused creation of a quota policy is the error whose code was written.
pub proof fn law_create_quota_refusal(raw: &Value, e: ScriptError<Seq<char>>, r: Result<CreateQuotaPolicyResult, ScriptError>)
    requires
        call_ensures(CreateQuotaPolicyResult::from_fcall_result, (raw,), r),
        refused(*raw, e),
    ensures
        r matches Err(x) && x@ == error_laws::emptied(e),
{
    let f = written::lemma_refused(*raw, e);
}

/// The word in which a server tells whether a call is admitted.
pub open spec fn admission_word(o: CheckAdmissionResult) -> &'static str {
    match o {
        CheckAdmissionResult::Admitted => "ADMITTED",
        CheckAdmissionResult::AlreadyAdmitted => "ALREADY_ADMITTED",
        CheckAdmissionResult::RateExceeded { .. } => "RATE_EXCEEDED",
        CheckAdmissionResult::ConcurrencyExceeded => "CONCURRENCY_EXCEEDED",
    }
}

/// Whether a call is admitted is read back from its word, and the time to wait from the
/// number after it. This reply has no envelope.
pub proof fn law_admission_reads_back(
    raw: &Value,
    items: Vec<Result<Value, ServerError>>,
    o: CheckAdmissionResult,
    r: Result<CheckAdmissionResult, ScriptError>,
)
    requires
        call_ensures(CheckAdmissionResult::from_fcall_result, (raw,), r),
        *raw == Value::Array(items),
        items@.len() >= 1,
        says(items@[0], admission_word(o)@),
        !(items@[0] matches Ok(Value::Int(_))),
        o matches CheckAdmissionResult::RateExceeded { retry_after_ms } ==> items@.len() >= 2
            && says(items@[1], numbers::decimal(retry_after_ms as int)) && !(
        items@[1] matches Ok(Value::SimpleString(_))),
    ensures
        r == Ok::<CheckAdmissionResult, ScriptError>(o),
{
    written::lemma_says(items@[0], admission_word(o)@);
    reveal_strlit("ADMITTED");
    reveal_strlit("ALREADY_ADMITTED");
    reveal_strlit("RATE_EXCEEDED");
    reveal_strlit("CONCURRENCY_EXCEEDED");
    assert("ADMITTED"@.len() == 8 && "ALREADY_ADMITTED"@.len() == 16);
    assert("RATE_EXCEEDED"@.len() == 13 && "CONCURRENCY_EXCEEDED"@.len() == 20);
    if let CheckAdmissionResult::RateExceeded { retry_after_ms } = o {
        numbers::law_u64_round_trip(retry_after_ms);
        written::lemma_says(items@[1], numbers::decimal(retry_after_ms as int));
    }
}

/// A word that tells nothing of admission cannot be read.
pub proof fn law_admission_other_words(
    raw: &Value,
    items: Vec<Result<Value, ServerError>>,
    word: Seq<char>,
    r: Result<CheckAdmissionResult, ScriptError>,
)
    requires
        call_ensures(CheckAdmissionResult::from_fcall_result, (raw,), r),
        *raw == Value::Array(items),
        items@.len() >= 1,
        says(items@[0], word),
        word != "ADMITTED"@,
        word != "ALREADY_ADMITTED"@,
        word != "RATE_EXCEEDED"@,
        word != "CONCURRENCY_EXCEEDED"@,
    ensures
        r is Err,
{
    written::lemma_says(items@[0], word);
}

} // verus!
