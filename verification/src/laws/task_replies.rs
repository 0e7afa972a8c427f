//! What a server writes is what is read: replies to the calls that a worker makes for
//! its task.

use vstd::prelude::*;
use vstd::string::*;

use crate::error::{ScriptError, ServerError};
use crate::error_laws;
use crate::ids;
use crate::ids::{SuspensionId, WaitpointId};
use crate::laws::written;
use crate::laws::written::{laid_out, says};
use crate::numbers;
use crate::reply;
use crate::reply::{
    parse_fail_result, parse_report_usage_result, parse_signal_result, parse_success_result,
    parse_suspend_result, parse_usage_u64, FailOutcome, ReportUsageResult, SignalOutcome,
    SuspendOutcome,
};
use crate::sdk_error;
use crate::sdk_error::SdkError;
use crate::value::{Item, Value};

verus! {

/// Whether a reply holds a number, and then a word and fields that are all strings.
pub open spec fn spoken(raw: Value, n: i64, word: Seq<char>, fields: Seq<Seq<char>>) -> bool {
    laid_out(raw, n, word, fields) && forall|i: int|
        1 <= i < raw->Array_0@.len() ==> !((#[trigger] raw->Array_0@[i]) matches Ok(Value::Int(_)))
}

/// The slots of a reply hold what was written.
proof fn lemma_slots(raw: Value, n: i64, word: Seq<char>, fields: Seq<Seq<char>>)
    requires
        spoken(raw, n, word, fields),
    ensures
        raw is Array,
        ({
            let items = raw->Array_0@;
            &&& items.len() == fields.len() + 2
            &&& reply::status_code(items) == Some(n)
            &&& reply::slot_text(items, 1) == word
            &&& reply::slot_number_text(items, 1) == word
            &&& forall|i: int|
                0 <= i < fields.len() ==> #[trigger] reply::slot_text(items, i + 2) == fields[i]
            &&& forall|i: int|
                0 <= i < fields.len() ==> #[trigger] reply::slot_number_text(items, i + 2)
                    == fields[i]
            &&& forall|i: int|
                0 <= i < fields.len() ==> says(items[i + 2], #[trigger] fields[i])
        }),
{
    let items = raw->Array_0@;
    written::lemma_says(items[1], word);
    assert forall|i: int| 0 <= i < fields.len() implies #[trigger] reply::slot_text(items, i + 2)
        == fields[i] by {
        assert(says(items[i + 2], fields[i]));
        written::lemma_says(items[i + 2], fields[i]);
    }
    assert forall|i: int| 0 <= i < fields.len() implies #[trigger] reply::slot_number_text(
        items,
        i + 2,
    ) == fields[i] by {
        assert(says(items[i + 2], fields[i]));
        written::lemma_says(items[i + 2], fields[i]);
    }
}

/// The error that a refused call is: the one whose code and details were written.
proof fn lemma_refusal(raw: Value, e: ScriptError<Seq<char>>)
    requires
        e.code_spec() is Some,
        spoken(raw, 0, e.code_spec()->0@, error_laws::details_of(e)),
    ensures
        ({
            let items = raw->Array_0@;
            &&& raw is Array
            &&& reply::status_code(items) == Some(0i64)
            &&& reply::error_code(items) == e.code_spec()->0@
            &&& forall|fcall: Seq<char>, label: Seq<char>| #[trigger]
                reply::refusal(fcall, label, e.code_spec()->0@, reply::detail_slots(items))
                    == sdk_error::of_script(e)
            &&& !(e is ExecutionNotActive) ==> forall|fcall: Seq<char>, label: Seq<char>|
                #[trigger] reply::refusal(
                    fcall,
                    label,
                    e.code_spec()->0@,
                    seq![reply::slot_text(items, 2)],
                ) == sdk_error::of_script(e)
        }),
{
    let details = error_laws::details_of(e);
    let items = raw->Array_0@;
    lemma_slots(raw, 0, e.code_spec()->0@, details);
    error_laws::law_answer_round_trip(e);
    error_laws::law_code_round_trip(e);
    error_laws::lemma_code_is_lower(e);
    assert(reply::detail_slots(items) =~= details);
    if details.len() > 0 {
        assert(reply::slot_text(items, 0int + 2) == details[0]);
    }
}

// ── Acknowledgement ──

/// An accepted call is acknowledged; a refused one is the error whose code and details
/// were written.
pub proof fn law_acknowledgement_reads_back(
    raw: &Value,
    name: &str,
    word: Seq<char>,
    fields: Seq<Seq<char>>,
    e: ScriptError<Seq<char>>,
    r: Result<(), SdkError>,
)
    requires
        call_ensures(parse_success_result, (raw, name), r),
    ensures
        spoken(*raw, 1, word, fields) ==> r is Ok,
        (e.code_spec() is Some && spoken(
            *raw,
            0,
            e.code_spec()->0@,
            error_laws::details_of(e),
        )) ==> (r matches Err(x) && x@ == sdk_error::of_script(e)),
{
    if spoken(*raw, 1, word, fields) {
        lemma_slots(*raw, 1, word, fields);
    }
    if e.code_spec() is Some && spoken(*raw, 0, e.code_spec()->0@, error_laws::details_of(e)) {
        lemma_refusal(*raw, e);
    }
}

// ── Failure ──

/// A failed attempt that is due again is read with the time that was written, however the
/// server writes it.
pub proof fn law_retry_reads_back(
    raw: &Value,
    items: Vec<Item>,
    status: Seq<char>,
    t: i64,
    r: Result<FailOutcome, SdkError>,
)
    requires
        call_ensures(parse_fail_result, (raw,), r),
        *raw == Value::Array(items),
        items@.len() == 4,
        items@[0] == Ok::<Value, ServerError>(Value::Int(1)),
        says(items@[1], status),
        says(items@[2], "retry_scheduled"@),
        !(items@[2] matches Ok(Value::Int(_))),
        says(items@[3], numbers::decimal(t as int)),
    ensures
        r matches Ok(FailOutcome::RetryScheduled { delay_until }) && delay_until.0 == t,
{
    written::lemma_says(items@[2], "retry_scheduled"@);
    written::lemma_says(items@[3], numbers::decimal(t as int));
    numbers::law_i64_round_trip(t);
}

/// A final failure is read as such, a word that is neither is not read, and a refused call
/// is the error whose code and details were written.
pub proof fn law_failure_reads_back(
    raw: &Value,
    status: Seq<char>,
    word: Seq<char>,
    e: ScriptError<Seq<char>>,
    r: Result<FailOutcome, SdkError>,
)
    requires
        call_ensures(parse_fail_result, (raw,), r),
    ensures
        spoken(*raw, 1, status, seq!["terminal_failed"@]) ==> r matches Ok(
            FailOutcome::TerminalFailed,
        ),
        (spoken(*raw, 1, status, seq![word]) && word != "terminal_failed"@ && word
            != "retry_scheduled"@) ==> r is Err,
        (e.code_spec() is Some && spoken(
            *raw,
            0,
            e.code_spec()->0@,
            error_laws::details_of(e),
        )) ==> (r matches Err(x) && x@ == sdk_error::of_script(e)),
{
    reveal_strlit("terminal_failed");
    reveal_strlit("retry_scheduled");
    assert("terminal_failed"@.len() == 15 && "retry_scheduled"@.len() == 15);
    assert("terminal_failed"@[0] == 't' && "retry_scheduled"@[0] == 'r');
    if spoken(*raw, 1, status, seq!["terminal_failed"@]) {
        lemma_slots(*raw, 1, status, seq!["terminal_failed"@]);
        assert(reply::slot_text(raw->Array_0@, 0int + 2) == "terminal_failed"@);
    }
    if spoken(*raw, 1, status, seq![word]) {
        lemma_slots(*raw, 1, status, seq![word]);
        assert(reply::slot_text(raw->Array_0@, 0int + 2) == word);
    }
    if e.code_spec() is Some && spoken(*raw, 0, e.code_spec()->0@, error_laws::details_of(e)) {
        lemma_refusal(*raw, e);
    }
}

// ── Suspension ──

/// A suspension is told from one that was there by its status. The identities and the key
/// are those of the caller; the token is the one that the server wrote, and without it the
/// reply is not read.
pub proof fn law_suspension_reads_back(
    raw: &Value,
    suspension_id: SuspensionId,
    waitpoint_id: WaitpointId,
    waitpoint_key: String,
    status: Seq<char>,
    fields: Seq<Seq<char>>,
    e: ScriptError<Seq<char>>,
    r: Result<SuspendOutcome, SdkError>,
)
    requires
        call_ensures(parse_suspend_result, (raw, suspension_id, waitpoint_id, waitpoint_key), r),
    ensures
        (spoken(*raw, 1, status, fields) && fields.len() >= 4 && status != "ALREADY_SATISFIED"@)
            ==> (r matches Ok(x) && x@ == SuspendOutcome::<Seq<char>, Seq<char>, Seq<char>>::Suspended {
            suspension_id: suspension_id@,
            waitpoint_id: waitpoint_id@,
            waitpoint_key: waitpoint_key@,
            waitpoint_token: fields[3],
        }),
        (spoken(*raw, 1, status, fields) && fields.len() >= 4 && status == "ALREADY_SATISFIED"@)
            ==> (r matches Ok(x) && x@ == SuspendOutcome::<
            Seq<char>,
            Seq<char>,
            Seq<char>,
        >::AlreadySatisfied {
            suspension_id: suspension_id@,
            waitpoint_id: waitpoint_id@,
            waitpoint_key: waitpoint_key@,
            waitpoint_token: fields[3],
        }),
        (spoken(*raw, 1, status, fields) && fields.len() < 4) ==> r is Err,
        (e.code_spec() is Some && !(e is ExecutionNotActive) && spoken(
            *raw,
            0,
            e.code_spec()->0@,
            error_laws::details_of(e),
        )) ==> (r matches Err(x) && x@ == sdk_error::of_script(e)),
{
    if spoken(*raw, 1, status, fields) {
        lemma_slots(*raw, 1, status, fields);
        if fields.len() >= 4 {
            let items = raw->Array_0@;
            assert(says(items[3int + 2], fields[3]));
            written::lemma_says(items[5], fields[3]);
        }
    }
    if e.code_spec() is Some && !(e is ExecutionNotActive) && spoken(
        *raw,
        0,
        e.code_spec()->0@,
        error_laws::details_of(e),
    ) {
        lemma_refusal(*raw, e);
    }
}

// ── Signals ──

/// A signal that met the condition resumes the execution; one that did not is accepted
/// with its effect; one that came before is the earlier one. A refused signal is the error
/// whose code and details were written.
pub proof fn law_signal_reads_back(
    raw: &Value,
    status: Seq<char>,
    id: Seq<char>,
    effect: Seq<char>,
    e: ScriptError<Seq<char>>,
    r: Result<SignalOutcome, SdkError>,
)
    requires
        call_ensures(parse_signal_result, (raw,), r),
    ensures
        (spoken(*raw, 1, status, seq![id, effect]) && status != "DUPLICATE"@
            && ids::canonical_uuid(id) && effect == "resume_condition_satisfied"@) ==> (r matches Ok(
            SignalOutcome::TriggeredResume { signal_id },
        ) && signal_id@ == id),
        (spoken(*raw, 1, status, seq![id, effect]) && status != "DUPLICATE"@
            && ids::canonical_uuid(id) && effect != "resume_condition_satisfied"@) ==> (r matches Ok(
            SignalOutcome::Accepted { signal_id, effect: x },
        ) && signal_id@ == id && x@ == effect),
        spoken(*raw, 1, "DUPLICATE"@, seq![id]) ==> (r matches Ok(
            SignalOutcome::Duplicate { existing_signal_id },
        ) && existing_signal_id@ == id),
        (e.code_spec() is Some && !(e is ExecutionNotActive) && spoken(
            *raw,
            0,
            e.code_spec()->0@,
            error_laws::details_of(e),
        )) ==> (r matches Err(x) && x@ == sdk_error::of_script(e)),
{
    if spoken(*raw, 1, status, seq![id, effect]) {
        lemma_slots(*raw, 1, status, seq![id, effect]);
        assert(reply::slot_text(raw->Array_0@, 0int + 2) == id);
        assert(reply::slot_text(raw->Array_0@, 1int + 2) == effect);
    }
    if spoken(*raw, 1, "DUPLICATE"@, seq![id]) {
        lemma_slots(*raw, 1, "DUPLICATE"@, seq![id]);
        assert(reply::slot_text(raw->Array_0@, 0int + 2) == id);
    }
    if e.code_spec() is Some && !(e is ExecutionNotActive) && spoken(
        *raw,
        0,
        e.code_spec()->0@,
        error_laws::details_of(e),
    ) {
        lemma_refusal(*raw, e);
    }
}

// ── Usage ──

/// A number of a usage reply is read as it was written, in text or as an integer. One that
/// is missing, negative or no number is never taken for zero.
pub proof fn law_usage_number_reads_back(
    items: &Vec<Item>,
    index: usize,
    sub_status: &str,
    field_name: &str,
    n: u64,
    r: Result<u64, SdkError>,
)
    requires
        call_ensures(parse_usage_u64, (items, index, sub_status, field_name), r),
    ensures
        (index < items@.len() && says(items@[index as int], numbers::decimal(n as int)) && !(
        items@[index as int] matches Ok(Value::Int(_)))) ==> r == Ok::<u64, SdkError>(n),
        (index < items@.len() && (items@[index as int] matches Ok(Value::Int(k)) && k >= 0)) ==> (
        r matches Ok(m) && Ok::<Value, ServerError>(Value::Int(m as i64)) == items@[index as int]),
        (index < items@.len() && (items@[index as int] matches Ok(Value::Int(k)) && k < 0)) ==> r is Err,
        index >= items@.len() ==> r is Err,
{
    if index < items@.len() && says(items@[index as int], numbers::decimal(n as int)) && !(
    items@[index as int] matches Ok(Value::Int(_))) {
        numbers::law_u64_round_trip(n);
        written::lemma_says(items@[index as int], numbers::decimal(n as int));
    }
}

/// What became of a report is read from its status, and a breach with its dimension, the
/// usage and the limit that were written.
pub proof fn law_usage_reads_back(
    raw: &Value,
    dimension: Seq<char>,
    used: u64,
    limit: u64,
    status: Seq<char>,
    fields: Seq<Seq<char>>,
    e: ScriptError<Seq<char>>,
    r: Result<ReportUsageResult, SdkError>,
)
    requires
        call_ensures(parse_report_usage_result, (raw,), r),
    ensures
        spoken(*raw, 1, "OK"@, fields) ==> r matches Ok(ReportUsageResult::Applied),
        spoken(*raw, 1, "ALREADY_APPLIED"@, fields) ==> r matches Ok(
            ReportUsageResult::AlreadyApplied,
        ),
        spoken(
            *raw,
            1,
            "SOFT_BREACH"@,
            seq![dimension, numbers::decimal(used as int), numbers::decimal(limit as int)],
        ) ==> (r matches Ok(
            ReportUsageResult::SoftBreach { dimension: d, current_usage, soft_limit },
        ) && d@ == dimension && current_usage == used && soft_limit == limit),
        spoken(
            *raw,
            1,
            "HARD_BREACH"@,
            seq![dimension, numbers::decimal(used as int), numbers::decimal(limit as int)],
        ) ==> (r matches Ok(
            ReportUsageResult::HardBreach { dimension: d, current_usage, hard_limit },
        ) && d@ == dimension && current_usage == used && hard_limit == limit),
        (spoken(*raw, 1, status, fields) && status != "OK"@ && status != "ALREADY_APPLIED"@
            && status != "SOFT_BREACH"@ && status != "HARD_BREACH"@) ==> r is Err,
        (e.code_spec() is Some && !(e is ExecutionNotActive) && spoken(
            *raw,
            0,
            e.code_spec()->0@,
            error_laws::details_of(e),
        )) ==> (r matches Err(x) && x@ == sdk_error::of_script(e)),
{
    reveal_strlit("OK");
    reveal_strlit("ALREADY_APPLIED");
    reveal_strlit("SOFT_BREACH");
    reveal_strlit("HARD_BREACH");
    assert("OK"@.len() == 2 && "ALREADY_APPLIED"@.len() == 15);
    assert("SOFT_BREACH"@.len() == 11 && "HARD_BREACH"@.len() == 11);
    assert("SOFT_BREACH"@[0] == 'S' && "HARD_BREACH"@[0] == 'H');
    numbers::law_u64_round_trip(used);
    numbers::law_u64_round_trip(limit);
    let three = seq![dimension, numbers::decimal(used as int), numbers::decimal(limit as int)];
    if spoken(*raw, 1, "OK"@, fields) {
        lemma_slots(*raw, 1, "OK"@, fields);
    }
    if spoken(*raw, 1, "ALREADY_APPLIED"@, fields) {
        lemma_slots(*raw, 1, "ALREADY_APPLIED"@, fields);
    }
    if spoken(*raw, 1, status, fields) {
        lemma_slots(*raw, 1, status, fields);
    }
    if spoken(*raw, 1, "SOFT_BREACH"@, three) {
        lemma_breach(*raw, "SOFT_BREACH"@, three);
    }
    if spoken(*raw, 1, "HARD_BREACH"@, three) {
        lemma_breach(*raw, "HARD_BREACH"@, three);
    }
    if e.code_spec() is Some && !(e is ExecutionNotActive) && spoken(
        *raw,
        0,
        e.code_spec()->0@,
        error_laws::details_of(e),
    ) {
        lemma_refusal(*raw, e);
        let details = error_laws::details_of(e);
        lemma_slots(*raw, 0, e.code_spec()->0@, details);
        let items = raw->Array_0@;
        if details.len() > 0 {
            assert(reply::slot_number_text(items, 0int + 2) == details[0]);
            assert(reply::slot_text(items, 0int + 2) == details[0]);
        }
        assert(seq![reply::slot_number_text(items, 2)] =~= seq![reply::slot_text(items, 2)]);
    }
}

proof fn lemma_breach(raw: Value, word: Seq<char>, three: Seq<Seq<char>>)
    requires
        three.len() == 3,
        spoken(raw, 1, word, three),
    ensures
        raw is Array,
        raw->Array_0@.len() == 5,
        reply::status_code(raw->Array_0@) == Some(1i64),
        reply::slot_number_text(raw->Array_0@, 1) == word,
        reply::slot_number_text(raw->Array_0@, 2) == three[0],
        raw->Array_0@[3] is Ok,
        raw->Array_0@[4] is Ok,
        !(raw->Array_0@[3]->Ok_0 is Int),
        !(raw->Array_0@[4]->Ok_0 is Int),
        crate::value::string_text(Some(raw->Array_0@[3]->Ok_0)) == Some(three[1]),
        crate::value::string_text(Some(raw->Array_0@[4]->Ok_0)) == Some(three[2]),
{
    lemma_slots(raw, 1, word, three);
    let items = raw->Array_0@;
    assert(reply::slot_number_text(items, 0int + 2) == three[0]);
    assert(says(items[1int + 2], three[1]));
    assert(says(items[2int + 2], three[2]));
    written::lemma_says(items[3], three[1]);
    written::lemma_says(items[4], three[2]);
}

} // verus!
