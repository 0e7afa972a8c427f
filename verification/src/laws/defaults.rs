//! What stands where nothing was written, and where a number is none.

use vstd::prelude::*;
use vstd::string::*;

use crate::error::{ScriptError, ServerError};
use crate::field_map::FieldMap;
use crate::fields;
use crate::fields::FromFcallResult;
use crate::functions::quota::CheckAdmissionResult;
use crate::ids::{AttemptIndex, ExecutionId, FlowId, WaitpointId};
use crate::laws::written;
use crate::laws::written::says;
use crate::numbers;
use crate::numbers::IntError;
use crate::partition::PartitionConfig;
use crate::reply::{parse_fail_result, FailOutcome};
use crate::result::FcallResult;
use crate::sdk_error::{BackendError, SdkError};
use crate::snapshot::resolve_flow_id;
use crate::task::resume_waitpoint_id_from_suspension;
use crate::text;
use crate::value;
use crate::value::Value;

verus! {

// ── Values ──

/// Every value that has a text is read as that text; which values have one depends on the
/// reader.
pub proof fn law_values_have_texts(
    v: &Value,
    t: Seq<char>,
    a: Option<String>,
    b: Option<String>,
    c: Option<String>,
)
    requires
        call_ensures(value::string_of, (Some(v),), a),
        call_ensures(value::number_of, (Some(v),), b),
        call_ensures(value::value_to_string, (Some(v),), c),
    ensures
        says(Ok(*v), t) ==> text::opt_text(b) == Some(t) && text::opt_text(c) == Some(t),
        (says(Ok(*v), t) && !(*v is Int)) ==> text::opt_text(a) == Some(t),
        *v is Int ==> a is None,
        *v is Okay ==> a is None && b is None && text::opt_text(c) == Some("OK"@),
        !(*v is Int || *v is Okay || *v is SimpleString || *v is BulkString) ==> a is None
            && b is None && c is None,
{
    if says(Ok(*v), t) {
        written::lemma_says(Ok(*v), t);
    }
}

/// What is not there has no text, and no text is the empty one.
pub proof fn law_nothing_has_no_text(
    a: Option<String>,
    b: Option<String>,
    c: Option<String>,
    some: String,
    r: String,
    q: String,
)
    requires
        call_ensures(value::string_of, (None::<&Value>,), a),
        call_ensures(value::number_of, (None::<&Value>,), b),
        call_ensures(value::value_to_string, (None::<&Value>,), c),
        call_ensures(value::or_default, (None::<String>,), r),
        call_ensures(value::or_default, (Some(some),), q),
    ensures
        a is None,
        b is None,
        c is None,
        r@.len() == 0,
        q@ == some@,
{
}

/// A field that is not there, or is no number, counts as zero; one that is a number counts as
/// that number.
pub proof fn law_no_number_is_zero<'a>(
    f: &FcallResult<'a>,
    i: usize,
    n: u32,
    m: u64,
    k: i64,
    a: u32,
    b: u64,
    c: i64,
    t: String,
)
    requires
        call_ensures(fields::u32_or_zero, (f, i), a),
        call_ensures(fields::u64_or_zero, (f, i), b),
        call_ensures(fields::i64_or_zero, (f, i), c),
        call_ensures(FcallResult::<'a>::field_str, (f, i), t),
    ensures
        t@ == numbers::decimal(n as int) ==> a == n,
        t@ == numbers::decimal(m as int) ==> b == m,
        t@ == numbers::decimal(k as int) ==> c == k,
        t@.len() == 0 ==> a == 0 && b == 0 && c == 0,
        numbers::parse_u32_spec(t@) is Err ==> a == 0,
        numbers::parse_u64_spec(t@) is Err ==> b == 0,
        numbers::parse_i64_spec(t@) is Err ==> c == 0,
        i >= f.fields@.len() ==> t@.len() == 0,
{
    numbers::law_u32_round_trip(n);
    numbers::law_u64_round_trip(m);
    numbers::law_i64_round_trip(k);
}

// ── Replies ──

/// A retry without a time, or with one that is no number, is due at once.
pub proof fn law_retry_without_a_time(
    raw: &Value,
    items: Vec<Result<Value, ServerError>>,
    r: Result<FailOutcome, SdkError>,
)
    requires
        call_ensures(parse_fail_result, (raw,), r),
        *raw == Value::Array(items),
        items@.len() >= 3,
        items@[0] == Ok::<Value, ServerError>(Value::Int(1)),
        items@[2] matches Ok(Value::SimpleString(w)) && w@ == "retry_scheduled"@,
        items@.len() == 3 || items@[3] is Err || (items@[3] matches Ok(Value::SimpleString(t))
            && numbers::parse_i64_spec(t@) is Err),
    ensures
        r matches Ok(FailOutcome::RetryScheduled { delay_until }) && delay_until.0 == 0,
{
}

/// A rate that is passed without a time to wait, or with one that is no number, has none.
pub proof fn law_wait_without_a_time(
    raw: &Value,
    items: Vec<Result<Value, ServerError>>,
    r: Result<CheckAdmissionResult, ScriptError>,
)
    requires
        call_ensures(CheckAdmissionResult::from_fcall_result, (raw,), r),
        *raw == Value::Array(items),
        items@.len() >= 1,
        items@[0] matches Ok(Value::SimpleString(w)) && w@ == "RATE_EXCEEDED"@,
        items@.len() == 1 || items@[1] is Err || (items@[1] matches Ok(Value::Int(n)) && n < 0),
    ensures
        r matches Ok(CheckAdmissionResult::RateExceeded { retry_after_ms }) && retry_after_ms == 0,
{
    reveal_strlit("ADMITTED");
    reveal_strlit("ALREADY_ADMITTED");
    reveal_strlit("RATE_EXCEEDED");
    reveal_strlit("CONCURRENCY_EXCEEDED");
    assert("ADMITTED"@.len() == 8 && "ALREADY_ADMITTED"@.len() == 16);
    assert("RATE_EXCEEDED"@.len() == 13 && "CONCURRENCY_EXCEEDED"@.len() == 20);
    if items@.len() > 1 && items@[1] is Ok {
        let n = items@[1]->Ok_0->Int_0;
        let t = numbers::decimal(n as int);
        assert(t[0] == '-');
        assert(numbers::parse_u64_spec(t) is Err);
    } else {
        reveal_strlit("0");
        assert("0"@ =~= seq!['0']);
        assert(numbers::decimal(0) =~= seq!['0']);
        numbers::law_u64_round_trip(0);
    }
}

/// A record of no attempt is the record of none that there is.
pub proof fn law_record_without_an_attempt(
    record: &FieldMap,
    attempt: AttemptIndex,
    r: Result<Option<WaitpointId>, SdkError>,
)
    requires
        call_ensures(resume_waitpoint_id_from_suspension, (record, attempt), r),
        attempt.0 < u32::MAX,
        record@.contains_key("attempt_index"@) ==> numbers::parse_u32_spec(
            record@["attempt_index"@],
        ) is Err,
    ensures
        r matches Ok(None),
{
    reveal_strlit("");
}

/// Where nothing was recorded, nothing resumed the attempt.
pub proof fn law_no_record(
    record: &FieldMap,
    attempt: AttemptIndex,
    r: Result<Option<WaitpointId>, SdkError>,
)
    requires
        call_ensures(resume_waitpoint_id_from_suspension, (record, attempt), r),
        record.pairs().len() == 0,
    ensures
        r matches Ok(None),
{
}

/// An execution without a flow, or with an empty one, is in none.
pub proof fn law_no_flow(
    eid: &ExecutionId,
    c: &PartitionConfig,
    reply: Result<Option<String>, BackendError>,
    r: Result<Option<FlowId>, SdkError>,
)
    requires
        c.num_flow_partitions > 0,
        call_ensures(resolve_flow_id, (eid, c, reply), r),
        reply matches Ok(None) || (reply matches Ok(Some(s)) && s@.len() == 0),
    ensures
        r matches Ok(None),
{
}

// ── Numbers ──

/// A plus before digits changes nothing; alone it is no number.
pub proof fn law_plus_changes_nothing(
    s: &str,
    t: &str,
    a: Result<u64, IntError>,
    b: Result<u64, IntError>,
)
    requires
        call_ensures(numbers::parse_u64, (s,), a),
        call_ensures(numbers::parse_u64, (t,), b),
        s@ == seq!['+'] + t@,
    ensures
        (t@.len() > 0 && t@[0] != '+') ==> a == b,
        t@.len() == 0 ==> a is Err,
{
    assert(s@.skip(1) =~= t@);
}

/// A number that a type cannot hold is not read as one: it is too large, or too small.
pub proof fn law_too_large_numbers(
    s: &str,
    n: nat,
    a: Result<u16, IntError>,
    b: Result<u32, IntError>,
    c: Result<u64, IntError>,
    d: Result<i64, IntError>,
)
    requires
        call_ensures(numbers::parse_u16, (s,), a),
        call_ensures(numbers::parse_u32, (s,), b),
        call_ensures(numbers::parse_u64, (s,), c),
        call_ensures(numbers::parse_i64, (s,), d),
    ensures
        (s@ == numbers::decimal(n as int) && n > u16::MAX) ==> a == Err::<u16, IntError>(
            IntError::PosOverflow,
        ),
        (s@ == numbers::decimal(n as int) && n > u32::MAX) ==> b == Err::<u32, IntError>(
            IntError::PosOverflow,
        ),
        (s@ == numbers::decimal(n as int) && n > u64::MAX) ==> c == Err::<u64, IntError>(
            IntError::PosOverflow,
        ),
        (s@ == numbers::decimal(n as int) && n > i64::MAX) ==> d == Err::<i64, IntError>(
            IntError::PosOverflow,
        ),
        (s@ == numbers::decimal(-(n as int)) && n > i64::MAX as nat + 1) ==> d == Err::<
            i64,
            IntError,
        >(IntError::NegOverflow),
        s@.len() == 0 ==> a is Err && b is Err && c is Err && d is Err,
{
    let none = Seq::<char>::empty();
    assert(numbers::decimal_nat(n) + none =~= numbers::decimal_nat(n));
    lemma_head(n);
    if s@ == numbers::decimal(n as int) {
        if n > u16::MAX {
            lemma_over(n, none, u16::MAX as nat, IntError::PosOverflow);
        }
        if n > u32::MAX {
            lemma_over(n, none, u32::MAX as nat, IntError::PosOverflow);
        }
        if n > u64::MAX {
            lemma_over(n, none, u64::MAX as nat, IntError::PosOverflow);
        }
        if n > i64::MAX {
            lemma_over(n, none, i64::MAX as nat, IntError::PosOverflow);
        }
    }
    if s@ == numbers::decimal(-(n as int)) && n > i64::MAX as nat + 1 {
        lemma_over(n, none, i64::MAX as nat + 1, IntError::NegOverflow);
        assert(s@.skip(1) =~= numbers::decimal_nat(n));
    }
}

proof fn lemma_head(n: nat)
    ensures
        numbers::decimal_nat(n).len() > 0,
        '0' <= numbers::decimal_nat(n)[0] <= '9',
    decreases n,
{
    if n >= 10 {
        lemma_head(n / 10);
    }
}

proof fn lemma_fits(n: nat, tail: Seq<char>, max: nat, over: IntError)
    requires
        n <= max,
    ensures
        numbers::read_digits(numbers::decimal_nat(n) + tail, 0, max, over) == numbers::read_digits(
            tail,
            n,
            max,
            over,
        ),
    decreases n,
{
    let d = numbers::digit_char(n % 10);
    assert(numbers::is_digit(d) && numbers::digit_value(d) == n % 10);
    if n < 10 {
        assert(numbers::decimal_nat(n) + tail =~= seq![d] + tail);
        assert((seq![d] + tail).skip(1) =~= tail);
    } else {
        let rest = seq![d] + tail;
        assert(numbers::decimal_nat(n) + tail =~= numbers::decimal_nat(n / 10) + rest);
        lemma_fits(n / 10, rest, max, over);
        assert(rest.skip(1) =~= tail);
    }
}

proof fn lemma_over(n: nat, tail: Seq<char>, max: nat, over: IntError)
    requires
        n > max,
        max >= 10,
    ensures
        numbers::read_digits(numbers::decimal_nat(n) + tail, 0, max, over) == Err::<nat, IntError>(
            over,
        ),
    decreases n,
{
    let d = numbers::digit_char(n % 10);
    assert(numbers::is_digit(d) && numbers::digit_value(d) == n % 10);
    let rest = seq![d] + tail;
    assert(numbers::decimal_nat(n) + tail =~= numbers::decimal_nat(n / 10) + rest);
    if n / 10 > max {
        lemma_over(n / 10, rest, max, over);
    } else {
        lemma_fits(n / 10, rest, max, over);
        assert((n / 10) * 10 + n % 10 == n);
    }
}

/// A number as a signed one is itself where it can be, and else what is missing to the next
/// power of two.
pub proof fn law_signed_numbers(n: u64, r: i128)
    requires
        call_ensures(numbers::as_signed, (n,), r),
    ensures
        i64::MIN <= r <= i64::MAX,
        r >= 0 ==> r == n,
        r < 0 ==> r + 0x1_0000_0000_0000_0000 == n,
{
}

} // verus!
