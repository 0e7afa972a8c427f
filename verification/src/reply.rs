//! Replies to the calls that a worker makes for its task.

use vstd::prelude::*;
use vstd::string::*;

use crate::error;
use crate::error::ScriptError;
use crate::ids;
use crate::ids::{SignalId, SuspensionId, TimestampMs, WaitpointId};
use crate::numbers;
use crate::sdk_error;
use crate::sdk_error::{SdkError, SdkErrorView};
use crate::text;
use crate::value;
use crate::value::{Item, Value};

verus! {

/// Outcome of a suspension.
#[derive(Debug, PartialEq, Eq)]
pub enum SuspendOutcome<U = SuspensionId, W = WaitpointId, S = String> {
    /// The execution is suspended, and its waitpoint is active.
    Suspended { suspension_id: U, waitpoint_id: W, waitpoint_key: S, waitpoint_token: S },
    /// Buffered signals already met the condition. The caller keeps its lease.
    AlreadySatisfied { suspension_id: U, waitpoint_id: W, waitpoint_key: S, waitpoint_token: S },
}

impl View for SuspendOutcome {
    type V = SuspendOutcome<Seq<char>, Seq<char>, Seq<char>>;

    open spec fn view(&self) -> SuspendOutcome<Seq<char>, Seq<char>, Seq<char>> {
        match *self {
            SuspendOutcome::Suspended {
                suspension_id,
                waitpoint_id,
                waitpoint_key,
                waitpoint_token,
            } => SuspendOutcome::Suspended {
                suspension_id: suspension_id@,
                waitpoint_id: waitpoint_id@,
                waitpoint_key: waitpoint_key@,
                waitpoint_token: waitpoint_token@,
            },
            SuspendOutcome::AlreadySatisfied {
                suspension_id,
                waitpoint_id,
                waitpoint_key,
                waitpoint_token,
            } => SuspendOutcome::AlreadySatisfied {
                suspension_id: suspension_id@,
                waitpoint_id: waitpoint_id@,
                waitpoint_key: waitpoint_key@,
                waitpoint_token: waitpoint_token@,
            },
        }
    }
}

/// Outcome of a signal delivery.
#[derive(Debug, PartialEq, Eq)]
pub enum SignalOutcome<I = SignalId, S = String> {
    /// The signal was taken, and the condition is not yet met.
    Accepted { signal_id: I, effect: S },
    /// The signal met the condition.
    TriggeredResume { signal_id: I },
    /// The same signal was delivered before.
    Duplicate { existing_signal_id: S },
}

impl View for SignalOutcome {
    type V = SignalOutcome<Seq<char>, Seq<char>>;

    open spec fn view(&self) -> SignalOutcome<Seq<char>, Seq<char>> {
        match *self {
            SignalOutcome::Accepted { signal_id, effect } => SignalOutcome::Accepted {
                signal_id: signal_id@,
                effect: effect@,
            },
            SignalOutcome::TriggeredResume { signal_id } => SignalOutcome::TriggeredResume {
                signal_id: signal_id@,
            },
            SignalOutcome::Duplicate { existing_signal_id } => SignalOutcome::Duplicate {
                existing_signal_id: existing_signal_id@,
            },
        }
    }
}

/// Outcome of a failed attempt.
#[derive(Clone, Copy, Debug, PartialEq, Eq, Structural)]
pub enum FailOutcome {
    /// Another attempt is due at `delay_until`.
    RetryScheduled { delay_until: TimestampMs },
    /// No attempt is left.
    TerminalFailed,
}

/// Outcome of a usage report.
#[derive(Debug, PartialEq, Eq)]
pub enum ReportUsageResult<S = String> {
    /// The usage was counted.
    Applied,
    /// The same report was counted before.
    AlreadyApplied,
    /// Counted, and a soft limit is passed.
    SoftBreach { dimension: S, current_usage: u64, soft_limit: u64 },
    /// Not counted: a hard limit would be passed.
    HardBreach { dimension: S, current_usage: u64, hard_limit: u64 },
}

impl View for ReportUsageResult {
    type V = ReportUsageResult<Seq<char>>;

    open spec fn view(&self) -> ReportUsageResult<Seq<char>> {
        match *self {
            ReportUsageResult::Applied => ReportUsageResult::Applied,
            ReportUsageResult::AlreadyApplied => ReportUsageResult::AlreadyApplied,
            ReportUsageResult::SoftBreach { dimension, current_usage, soft_limit } => {
                ReportUsageResult::SoftBreach { dimension: dimension@, current_usage, soft_limit }
            },
            ReportUsageResult::HardBreach { dimension, current_usage, hard_limit } => {
                ReportUsageResult::HardBreach { dimension: dimension@, current_usage, hard_limit }
            },
        }
    }
}

// ── Slots of a reply ──

/// The text in slot `i`, empty unless the slot holds a string.
pub open spec fn slot_text(items: Seq<Item>, i: int) -> Seq<char> {
    value::or_empty(value::string_text(value::value_at(items, i)))
}

/// The text in slot `i`, empty unless the slot holds a string or an integer.
pub open spec fn slot_number_text(items: Seq<Item>, i: int) -> Seq<char> {
    value::or_empty(value::number_text(value::value_at(items, i)))
}

/// The error code of a refused call; `unknown` when there is none.
pub open spec fn error_code(items: Seq<Item>) -> Seq<char> {
    if slot_text(items, 1).len() == 0 {
        "unknown"@
    } else {
        slot_text(items, 1)
    }
}

/// Every detail slot of a refused call.
pub open spec fn detail_slots(items: Seq<Item>) -> Seq<Seq<char>> {
    if items.len() < 2 {
        Seq::empty()
    } else {
        Seq::new((items.len() - 2) as nat, |i: int| slot_text(items, i + 2))
    }
}

/// The error of a refused call: what its code and details denote, and for an
/// unknown code an unreadable reply of `fcall`, described by `label` and the code.
pub open spec fn refusal(
    fcall: Seq<char>,
    label: Seq<char>,
    code: Seq<char>,
    details: Seq<Seq<char>>,
) -> SdkErrorView {
    sdk_error::of_script(
        match error::error_of_answer(code, details) {
            Some(e) => e,
            None => error::parse_error(fcall, label + code),
        },
    )
}

/// An unreadable reply of `fcall`.
pub open spec fn unread(fcall: Seq<char>, message: Seq<char>) -> SdkErrorView {
    sdk_error::of_script(error::parse_error(fcall, message))
}

/// The status code of a reply, when its first slot holds one.
pub open spec fn status_code(items: Seq<Item>) -> Option<i64> {
    match value::value_at(items, 0) {
        Some(Value::Int(n)) => Some(n),
        _ => None,
    }
}

fn text_at(items: &Vec<Item>, i: usize) -> (r: String)
    ensures
        r@ == slot_text(items@, i as int),
{
    value::or_default(value::string_of(value::at(items, i)))
}

/// The text in a slot of a usage reply: a string or an integer, else empty.
pub fn usage_field_str(items: &Vec<Item>, i: usize) -> (r: String)
    ensures
        r@ == slot_number_text(items@, i as int),
{
    value::or_default(value::number_of(value::at(items, i)))
}

fn code_at(items: &Vec<Item>) -> (r: Option<i64>)
    ensures
        r == status_code(items@),
{
    match value::at(items, 0) {
        Some(Value::Int(n)) => Some(*n),
        _ => None,
    }
}

fn read_error_code(items: &Vec<Item>) -> (r: String)
    ensures
        r@ == error_code(items@),
{
    let s = text_at(items, 1);
    if s.as_str().is_empty() {
        "unknown".to_owned()
    } else {
        s
    }
}

fn read_details(items: &Vec<Item>) -> (r: Vec<String>)
    ensures
        text::texts(r@) == detail_slots(items@),
{
    let n: usize = items.len();
    let mut out: Vec<String> = Vec::new();
    let mut i: usize = 2;
    while i < n
        invariant
            n == items@.len(),
            2 <= i,
            n >= 2 ==> i <= n,
            n < 2 ==> i == 2,
            out@.len() == i - 2,
            forall|k: int| 0 <= k < out@.len() ==> (#[trigger] out@[k])@ == slot_text(items@, k + 2),
        decreases n - i,
    {
        out.push(text_at(items, i));
        i = i + 1;
    }
    assert(text::texts(out@) =~= detail_slots(items@));
    out
}

fn unread_reply(fcall: &str, message: String) -> (r: SdkError)
    ensures
        r@ == unread(fcall@, message@),
{
    SdkError::from(error::unreadable(fcall, message))
}

fn refused_one(fcall: &str, label: &str, code: &str, detail: &str) -> (r: SdkError)
    ensures
        r@ == refusal(fcall@, label@, code@, seq![detail@]),
{
    match ScriptError::from_code_with_detail(code, detail) {
        Some(e) => SdkError::from(e),
        None => unread_reply(fcall, error::prefixed(label, code)),
    }
}

fn refused_all(fcall: &str, label: &str, code: &str, details: &Vec<String>) -> (r: SdkError)
    ensures
        r@ == refusal(fcall@, label@, code@, text::texts(details@)),
{
    let n: usize = details.len();
    let mut slots: Vec<&str> = Vec::new();
    let mut i: usize = 0;
    while i < n
        invariant
            n == details@.len(),
            i <= n,
            slots@.len() == i,
            forall|k: int| 0 <= k < i ==> (#[trigger] slots@[k])@ == details@[k]@,
        decreases n - i,
    {
        slots.push(details[i].as_str());
        i = i + 1;
    }
    assert(error::slices(slots@) =~= text::texts(details@));
    match ScriptError::from_code_with_details(code, slots.as_slice()) {
        Some(e) => SdkError::from(e),
        None => unread_reply(fcall, error::prefixed(label, code)),
    }
}

// ── Plain acknowledgement ──

/// The meaning of a reply that carries nothing but its status.
pub open spec fn success_reply(raw: Value, function_name: Seq<char>) -> Result<(), SdkErrorView> {
    match raw {
        Value::Array(items) => if items@.len() == 0 {
            Err(unread("parse_success_result"@, function_name + ": empty result array"@))
        } else {
            match status_code(items@) {
                None => Err(
                    unread("parse_success_result"@, function_name + ": expected Int at index 0"@),
                ),
                Some(n) => if n == 1 {
                    Ok(())
                } else {
                    Err(
                        refusal(
                            "parse_success_result"@,
                            function_name + ": unknown error: "@,
                            error_code(items@),
                            detail_slots(items@),
                        ),
                    )
                },
            }
        },
        _ => Err(
            unread("parse_success_result"@, function_name + ": expected Array, got non-array"@),
        ),
    }
}

/// Read a reply that carries nothing but its status. `function_name` labels the
/// error.
pub fn parse_success_result(raw: &Value, function_name: &str) -> (r: Result<(), SdkError>)
    ensures
        match r {
            Ok(_) => success_reply(*raw, function_name@) is Ok,
            Err(e) => success_reply(*raw, function_name@) == Err::<(), SdkErrorView>(e@),
        },
{
    let items = match raw {
        Value::Array(items) => items,
        _ => {
            return Err(
                unread_reply(
                    "parse_success_result",
                    error::prefixed(function_name, ": expected Array, got non-array"),
                ),
            );
        },
    };
    if items.len() == 0 {
        return Err(
            unread_reply(
                "parse_success_result",
                error::prefixed(function_name, ": empty result array"),
            ),
        );
    }
    match code_at(items) {
        None => Err(
            unread_reply(
                "parse_success_result",
                error::prefixed(function_name, ": expected Int at index 0"),
            ),
        ),
        Some(n) => if n == 1 {
            Ok(())
        } else {
            Err(
                refused_all(
                    "parse_success_result",
                    error::prefixed(function_name, ": unknown error: ").as_str(),
                    read_error_code(items).as_str(),
                    &read_details(items),
                ),
            )
        },
    }
}

// ── Usage reports ──

/// `<sub_status>: <field> (index <i>) <fault>`, after the name of the function.
pub open spec fn usage_fault(
    sub_status: Seq<char>,
    field_name: Seq<char>,
    index: int,
    fault: Seq<char>,
) -> SdkErrorView {
    unread(
        "parse_usage_u64"@,
        "ff_report_usage_and_check "@ + sub_status + ": "@ + field_name + " (index "@
            + numbers::decimal(index) + ") "@ + fault,
    )
}

/// A number in slot `index` of a usage reply. Nothing stands for a number that is
/// missing or malformed.
pub open spec fn usage_number(
    items: Seq<Item>,
    index: int,
    sub_status: Seq<char>,
    field_name: Seq<char>,
) -> Result<u64, SdkErrorView> {
    if !(0 <= index < items.len()) {
        Err(usage_fault(sub_status, field_name, index, "missing from response"@))
    } else {
        match items[index] {
            Ok(Value::Int(n)) => if n < 0 {
                Err(
                    usage_fault(
                        sub_status,
                        field_name,
                        index,
                        "negative int "@ + numbers::decimal(n as int) + " cannot be u64"@,
                    ),
                )
            } else {
                Ok(n as u64)
            },
            Ok(Value::BulkString(b)) => usage_text_number(
                text::lossy_text(b@),
                sub_status,
                field_name,
                index,
            ),
            Ok(Value::SimpleString(s)) => usage_text_number(s@, sub_status, field_name, index),
            _ => Err(
                usage_fault(
                    sub_status,
                    field_name,
                    index,
                    "wrong wire type (expected Int or String)"@,
                ),
            ),
        }
    }
}

/// A number in text.
pub open spec fn usage_text_number(
    t: Seq<char>,
    sub_status: Seq<char>,
    field_name: Seq<char>,
    index: int,
) -> Result<u64, SdkErrorView> {
    match numbers::parse_u64_spec(t) {
        Ok(n) => Ok(n),
        Err(_) => Err(
            usage_fault(sub_status, field_name, index, "not a u64 string: "@ + text::debug_text(t)),
        ),
    }
}

fn usage_error(sub_status: &str, field_name: &str, index: usize, fault: &str) -> (r: SdkError)
    ensures
        r@ == usage_fault(sub_status@, field_name@, index as int, fault@),
{
    let mut message = "ff_report_usage_and_check ".to_owned();
    message.append(sub_status);
    message.append(": ");
    message.append(field_name);
    message.append(" (index ");
    message.append(numbers::u64_text(index as u64).as_str());
    message.append(") ");
    message.append(fault);
    unread_reply("parse_usage_u64", message)
}

fn text_number(t: &str, sub_status: &str, field_name: &str, index: usize) -> (r: Result<
    u64,
    SdkError,
>)
    ensures
        match r {
            Ok(n) => usage_text_number(t@, sub_status@, field_name@, index as int) == Ok::<
                u64,
                SdkErrorView,
            >(n),
            Err(e) => usage_text_number(t@, sub_status@, field_name@, index as int) == Err::<
                u64,
                SdkErrorView,
            >(e@),
        },
{
    match numbers::parse_u64(t) {
        Ok(n) => Ok(n),
        Err(_) => Err(
            usage_error(
                sub_status,
                field_name,
                index,
                error::prefixed("not a u64 string: ", text::debug(t).as_str()).as_str(),
            ),
        ),
    }
}

/// Read a required number from a usage reply.
pub fn parse_usage_u64(items: &Vec<Item>, index: usize, sub_status: &str, field_name: &str) -> (r:
    Result<u64, SdkError>)
    ensures
        match r {
            Ok(n) => usage_number(items@, index as int, sub_status@, field_name@) == Ok::<
                u64,
                SdkErrorView,
            >(n),
            Err(e) => usage_number(items@, index as int, sub_status@, field_name@) == Err::<
                u64,
                SdkErrorView,
            >(e@),
        },
{
    if index >= items.len() {
        return Err(usage_error(sub_status, field_name, index, "missing from response"));
    }
    match &items[index] {
        Ok(Value::Int(n)) => {
            if *n < 0 {
                let mut fault = "negative int ".to_owned();
                fault.append(numbers::i64_text(*n).as_str());
                fault.append(" cannot be u64");
                Err(usage_error(sub_status, field_name, index, fault.as_str()))
            } else {
                Ok(*n as u64)
            }
        },
        Ok(Value::BulkString(b)) => text_number(
            text::lossy(b.as_slice()).as_str(),
            sub_status,
            field_name,
            index,
        ),
        Ok(Value::SimpleString(s)) => text_number(s.as_str(), sub_status, field_name, index),
        _ => Err(
            usage_error(
                sub_status,
                field_name,
                index,
                "wrong wire type (expected Int or String)",
            ),
        ),
    }
}

/// A breach with its two numbers, the first failure deciding.
pub open spec fn breach(
    items: Seq<Item>,
    sub_status: Seq<char>,
    limit_name: Seq<char>,
) -> Result<(Seq<char>, u64, u64), SdkErrorView> {
    match usage_number(items, 3, sub_status, "current_usage"@) {
        Err(e) => Err(e),
        Ok(current) => match usage_number(items, 4, sub_status, limit_name) {
            Err(e) => Err(e),
            Ok(limit) => Ok((slot_number_text(items, 2), current, limit)),
        },
    }
}

/// The meaning of an accepted usage report.
pub open spec fn usage_outcome(items: Seq<Item>) -> Result<
    ReportUsageResult<Seq<char>>,
    SdkErrorView,
> {
    let sub_status = slot_number_text(items, 1);
    if sub_status == "OK"@ {
        Ok(ReportUsageResult::Applied)
    } else if sub_status == "ALREADY_APPLIED"@ {
        Ok(ReportUsageResult::AlreadyApplied)
    } else if sub_status == "SOFT_BREACH"@ {
        match breach(items, "SOFT_BREACH"@, "soft_limit"@) {
            Ok(b) => Ok(
                ReportUsageResult::SoftBreach {
                    dimension: b.0,
                    current_usage: b.1,
                    soft_limit: b.2,
                },
            ),
            Err(e) => Err(e),
        }
    } else if sub_status == "HARD_BREACH"@ {
        match breach(items, "HARD_BREACH"@, "hard_limit"@) {
            Ok(b) => Ok(
                ReportUsageResult::HardBreach {
                    dimension: b.0,
                    current_usage: b.1,
                    hard_limit: b.2,
                },
            ),
            Err(e) => Err(e),
        }
    } else {
        Err(
            unread(
                "parse_report_usage_result"@,
                "ff_report_usage_and_check: unknown sub-status: "@ + sub_status,
            ),
        )
    }
}

/// The meaning of a reply to a usage report.
pub open spec fn usage_reply(raw: Value) -> Result<ReportUsageResult<Seq<char>>, SdkErrorView> {
    match raw {
        Value::Array(items) => match status_code(items@) {
            None => Err(
                unread(
                    "parse_report_usage_result"@,
                    "ff_report_usage_and_check: expected Int status code"@,
                ),
            ),
            Some(n) => if n != 1 {
                Err(
                    refusal(
                        "parse_report_usage_result"@,
                        "ff_report_usage_and_check: "@,
                        slot_number_text(items@, 1),
                        seq![slot_number_text(items@, 2)],
                    ),
                )
            } else {
                usage_outcome(items@)
            },
        },
        _ => Err(
            unread(
                "parse_report_usage_result"@,
                "ff_report_usage_and_check: expected Array"@,
            ),
        ),
    }
}

fn read_breach(items: &Vec<Item>, sub_status: &str, limit_name: &str) -> (r: Result<
    (String, u64, u64),
    SdkError,
>)
    ensures
        match r {
            Ok(b) => breach(items@, sub_status@, limit_name@) == Ok::<
                (Seq<char>, u64, u64),
                SdkErrorView,
            >((b.0@, b.1, b.2)),
            Err(e) => breach(items@, sub_status@, limit_name@) == Err::<
                (Seq<char>, u64, u64),
                SdkErrorView,
            >(e@),
        },
{
    let dimension = usage_field_str(items, 2);
    match parse_usage_u64(items, 3, sub_status, "current_usage") {
        Err(e) => Err(e),
        Ok(current) => match parse_usage_u64(items, 4, sub_status, limit_name) {
            Err(e) => Err(e),
            Ok(limit) => Ok((dimension, current, limit)),
        },
    }
}

/// Read the reply to a usage report.
pub fn parse_report_usage_result(raw: &Value) -> (r: Result<ReportUsageResult, SdkError>)
    ensures
        match r {
            Ok(x) => usage_reply(*raw) == Ok::<ReportUsageResult<Seq<char>>, SdkErrorView>(x@),
            Err(e) => usage_reply(*raw) == Err::<ReportUsageResult<Seq<char>>, SdkErrorView>(e@),
        },
{
    let items = match raw {
        Value::Array(items) => items,
        _ => {
            return Err(
                unread_reply(
                    "parse_report_usage_result",
                    "ff_report_usage_and_check: expected Array".to_owned(),
                ),
            );
        },
    };
    let code: i64 = match code_at(items) {
        Some(n) => n,
        None => {
            return Err(
                unread_reply(
                    "parse_report_usage_result",
                    "ff_report_usage_and_check: expected Int status code".to_owned(),
                ),
            );
        },
    };
    let sub_status = usage_field_str(items, 1);
    if code != 1 {
        return Err(
            refused_one(
                "parse_report_usage_result",
                "ff_report_usage_and_check: ",
                sub_status.as_str(),
                usage_field_str(items, 2).as_str(),
            ),
        );
    }
    if text::same(sub_status.as_str(), "OK") {
        Ok(ReportUsageResult::Applied)
    } else if text::same(sub_status.as_str(), "ALREADY_APPLIED") {
        Ok(ReportUsageResult::AlreadyApplied)
    } else if text::same(sub_status.as_str(), "SOFT_BREACH") {
        match read_breach(items, "SOFT_BREACH", "soft_limit") {
            Ok(b) => Ok(
                ReportUsageResult::SoftBreach {
                    dimension: b.0,
                    current_usage: b.1,
                    soft_limit: b.2,
                },
            ),
            Err(e) => Err(e),
        }
    } else if text::same(sub_status.as_str(), "HARD_BREACH") {
        match read_breach(items, "HARD_BREACH", "hard_limit") {
            Ok(b) => Ok(
                ReportUsageResult::HardBreach {
                    dimension: b.0,
                    current_usage: b.1,
                    hard_limit: b.2,
                },
            ),
            Err(e) => Err(e),
        }
    } else {
        Err(
            unread_reply(
                "parse_report_usage_result",
                error::prefixed(
                    "ff_report_usage_and_check: unknown sub-status: ",
                    sub_status.as_str(),
                ),
            ),
        )
    }
}

// ── Suspension ──

/// The meaning of a reply to a suspension. The caller's identities hold; the
/// token is the server's.
pub open spec fn suspend_reply(
    raw: Value,
    suspension_id: Seq<char>,
    waitpoint_id: Seq<char>,
    waitpoint_key: Seq<char>,
) -> Result<SuspendOutcome<Seq<char>, Seq<char>, Seq<char>>, SdkErrorView> {
    match raw {
        Value::Array(items) => match status_code(items@) {
            None => Err(
                unread("parse_suspend_result"@, "ff_suspend_execution: bad status code"@),
            ),
            Some(n) => if n != 1 {
                Err(
                    refusal(
                        "parse_suspend_result"@,
                        "ff_suspend_execution: "@,
                        error_code(items@),
                        seq![slot_text(items@, 2)],
                    ),
                )
            } else {
                match value::string_text(value::value_at(items@, 5)) {
                    None => Err(
                        unread(
                            "parse_suspend_result"@,
                            "ff_suspend_execution: missing waitpoint_token in response"@,
                        ),
                    ),
                    Some(waitpoint_token) => if slot_text(items@, 1) == "ALREADY_SATISFIED"@ {
                        Ok(
                            SuspendOutcome::AlreadySatisfied {
                                suspension_id,
                                waitpoint_id,
                                waitpoint_key,
                                waitpoint_token,
                            },
                        )
                    } else {
                        Ok(
                            SuspendOutcome::Suspended {
                                suspension_id,
                                waitpoint_id,
                                waitpoint_key,
                                waitpoint_token,
                            },
                        )
                    },
                }
            },
        },
        _ => Err(unread("parse_suspend_result"@, "ff_suspend_execution: expected Array"@)),
    }
}

/// Read the reply to a suspension.
pub fn parse_suspend_result(
    raw: &Value,
    suspension_id: SuspensionId,
    waitpoint_id: WaitpointId,
    waitpoint_key: String,
) -> (r: Result<SuspendOutcome, SdkError>)
    ensures
        match r {
            Ok(x) => suspend_reply(*raw, suspension_id@, waitpoint_id@, waitpoint_key@) == Ok::<
                SuspendOutcome<Seq<char>, Seq<char>, Seq<char>>,
                SdkErrorView,
            >(x@),
            Err(e) => suspend_reply(*raw, suspension_id@, waitpoint_id@, waitpoint_key@) == Err::<
                SuspendOutcome<Seq<char>, Seq<char>, Seq<char>>,
                SdkErrorView,
            >(e@),
        },
{
    let items = match raw {
        Value::Array(items) => items,
        _ => {
            return Err(
                unread_reply(
                    "parse_suspend_result",
                    "ff_suspend_execution: expected Array".to_owned(),
                ),
            );
        },
    };
    let code: i64 = match code_at(items) {
        Some(n) => n,
        None => {
            return Err(
                unread_reply(
                    "parse_suspend_result",
                    "ff_suspend_execution: bad status code".to_owned(),
                ),
            );
        },
    };
    if code != 1 {
        return Err(
            refused_one(
                "parse_suspend_result",
                "ff_suspend_execution: ",
                read_error_code(items).as_str(),
                text_at(items, 2).as_str(),
            ),
        );
    }
    let sub_status = text_at(items, 1);
    match value::string_of(value::at(items, 5)) {
        None => Err(
            unread_reply(
                "parse_suspend_result",
                "ff_suspend_execution: missing waitpoint_token in response".to_owned(),
            ),
        ),
        Some(waitpoint_token) => if text::same(sub_status.as_str(), "ALREADY_SATISFIED") {
            Ok(
                SuspendOutcome::AlreadySatisfied {
                    suspension_id,
                    waitpoint_id,
                    waitpoint_key,
                    waitpoint_token,
                },
            )
        } else {
            Ok(
                SuspendOutcome::Suspended {
                    suspension_id,
                    waitpoint_id,
                    waitpoint_key,
                    waitpoint_token,
                },
            )
        },
    }
}

// ── Signals ──

/// The outcome that an effect stands for.
pub open spec fn signal_effect(signal_id: Seq<char>, effect: Seq<char>) -> SignalOutcome<
    Seq<char>,
    Seq<char>,
> {
    if effect == "resume_condition_satisfied"@ {
        SignalOutcome::TriggeredResume { signal_id }
    } else {
        SignalOutcome::Accepted { signal_id, effect }
    }
}

/// The outcome that an effect stands for.
pub fn outcome_of_effect(signal_id: SignalId, effect: String) -> (r: SignalOutcome)
    ensures
        r@ == signal_effect(signal_id@, effect@),
{
    if text::same(effect.as_str(), "resume_condition_satisfied") {
        SignalOutcome::TriggeredResume { signal_id }
    } else {
        SignalOutcome::Accepted { signal_id, effect }
    }
}

/// The meaning of a reply to a signal delivery.
pub open spec fn signal_reply(raw: Value) -> Result<
    SignalOutcome<Seq<char>, Seq<char>>,
    SdkErrorView,
> {
    match raw {
        Value::Array(items) => match status_code(items@) {
            None => Err(unread("parse_signal_result"@, "ff_deliver_signal: bad status code"@)),
            Some(n) => if n != 1 {
                Err(
                    refusal(
                        "parse_signal_result"@,
                        "ff_deliver_signal: "@,
                        error_code(items@),
                        seq![slot_text(items@, 2)],
                    ),
                )
            } else if slot_text(items@, 1) == "DUPLICATE"@ {
                Ok(SignalOutcome::Duplicate { existing_signal_id: slot_text(items@, 2) })
            } else {
                match ids::signal_id_of(slot_text(items@, 2)) {
                    Ok(id) => Ok(signal_effect(id, slot_text(items@, 3))),
                    Err(e) => Err(
                        unread(
                            "parse_signal_result"@,
                            "ff_deliver_signal: invalid signal_id from Lua: "@ + e,
                        ),
                    ),
                }
            },
        },
        _ => Err(unread("parse_signal_result"@, "ff_deliver_signal: expected Array"@)),
    }
}

/// Read the reply to a signal delivery.
pub fn parse_signal_result(raw: &Value) -> (r: Result<SignalOutcome, SdkError>)
    ensures
        match r {
            Ok(x) => signal_reply(*raw) == Ok::<
                SignalOutcome<Seq<char>, Seq<char>>,
                SdkErrorView,
            >(x@),
            Err(e) => signal_reply(*raw) == Err::<
                SignalOutcome<Seq<char>, Seq<char>>,
                SdkErrorView,
            >(e@),
        },
{
    let items = match raw {
        Value::Array(items) => items,
        _ => {
            return Err(
                unread_reply(
                    "parse_signal_result",
                    "ff_deliver_signal: expected Array".to_owned(),
                ),
            );
        },
    };
    let code: i64 = match code_at(items) {
        Some(n) => n,
        None => {
            return Err(
                unread_reply(
                    "parse_signal_result",
                    "ff_deliver_signal: bad status code".to_owned(),
                ),
            );
        },
    };
    if code != 1 {
        return Err(
            refused_one(
                "parse_signal_result",
                "ff_deliver_signal: ",
                read_error_code(items).as_str(),
                text_at(items, 2).as_str(),
            ),
        );
    }
    if text::same(text_at(items, 1).as_str(), "DUPLICATE") {
        return Ok(SignalOutcome::Duplicate { existing_signal_id: text_at(items, 2) });
    }
    match SignalId::parse(text_at(items, 2).as_str()) {
        Ok(signal_id) => Ok(outcome_of_effect(signal_id, text_at(items, 3))),
        Err(e) => Err(
            unread_reply(
                "parse_signal_result",
                error::prefixed("ff_deliver_signal: invalid signal_id from Lua: ", e.as_str()),
            ),
        ),
    }
}

impl SignalOutcome {
    /// Read the reply to a signal delivery.
    pub fn from_fcall_value(raw: &Value) -> (r: Result<SignalOutcome, SdkError>)
        ensures
            match r {
                Ok(x) => signal_reply(*raw) == Ok::<
                    SignalOutcome<Seq<char>, Seq<char>>,
                    SdkErrorView,
                >(x@),
                Err(e) => signal_reply(*raw) == Err::<
                    SignalOutcome<Seq<char>, Seq<char>>,
                    SdkErrorView,
                >(e@),
            },
    {
        parse_signal_result(raw)
    }
}

// ── Failure ──

/// The time in slot 3 of a scheduled retry, zero when it does not parse.
pub open spec fn retry_time(items: Seq<Item>) -> i64 {
    let t = match value::value_at(items, 3) {
        Some(Value::BulkString(b)) => text::lossy_text(b@),
        Some(Value::SimpleString(s)) => s@,
        Some(Value::Int(n)) => numbers::decimal(n as int),
        _ => Seq::empty(),
    };
    match numbers::parse_i64_spec(t) {
        Ok(n) => n,
        Err(_) => 0,
    }
}

/// The meaning of a reply to a failed attempt.
pub open spec fn fail_reply(raw: Value) -> Result<FailOutcome, SdkErrorView> {
    match raw {
        Value::Array(items) => match status_code(items@) {
            None => Err(unread("parse_fail_result"@, "ff_fail_execution: bad status code"@)),
            Some(n) => if n != 1 {
                Err(
                    refusal(
                        "parse_fail_result"@,
                        "ff_fail_execution: "@,
                        error_code(items@),
                        detail_slots(items@),
                    ),
                )
            } else if slot_text(items@, 2) == "retry_scheduled"@ {
                Ok(FailOutcome::RetryScheduled { delay_until: TimestampMs(retry_time(items@)) })
            } else if slot_text(items@, 2) == "terminal_failed"@ {
                Ok(FailOutcome::TerminalFailed)
            } else {
                Err(
                    unread(
                        "parse_fail_result"@,
                        "ff_fail_execution: unexpected sub-status: "@ + slot_text(items@, 2),
                    ),
                )
            },
        },
        _ => Err(unread("parse_fail_result"@, "ff_fail_execution: expected Array"@)),
    }
}

fn read_retry_time(items: &Vec<Item>) -> (r: i64)
    ensures
        r == retry_time(items@),
{
    let t = match value::at(items, 3) {
        Some(Value::BulkString(b)) => text::lossy(b.as_slice()),
        Some(Value::SimpleString(s)) => s.as_str().to_owned(),
        Some(Value::Int(n)) => numbers::i64_text(*n),
        _ => String::new(),
    };
    match numbers::parse_i64(t.as_str()) {
        Ok(n) => n,
        Err(_) => 0,
    }
}

/// Read the reply to a failed attempt.
pub fn parse_fail_result(raw: &Value) -> (r: Result<FailOutcome, SdkError>)
    ensures
        match r {
            Ok(x) => fail_reply(*raw) == Ok::<FailOutcome, SdkErrorView>(x),
            Err(e) => fail_reply(*raw) == Err::<FailOutcome, SdkErrorView>(e@),
        },
{
    let items = match raw {
        Value::Array(items) => items,
        _ => {
            return Err(
                unread_reply("parse_fail_result", "ff_fail_execution: expected Array".to_owned()),
            );
        },
    };
    let code: i64 = match code_at(items) {
        Some(n) => n,
        None => {
            return Err(
                unread_reply("parse_fail_result", "ff_fail_execution: bad status code".to_owned()),
            );
        },
    };
    if code != 1 {
        return Err(
            refused_all(
                "parse_fail_result",
                "ff_fail_execution: ",
                read_error_code(items).as_str(),
                &read_details(items),
            ),
        );
    }
    let sub_status = text_at(items, 2);
    if text::same(sub_status.as_str(), "retry_scheduled") {
        Ok(FailOutcome::RetryScheduled { delay_until: TimestampMs(read_retry_time(items)) })
    } else if text::same(sub_status.as_str(), "terminal_failed") {
        Ok(FailOutcome::TerminalFailed)
    } else {
        Err(
            unread_reply(
                "parse_fail_result",
                error::prefixed("ff_fail_execution: unexpected sub-status: ", sub_status.as_str()),
            ),
        )
    }
}

} // verus!
