//! Calls on quota policies.

use vstd::prelude::*;
use vstd::string::*;

use crate::error;
use crate::error::{ScriptError, ScriptErrorView};
use crate::fields;
use crate::fields::FromFcallResult;
use crate::ids::{ExecutionId, QuotaPolicyId, TimestampMs};
use crate::keys;
use crate::keys::QuotaKeyContext;
use crate::numbers;
use crate::result;
use crate::text;
use crate::value;
use crate::value::{Item, Value};
use crate::wire;
use crate::wire::Call;

verus! {

/// Key contexts of a quota operation.
pub struct QuotaOpKeys<'a> {
    pub ctx: &'a QuotaKeyContext,
    pub dimension: &'a str,
    pub execution_id: &'a ExecutionId,
}

/// Arguments of [`ff_create_quota_policy`].
pub struct CreateQuotaPolicyArgs {
    pub quota_policy_id: QuotaPolicyId,
    pub window_seconds: u64,
    pub max_requests_per_window: u64,
    pub max_concurrent: u64,
    pub now: TimestampMs,
}

/// Create a quota policy.
pub fn ff_create_quota_policy(k: &QuotaOpKeys, args: &CreateQuotaPolicyArgs) -> (r: Call)
    ensures
        r.function == "ff_create_quota_policy",
        r.keys_spec() == seq![
            k.ctx.definition_spec(),
            k.ctx.window_spec(k.dimension@),
            k.ctx.concurrency_spec(),
            k.ctx.admitted_set_spec(),
            keys::quota_policies_index_spec(k.ctx.tag_spec()),
        ],
        r.argv_spec() == seq![
            args.quota_policy_id@,
            numbers::decimal(args.window_seconds as int),
            numbers::decimal(args.max_requests_per_window as int),
            numbers::decimal(args.max_concurrent as int),
            numbers::decimal(args.now.0 as int),
        ],
{
    let mut keys: Vec<String> = Vec::new();
    keys.push(k.ctx.definition());
    keys.push(k.ctx.window(k.dimension));
    keys.push(k.ctx.concurrency());
    keys.push(k.ctx.admitted_set());
    keys.push(keys::quota_policies_index(k.ctx.hash_tag()));
    let mut argv: Vec<String> = Vec::new();
    argv.push(args.quota_policy_id.as_str().to_owned());
    argv.push(numbers::u64_text(args.window_seconds));
    argv.push(numbers::u64_text(args.max_requests_per_window));
    argv.push(numbers::u64_text(args.max_concurrent));
    argv.push(numbers::i64_text(args.now.0));
    Call { function: "ff_create_quota_policy", keys, argv }
}

/// Arguments of [`ff_check_admission_and_record`].
pub struct CheckAdmissionArgs {
    pub execution_id: ExecutionId,
    pub now: TimestampMs,
    pub window_seconds: u64,
    pub rate_limit: u64,
    pub concurrency_cap: u64,
    pub jitter_ms: Option<u64>,
}

/// Ask for admission under a quota policy.
pub fn ff_check_admission_and_record(k: &QuotaOpKeys, args: &CheckAdmissionArgs) -> (r: Call)
    ensures
        r.function == "ff_check_admission_and_record",
        r.keys_spec() == seq![
            k.ctx.window_spec(k.dimension@),
            k.ctx.concurrency_spec(),
            k.ctx.definition_spec(),
            k.ctx.admitted_spec(k.execution_id@),
            k.ctx.admitted_set_spec(),
        ],
        r.argv_spec() == seq![
            numbers::decimal(args.now.0 as int),
            numbers::decimal(args.window_seconds as int),
            numbers::decimal(args.rate_limit as int),
            numbers::decimal(args.concurrency_cap as int),
            args.execution_id@,
            numbers::decimal(wire::or_u64_spec(args.jitter_ms, 0) as int),
        ],
{
    let mut keys: Vec<String> = Vec::new();
    keys.push(k.ctx.window(k.dimension));
    keys.push(k.ctx.concurrency());
    keys.push(k.ctx.definition());
    keys.push(k.ctx.admitted(k.execution_id));
    keys.push(k.ctx.admitted_set());
    let mut argv: Vec<String> = Vec::new();
    argv.push(numbers::i64_text(args.now.0));
    argv.push(numbers::u64_text(args.window_seconds));
    argv.push(numbers::u64_text(args.rate_limit));
    argv.push(numbers::u64_text(args.concurrency_cap));
    argv.push(args.execution_id.as_str().to_owned());
    argv.push(numbers::u64_text(wire::or_u64(args.jitter_ms, 0)));
    Call { function: "ff_check_admission_and_record", keys, argv }
}

/// Outcome of creating a quota policy.
#[derive(Debug)]
pub enum CreateQuotaPolicyResult<I = QuotaPolicyId> {
    Created { quota_policy_id: I },
    AlreadySatisfied { quota_policy_id: I },
}

impl View for CreateQuotaPolicyResult {
    type V = CreateQuotaPolicyResult<Seq<char>>;

    open spec fn view(&self) -> CreateQuotaPolicyResult<Seq<char>> {
        match *self {
            CreateQuotaPolicyResult::Created { quota_policy_id } => {
                CreateQuotaPolicyResult::Created { quota_policy_id: quota_policy_id@ }
            },
            CreateQuotaPolicyResult::AlreadySatisfied { quota_policy_id } => {
                CreateQuotaPolicyResult::AlreadySatisfied { quota_policy_id: quota_policy_id@ }
            },
        }
    }
}

/// The meaning of a reply to creating a quota policy.
pub open spec fn create_quota_reply(raw: Value) -> Result<
    CreateQuotaPolicyResult<Seq<char>>,
    ScriptErrorView,
> {
    match result::accepted(raw) {
        Err(e) => Err(e),
        Ok(f) => match fields::quota_policy_id_spec(
            f,
            0,
            "ff_create_quota_policy"@,
            "invalid quota_policy_id: "@,
        ) {
            Err(e) => Err(e),
            Ok(quota_policy_id) => if f.status == "OK"@ {
                Ok(CreateQuotaPolicyResult::Created { quota_policy_id })
            } else if f.status == "ALREADY_SATISFIED"@ {
                Ok(CreateQuotaPolicyResult::AlreadySatisfied { quota_policy_id })
            } else {
                Err(fields::bad_status("ff_create_quota_policy"@, f.status))
            },
        },
    }
}

impl FromFcallResult for CreateQuotaPolicyResult {
    fn from_fcall_result(raw: &Value) -> (r: Result<CreateQuotaPolicyResult, ScriptError>)
        ensures
            fields::agrees(r, create_quota_reply(*raw)),
    {
        match result::accept(raw) {
            Err(e) => Err(e),
            Ok(f) => match fields::quota_policy_id_field(
                &f,
                0,
                "ff_create_quota_policy",
                "invalid quota_policy_id: ",
            ) {
                Err(e) => Err(e),
                Ok(quota_policy_id) => if text::same(f.status.as_str(), "OK") {
                    Ok(CreateQuotaPolicyResult::Created { quota_policy_id })
                } else if text::same(f.status.as_str(), "ALREADY_SATISFIED") {
                    Ok(CreateQuotaPolicyResult::AlreadySatisfied { quota_policy_id })
                } else {
                    Err(fields::unexpected_status("ff_create_quota_policy", f.status.as_str()))
                },
            },
        }
    }
}

/// Outcome of asking for admission.
#[derive(Clone, Copy, Debug, PartialEq, Eq, Structural)]
pub enum CheckAdmissionResult {
    Admitted,
    AlreadyAdmitted,
    RateExceeded { retry_after_ms: u64 },
    ConcurrencyExceeded,
}

impl View for CheckAdmissionResult {
    type V = CheckAdmissionResult;

    open spec fn view(&self) -> CheckAdmissionResult {
        *self
    }
}

/// The name under which an unreadable reply is reported.
pub open spec fn admission_error(message: Seq<char>) -> ScriptErrorView {
    error::parse_error("ff_check_admission_and_record"@, message)
}

/// The time to wait in slot 1: a number in text or an integer, else zero.
pub open spec fn retry_after(items: Seq<Item>) -> u64 {
    let t = match value::value_at(items, 1) {
        Some(Value::BulkString(b)) => text::lossy_text(b@),
        Some(Value::Int(n)) => numbers::decimal(n as int),
        _ => "0"@,
    };
    match numbers::parse_u64_spec(t) {
        Ok(n) => n,
        Err(_) => 0,
    }
}

/// The meaning of a reply to asking for admission. It has no envelope: its first
/// slot is the status word.
pub open spec fn admission_reply(raw: Value) -> Result<CheckAdmissionResult, ScriptErrorView> {
    match raw {
        Value::Array(items) => match value::string_text(value::value_at(items@, 0)) {
            None => Err(admission_error("expected status string"@)),
            Some(s) => if s == "ADMITTED"@ {
                Ok(CheckAdmissionResult::Admitted)
            } else if s == "ALREADY_ADMITTED"@ {
                Ok(CheckAdmissionResult::AlreadyAdmitted)
            } else if s == "RATE_EXCEEDED"@ {
                Ok(CheckAdmissionResult::RateExceeded { retry_after_ms: retry_after(items@) })
            } else if s == "CONCURRENCY_EXCEEDED"@ {
                Ok(CheckAdmissionResult::ConcurrencyExceeded)
            } else {
                Err(admission_error("unknown admission status: "@ + s))
            },
        },
        _ => Err(admission_error("expected Array"@)),
    }
}

fn read_retry_after(items: &Vec<Item>) -> (r: u64)
    ensures
        r == retry_after(items@),
{
    let t = match value::at(items, 1) {
        Some(Value::BulkString(b)) => text::lossy(b.as_slice()),
        Some(Value::Int(n)) => numbers::i64_text(*n),
        _ => "0".to_owned(),
    };
    match numbers::parse_u64(t.as_str()) {
        Ok(n) => n,
        Err(_) => 0,
    }
}

impl FromFcallResult for CheckAdmissionResult {
    fn from_fcall_result(raw: &Value) -> (r: Result<CheckAdmissionResult, ScriptError>)
        ensures
            fields::agrees(r, admission_reply(*raw)),
    {
        let items = match raw {
            Value::Array(items) => items,
            _ => {
                return Err(
                    error::unreadable(
                        "ff_check_admission_and_record",
                        "expected Array".to_owned(),
                    ),
                );
            },
        };
        match value::string_of(value::at(items, 0)) {
            None => Err(
                error::unreadable(
                    "ff_check_admission_and_record",
                    "expected status string".to_owned(),
                ),
            ),
            Some(s) => if text::same(s.as_str(), "ADMITTED") {
                Ok(CheckAdmissionResult::Admitted)
            } else if text::same(s.as_str(), "ALREADY_ADMITTED") {
                Ok(CheckAdmissionResult::AlreadyAdmitted)
            } else if text::same(s.as_str(), "RATE_EXCEEDED") {
                Ok(CheckAdmissionResult::RateExceeded { retry_after_ms: read_retry_after(items) })
            } else if text::same(s.as_str(), "CONCURRENCY_EXCEEDED") {
                Ok(CheckAdmissionResult::ConcurrencyExceeded)
            } else {
                Err(
                    error::unreadable(
                        "ff_check_admission_and_record",
                        error::prefixed("unknown admission status: ", s.as_str()),
                    ),
                )
            },
        }
    }
}

} // verus!
