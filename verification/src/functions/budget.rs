//! Calls on budgets, and blocking for want of budget or quota.

use vstd::prelude::*;
use vstd::string::*;

use crate::error;
use crate::error::{ScriptError, ScriptErrorView};
use crate::fields;
use crate::fields::FromFcallResult;
use crate::ids::{BudgetId, ExecutionId, TimestampMs};
use crate::keys::{ExecKeyContext, IndexKeys};
use crate::names::LaneId;
use crate::numbers;
use crate::reply::ReportUsageResult;
use crate::result;
use crate::text;
use crate::value::Value;
use crate::wire;
use crate::wire::Call;

verus! {

/// The most dimensions that a budget may have. It bounds the arguments of a call.
pub const MAX_BUDGET_DIMENSIONS: usize = 64;

/// The set that holds executions blocked for a reason.
pub open spec fn blocked_set_spec(k: BlockOpKeys<'_>, reason: Seq<char>) -> Seq<char> {
    if reason == "waiting_for_quota"@ {
        k.idx.lane_blocked_quota_spec(k.lane_id@)
    } else {
        k.idx.lane_blocked_budget_spec(k.lane_id@)
    }
}

fn blocked_set(k: &BlockOpKeys<'_>, reason: &str) -> (r: String)
    ensures
        r@ == blocked_set_spec(*k, reason@),
{
    if text::same(reason, "waiting_for_quota") {
        k.idx.lane_blocked_quota(k.lane_id)
    } else {
        k.idx.lane_blocked_budget(k.lane_id)
    }
}

/// Keys of a budget operation.
pub struct BudgetOpKeys<'a> {
    pub usage_key: &'a str,
    pub limits_key: &'a str,
    pub def_key: &'a str,
}

/// Key contexts of blocking and unblocking.
pub struct BlockOpKeys<'a> {
    pub ctx: &'a ExecKeyContext,
    pub idx: &'a IndexKeys,
    pub lane_id: &'a LaneId,
}

/// Arguments of [`ff_block_execution_for_admission`].
pub struct BlockExecutionArgs {
    pub execution_id: ExecutionId,
    pub blocking_reason: String,
    pub blocking_detail: Option<String>,
    pub now: TimestampMs,
}

/// Take an execution out of the eligible set for want of budget or quota.
pub fn ff_block_execution_for_admission(k: &BlockOpKeys, args: &BlockExecutionArgs) -> (r: Call)
    ensures
        r.function == "ff_block_execution_for_admission",
        r.keys_spec() == seq![
            k.ctx.core_key_spec(),
            k.idx.lane_eligible_spec(k.lane_id@),
            blocked_set_spec(*k, args.blocking_reason@),
        ],
        r.argv_spec() == seq![
            args.execution_id@,
            args.blocking_reason@,
            wire::or_spec(args.blocking_detail, ""@),
            numbers::decimal(args.now.0 as int),
        ],
{
    let mut keys: Vec<String> = Vec::new();
    keys.push(k.ctx.core_key());
    keys.push(k.idx.lane_eligible(k.lane_id));
    keys.push(blocked_set(k, args.blocking_reason.as_str()));
    let mut argv: Vec<String> = Vec::new();
    argv.push(args.execution_id.as_str().to_owned());
    argv.push(args.blocking_reason.as_str().to_owned());
    argv.push(wire::or_text(&args.blocking_detail, ""));
    argv.push(numbers::i64_text(args.now.0));
    Call { function: "ff_block_execution_for_admission", keys, argv }
}

/// Arguments of [`ff_unblock_execution`].
pub struct UnblockExecutionArgs {
    pub execution_id: ExecutionId,
    pub now: TimestampMs,
    pub expected_blocking_reason: Option<String>,
}

/// Put a blocked execution back into the eligible set.
pub fn ff_unblock_execution(k: &BlockOpKeys, args: &UnblockExecutionArgs) -> (r: Call)
    ensures
        r.function == "ff_unblock_execution",
        r.keys_spec() == seq![
            k.ctx.core_key_spec(),
            blocked_set_spec(*k, wire::or_spec(args.expected_blocking_reason, "waiting_for_budget"@)),
            k.idx.lane_eligible_spec(k.lane_id@),
        ],
        r.argv_spec() == seq![
            args.execution_id@,
            numbers::decimal(args.now.0 as int),
            wire::or_spec(args.expected_blocking_reason, ""@),
        ],
{
    let mut keys: Vec<String> = Vec::new();
    keys.push(k.ctx.core_key());
    keys.push(blocked_set(k, wire::or_text(&args.expected_blocking_reason, "waiting_for_budget").as_str()));
    keys.push(k.idx.lane_eligible(k.lane_id));
    let mut argv: Vec<String> = Vec::new();
    argv.push(args.execution_id.as_str().to_owned());
    argv.push(numbers::i64_text(args.now.0));
    argv.push(wire::or_text(&args.expected_blocking_reason, ""));
    Call { function: "ff_unblock_execution", keys, argv }
}

// ── Lists of numbers and texts ──

/// Numbers in decimal.
pub open spec fn decimals(v: Seq<u64>) -> Seq<Seq<char>> {
    v.map_values(|n: u64| numbers::decimal(n as int))
}

fn push_texts(out: &mut Vec<String>, items: &Vec<String>)
    ensures
        text::texts(final(out)@) == text::texts(old(out)@) + text::texts(items@),
{
    let n: usize = items.len();
    let mut i: usize = 0;
    let ghost start = out@;
    while i < n
        invariant
            n == items@.len(),
            i <= n,
            start == old(out)@,
            text::texts(out@) == text::texts(start) + text::texts(items@.take(i as int)),
        decreases n - i,
    {
        let ghost before = out@;
        out.push(items[i].as_str().to_owned());
        assert(text::texts(out@) =~= text::texts(before).push(items@[i as int]@));
        assert(text::texts(items@.take(i as int + 1)) =~= text::texts(items@.take(i as int)).push(
            items@[i as int]@,
        ));
        i = i + 1;
    }
    assert(items@.take(n as int) =~= items@);
}

fn push_decimals(out: &mut Vec<String>, items: &Vec<u64>)
    ensures
        text::texts(final(out)@) == text::texts(old(out)@) + decimals(items@),
{
    let n: usize = items.len();
    let mut i: usize = 0;
    let ghost start = out@;
    while i < n
        invariant
            n == items@.len(),
            i <= n,
            start == old(out)@,
            text::texts(out@) == text::texts(start) + decimals(items@.take(i as int)),
        decreases n - i,
    {
        let ghost before = out@;
        let d = numbers::u64_text(items[i]);
        out.push(d);
        assert(text::texts(out@) =~= text::texts(before).push(d@));
        assert(decimals(items@.take(i as int + 1)) =~= decimals(items@.take(i as int)).push(d@));
        i = i + 1;
    }
    assert(items@.take(n as int) =~= items@);
}

/// `<label><a><between><b>`.
pub open spec fn two_counts(label: Seq<char>, a: int, between: Seq<char>, b: int) -> Seq<char> {
    label + numbers::decimal(a) + between + numbers::decimal(b)
}

fn two_counts_text(label: &str, a: usize, between: &str, b: usize) -> (r: String)
    ensures
        r@ == two_counts(label@, a as int, between@, b as int),
{
    let mut out = label.to_owned();
    out.append(numbers::u64_text(a as u64).as_str());
    out.append(between);
    out.append(numbers::u64_text(b as u64).as_str());
    out
}

/// Why a list of dimensions is refused.
pub open spec fn dimensions_refusal(fcall: Seq<char>, n: int) -> Option<ScriptErrorView> {
    if n > MAX_BUDGET_DIMENSIONS {
        Some(
            error::parse_error(fcall, two_counts("too_many_dimensions: limit="@, 64, ", got="@, n)),
        )
    } else {
        None
    }
}

// ── Creation ──

/// Arguments of [`ff_create_budget`].
pub struct CreateBudgetArgs {
    pub budget_id: BudgetId,
    pub scope_type: String,
    pub scope_id: String,
    pub enforcement_mode: String,
    pub on_hard_limit: String,
    pub on_soft_limit: String,
    pub reset_interval_ms: u64,
    pub dimensions: Vec<String>,
    pub hard_limits: Vec<u64>,
    pub soft_limits: Vec<u64>,
    pub now: TimestampMs,
}

/// Why the arguments of a creation are refused: too many dimensions, or a limit
/// list of another length.
pub open spec fn create_refusal(args: CreateBudgetArgs) -> Option<ScriptErrorView> {
    let n = args.dimensions@.len() as int;
    match dimensions_refusal("ff_create_budget"@, n) {
        Some(e) => Some(e),
        None => if args.hard_limits@.len() != n {
            Some(
                error::parse_error(
                    "ff_create_budget"@,
                    two_counts(
                        "dimension_limit_array_mismatch: dimensions="@,
                        n,
                        " hard_limits="@,
                        args.hard_limits@.len() as int,
                    ),
                ),
            )
        } else if args.soft_limits@.len() != n {
            Some(
                error::parse_error(
                    "ff_create_budget"@,
                    two_counts(
                        "dimension_limit_array_mismatch: dimensions="@,
                        n,
                        " soft_limits="@,
                        args.soft_limits@.len() as int,
                    ),
                ),
            )
        } else {
            None
        },
    }
}

/// The arguments of a creation on the wire: nine fixed ones, the dimensions, the
/// hard limits and the soft limits.
pub open spec fn create_argv(args: CreateBudgetArgs) -> Seq<Seq<char>> {
    seq![
        args.budget_id@,
        args.scope_type@,
        args.scope_id@,
        args.enforcement_mode@,
        args.on_hard_limit@,
        args.on_soft_limit@,
        numbers::decimal(args.reset_interval_ms as int),
        numbers::decimal(args.now.0 as int),
        numbers::decimal(args.dimensions@.len() as int),
    ] + text::texts(args.dimensions@) + decimals(args.hard_limits@) + decimals(args.soft_limits@)
}

/// Create a budget.
pub fn ff_create_budget(
    k: &BudgetOpKeys,
    resets_zset: &str,
    policies_index: &str,
    args: &CreateBudgetArgs,
) -> (r: Result<Call, ScriptError>)
    ensures
        match create_refusal(*args) {
            Some(e) => r matches Err(x) && x@ == e,
            None => r matches Ok(c) && c.function == "ff_create_budget" && c.keys_spec() == seq![
                k.def_key@,
                k.limits_key@,
                k.usage_key@,
                resets_zset@,
                policies_index@,
            ] && c.argv_spec() == create_argv(*args),
        },
{
    let n: usize = args.dimensions.len();
    if n > MAX_BUDGET_DIMENSIONS {
        return Err(
            error::unreadable(
                "ff_create_budget",
                two_counts_text(
                    "too_many_dimensions: limit=",
                    MAX_BUDGET_DIMENSIONS,
                    ", got=",
                    n,
                ),
            ),
        );
    }
    if args.hard_limits.len() != n {
        return Err(
            error::unreadable(
                "ff_create_budget",
                two_counts_text(
                    "dimension_limit_array_mismatch: dimensions=",
                    n,
                    " hard_limits=",
                    args.hard_limits.len(),
                ),
            ),
        );
    }
    if args.soft_limits.len() != n {
        return Err(
            error::unreadable(
                "ff_create_budget",
                two_counts_text(
                    "dimension_limit_array_mismatch: dimensions=",
                    n,
                    " soft_limits=",
                    args.soft_limits.len(),
                ),
            ),
        );
    }
    let mut keys: Vec<String> = Vec::new();
    keys.push(k.def_key.to_owned());
    keys.push(k.limits_key.to_owned());
    keys.push(k.usage_key.to_owned());
    keys.push(resets_zset.to_owned());
    keys.push(policies_index.to_owned());
    let mut argv: Vec<String> = Vec::new();
    argv.push(args.budget_id.as_str().to_owned());
    argv.push(args.scope_type.as_str().to_owned());
    argv.push(args.scope_id.as_str().to_owned());
    argv.push(args.enforcement_mode.as_str().to_owned());
    argv.push(args.on_hard_limit.as_str().to_owned());
    argv.push(args.on_soft_limit.as_str().to_owned());
    argv.push(numbers::u64_text(args.reset_interval_ms));
    argv.push(numbers::i64_text(args.now.0));
    argv.push(numbers::u64_text(n as u64));
    assert(text::texts(argv@) =~= seq![
        args.budget_id@,
        args.scope_type@,
        args.scope_id@,
        args.enforcement_mode@,
        args.on_hard_limit@,
        args.on_soft_limit@,
        numbers::decimal(args.reset_interval_ms as int),
        numbers::decimal(args.now.0 as int),
        numbers::decimal(args.dimensions@.len() as int),
    ]);
    push_texts(&mut argv, &args.dimensions);
    push_decimals(&mut argv, &args.hard_limits);
    push_decimals(&mut argv, &args.soft_limits);
    Ok(Call { function: "ff_create_budget", keys, argv })
}

/// Outcome of creating a budget.
#[derive(Debug)]
pub enum CreateBudgetResult<I = BudgetId> {
    Created { budget_id: I },
    AlreadySatisfied { budget_id: I },
}

impl View for CreateBudgetResult {
    type V = CreateBudgetResult<Seq<char>>;

    open spec fn view(&self) -> CreateBudgetResult<Seq<char>> {
        match *self {
            CreateBudgetResult::Created { budget_id } => CreateBudgetResult::Created {
                budget_id: budget_id@,
            },
            CreateBudgetResult::AlreadySatisfied { budget_id } => {
                CreateBudgetResult::AlreadySatisfied { budget_id: budget_id@ }
            },
        }
    }
}

/// The meaning of a reply to creating a budget.
pub open spec fn create_budget_reply(raw: Value) -> Result<
    CreateBudgetResult<Seq<char>>,
    ScriptErrorView,
> {
    match result::accepted(raw) {
        Err(e) => Err(e),
        Ok(f) => match fields::budget_id_spec(f, 0, "ff_create_budget"@, "invalid budget_id: "@) {
            Err(e) => Err(e),
            Ok(budget_id) => if f.status == "OK"@ {
                Ok(CreateBudgetResult::Created { budget_id })
            } else if f.status == "ALREADY_SATISFIED"@ {
                Ok(CreateBudgetResult::AlreadySatisfied { budget_id })
            } else {
                Err(fields::bad_status("ff_create_budget"@, f.status))
            },
        },
    }
}

impl FromFcallResult for CreateBudgetResult {
    fn from_fcall_result(raw: &Value) -> (r: Result<CreateBudgetResult, ScriptError>)
        ensures
            fields::agrees(r, create_budget_reply(*raw)),
    {
        match result::accept(raw) {
            Err(e) => Err(e),
            Ok(f) => match fields::budget_id_field(
                &f,
                0,
                "ff_create_budget",
                "invalid budget_id: ",
            ) {
                Err(e) => Err(e),
                Ok(budget_id) => if text::same(f.status.as_str(), "OK") {
                    Ok(CreateBudgetResult::Created { budget_id })
                } else if text::same(f.status.as_str(), "ALREADY_SATISFIED") {
                    Ok(CreateBudgetResult::AlreadySatisfied { budget_id })
                } else {
                    Err(fields::unexpected_status("ff_create_budget", f.status.as_str()))
                },
            },
        }
    }
}

// ── Usage ──

/// Arguments of [`ff_report_usage_and_check`].
pub struct ReportUsageArgs {
    pub dimensions: Vec<String>,
    pub deltas: Vec<u64>,
    pub now: TimestampMs,
    pub dedup_key: Option<String>,
}

/// Why the arguments of a report are refused: too many dimensions, or a list of
/// deltas of another length.
pub open spec fn report_refusal(args: ReportUsageArgs) -> Option<ScriptErrorView> {
    let n = args.dimensions@.len() as int;
    match dimensions_refusal("ff_report_usage_and_check"@, n) {
        Some(e) => Some(e),
        None => if args.deltas@.len() != n {
            Some(
                error::parse_error(
                    "ff_report_usage_and_check"@,
                    two_counts(
                        "dimension_delta_array_mismatch: dimensions="@,
                        n,
                        " deltas="@,
                        args.deltas@.len() as int,
                    ),
                ),
            )
        } else {
            None
        },
    }
}

/// The arguments of a report on the wire: the count, the dimensions, the deltas,
/// the time and the deduplication key.
pub open spec fn report_argv(args: ReportUsageArgs) -> Seq<Seq<char>> {
    seq![numbers::decimal(args.dimensions@.len() as int)] + text::texts(args.dimensions@)
        + decimals(args.deltas@) + seq![
        numbers::decimal(args.now.0 as int),
        wire::or_spec(args.dedup_key, ""@),
    ]
}

/// Report usage against a budget and check its limits.
pub fn ff_report_usage_and_check(k: &BudgetOpKeys, args: &ReportUsageArgs) -> (r: Result<
    Call,
    ScriptError,
>)
    ensures
        match report_refusal(*args) {
            Some(e) => r matches Err(x) && x@ == e,
            None => r matches Ok(c) && c.function == "ff_report_usage_and_check" && c.keys_spec() == seq![
                k.usage_key@,
                k.limits_key@,
                k.def_key@,
            ] && c.argv_spec() == report_argv(*args),
        },
{
    let n: usize = args.dimensions.len();
    if n > MAX_BUDGET_DIMENSIONS {
        return Err(
            error::unreadable(
                "ff_report_usage_and_check",
                two_counts_text(
                    "too_many_dimensions: limit=",
                    MAX_BUDGET_DIMENSIONS,
                    ", got=",
                    n,
                ),
            ),
        );
    }
    if args.deltas.len() != n {
        return Err(
            error::unreadable(
                "ff_report_usage_and_check",
                two_counts_text(
                    "dimension_delta_array_mismatch: dimensions=",
                    n,
                    " deltas=",
                    args.deltas.len(),
                ),
            ),
        );
    }
    let mut keys: Vec<String> = Vec::new();
    keys.push(k.usage_key.to_owned());
    keys.push(k.limits_key.to_owned());
    keys.push(k.def_key.to_owned());
    let mut argv: Vec<String> = Vec::new();
    argv.push(numbers::u64_text(n as u64));
    assert(text::texts(argv@) =~= seq![numbers::decimal(args.dimensions@.len() as int)]);
    push_texts(&mut argv, &args.dimensions);
    push_decimals(&mut argv, &args.deltas);
    let ghost before = text::texts(argv@);
    argv.push(numbers::i64_text(args.now.0));
    argv.push(wire::or_text(&args.dedup_key, ""));
    assert(text::texts(argv@) =~= before + seq![
        numbers::decimal(args.now.0 as int),
        wire::or_spec(args.dedup_key, ""@),
    ]);
    Ok(Call { function: "ff_report_usage_and_check", keys, argv })
}

/// The meaning of a reply to a report. A number that does not parse reads as zero.
pub open spec fn report_reply(raw: Value) -> Result<
    ReportUsageResult<Seq<char>>,
    ScriptErrorView,
> {
    match result::accepted(raw) {
        Err(e) => Err(e),
        Ok(f) => if f.status == "OK"@ {
            Ok(ReportUsageResult::Applied)
        } else if f.status == "ALREADY_APPLIED"@ {
            Ok(ReportUsageResult::AlreadyApplied)
        } else if f.status == "SOFT_BREACH"@ {
            Ok(
                ReportUsageResult::SoftBreach {
                    dimension: f.field(0),
                    current_usage: fields::u64_or_zero_spec(f, 1),
                    soft_limit: fields::u64_or_zero_spec(f, 2),
                },
            )
        } else if f.status == "HARD_BREACH"@ {
            Ok(
                ReportUsageResult::HardBreach {
                    dimension: f.field(0),
                    current_usage: fields::u64_or_zero_spec(f, 1),
                    hard_limit: fields::u64_or_zero_spec(f, 2),
                },
            )
        } else {
            Err(
                error::parse_error(
                    "ff_report_usage_and_check"@,
                    "unknown budget status: "@ + f.status,
                ),
            )
        },
    }
}

impl FromFcallResult for ReportUsageResult {
    fn from_fcall_result(raw: &Value) -> (r: Result<ReportUsageResult, ScriptError>)
        ensures
            fields::agrees(r, report_reply(*raw)),
    {
        let f = match result::accept(raw) {
            Ok(f) => f,
            Err(e) => {
                return Err(e);
            },
        };
        if text::same(f.status.as_str(), "OK") {
            Ok(ReportUsageResult::Applied)
        } else if text::same(f.status.as_str(), "ALREADY_APPLIED") {
            Ok(ReportUsageResult::AlreadyApplied)
        } else if text::same(f.status.as_str(), "SOFT_BREACH") {
            Ok(
                ReportUsageResult::SoftBreach {
                    dimension: f.field_str(0),
                    current_usage: fields::u64_or_zero(&f, 1),
                    soft_limit: fields::u64_or_zero(&f, 2),
                },
            )
        } else if text::same(f.status.as_str(), "HARD_BREACH") {
            Ok(
                ReportUsageResult::HardBreach {
                    dimension: f.field_str(0),
                    current_usage: fields::u64_or_zero(&f, 1),
                    hard_limit: fields::u64_or_zero(&f, 2),
                },
            )
        } else {
            Err(
                error::unreadable(
                    "ff_report_usage_and_check",
                    error::prefixed("unknown budget status: ", f.status.as_str()),
                ),
            )
        }
    }
}

// ── Reset ──

/// Arguments of [`ff_reset_budget`].
pub struct ResetBudgetArgs {
    pub budget_id: BudgetId,
    pub now: TimestampMs,
}

/// Reset a budget.
pub fn ff_reset_budget(k: &BudgetOpKeys, resets_zset: &str, args: &ResetBudgetArgs) -> (r: Call)
    ensures
        r.function == "ff_reset_budget",
        r.keys_spec() == seq![k.def_key@, k.usage_key@, resets_zset@],
        r.argv_spec() == seq![args.budget_id@, numbers::decimal(args.now.0 as int)],
{
    let mut keys: Vec<String> = Vec::new();
    keys.push(k.def_key.to_owned());
    keys.push(k.usage_key.to_owned());
    keys.push(resets_zset.to_owned());
    let mut argv: Vec<String> = Vec::new();
    argv.push(args.budget_id.as_str().to_owned());
    argv.push(numbers::i64_text(args.now.0));
    Call { function: "ff_reset_budget", keys, argv }
}

/// Outcome of a reset.
#[derive(Clone, Copy, Debug, PartialEq, Eq, Structural)]
pub enum ResetBudgetResult {
    Reset { next_reset_at: TimestampMs },
}

impl View for ResetBudgetResult {
    type V = ResetBudgetResult;

    open spec fn view(&self) -> ResetBudgetResult {
        *self
    }
}

/// The meaning of a reply to a reset. A time that does not parse reads as zero.
pub open spec fn reset_reply(raw: Value) -> Result<ResetBudgetResult, ScriptErrorView> {
    match result::accepted(raw) {
        Err(e) => Err(e),
        Ok(f) => Ok(
            ResetBudgetResult::Reset { next_reset_at: TimestampMs(fields::i64_or_zero_spec(f, 0)) },
        ),
    }
}

impl FromFcallResult for ResetBudgetResult {
    fn from_fcall_result(raw: &Value) -> (r: Result<ResetBudgetResult, ScriptError>)
        ensures
            fields::agrees(r, reset_reply(*raw)),
    {
        match result::accept(raw) {
            Err(e) => Err(e),
            Ok(f) => Ok(
                ResetBudgetResult::Reset { next_reset_at: TimestampMs(fields::i64_or_zero(&f, 0)) },
            ),
        }
    }
}

// ── Blocking ──

/// Outcome of blocking.
#[derive(Clone, Copy, Debug, PartialEq, Eq, Structural)]
pub enum BlockExecutionResult {
    Blocked,
}

impl FromFcallResult for BlockExecutionResult {
    fn from_fcall_result(raw: &Value) -> (r: Result<BlockExecutionResult, ScriptError>)
        ensures
            match result::accepted(*raw) {
                Err(e) => r matches Err(x) && x@ == e,
                Ok(_) => r is Ok,
            },
    {
        match result::accept(raw) {
            Err(e) => Err(e),
            Ok(_) => Ok(BlockExecutionResult::Blocked),
        }
    }
}

/// Outcome of unblocking.
#[derive(Clone, Copy, Debug, PartialEq, Eq, Structural)]
pub enum UnblockExecutionResult {
    Unblocked,
}

impl FromFcallResult for UnblockExecutionResult {
    fn from_fcall_result(raw: &Value) -> (r: Result<UnblockExecutionResult, ScriptError>)
        ensures
            match result::accepted(*raw) {
                Err(e) => r matches Err(x) && x@ == e,
                Ok(_) => r is Ok,
            },
    {
        match result::accept(raw) {
            Err(e) => Err(e),
            Ok(_) => Ok(UnblockExecutionResult::Unblocked),
        }
    }
}

} // verus!
