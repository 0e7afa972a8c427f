//! How a task suspends its execution until a signal comes.

use vstd::prelude::*;
use vstd::string::*;

use crate::ids::{AttemptId, AttemptIndex, ExecutionId, LeaseEpoch, LeaseId, SuspensionId, TimestampMs, WaitpointId};
use crate::json;
use crate::keys::{ExecKeyContext, IndexKeys};
use crate::names::{LaneId, WorkerInstanceId};
use crate::numbers;
use crate::text;
use crate::wire::Call;

verus! {

/// What happens when no signal comes in time.
#[derive(Clone, Copy, Debug, PartialEq, Eq, Structural)]
pub enum TimeoutBehavior {
    Fail,
    Cancel,
    Expire,
    /// Resume with a timeout signal.
    AutoResume,
    Escalate,
}

/// The behavior of a word, if it is known.
pub open spec fn behavior_of(s: Seq<char>) -> Option<TimeoutBehavior> {
    if s == "fail"@ {
        Some(TimeoutBehavior::Fail)
    } else if s == "cancel"@ {
        Some(TimeoutBehavior::Cancel)
    } else if s == "expire"@ {
        Some(TimeoutBehavior::Expire)
    } else if s == "auto_resume_with_timeout_signal"@ || s == "auto_resume"@ {
        Some(TimeoutBehavior::AutoResume)
    } else if s == "escalate"@ {
        Some(TimeoutBehavior::Escalate)
    } else {
        None
    }
}

impl TimeoutBehavior {
    /// The word for a behavior on the wire.
    pub open spec fn name_spec(self) -> &'static str {
        match self {
            TimeoutBehavior::Fail => "fail",
            TimeoutBehavior::Cancel => "cancel",
            TimeoutBehavior::Expire => "expire",
            TimeoutBehavior::AutoResume => "auto_resume_with_timeout_signal",
            TimeoutBehavior::Escalate => "escalate",
        }
    }

    /// The word for a behavior on the wire.
    pub fn as_str(&self) -> (r: &'static str)
        ensures
            r == self.name_spec(),
    {
        match self {
            TimeoutBehavior::Fail => "fail",
            TimeoutBehavior::Cancel => "cancel",
            TimeoutBehavior::Expire => "expire",
            TimeoutBehavior::AutoResume => "auto_resume_with_timeout_signal",
            TimeoutBehavior::Escalate => "escalate",
        }
    }

    /// The behavior of a word. `auto_resume` is short for the longer word.
    pub fn from_str(s: &str) -> (r: Result<TimeoutBehavior, String>)
        ensures
            match behavior_of(s@) {
                Some(b) => r == Ok::<TimeoutBehavior, String>(b),
                None => r matches Err(e) && e@ == "unknown timeout behavior: "@ + s@,
            },
    {
        if text::same(s, "fail") {
            Ok(TimeoutBehavior::Fail)
        } else if text::same(s, "cancel") {
            Ok(TimeoutBehavior::Cancel)
        } else if text::same(s, "expire") {
            Ok(TimeoutBehavior::Expire)
        } else if text::same(s, "auto_resume_with_timeout_signal") || text::same(
            s,
            "auto_resume",
        ) {
            Ok(TimeoutBehavior::AutoResume)
        } else if text::same(s, "escalate") {
            Ok(TimeoutBehavior::Escalate)
        } else {
            let mut e = "unknown timeout behavior: ".to_owned();
            e.append(s);
            Err(e)
        }
    }
}

/// The word for a behavior reads back as the behavior.
pub proof fn law_behavior_round_trip(b: TimeoutBehavior)
    ensures
        behavior_of(b.name_spec()@) == Some(b),
{
    reveal_strlit("fail");
    reveal_strlit("cancel");
    reveal_strlit("expire");
    reveal_strlit("auto_resume_with_timeout_signal");
    reveal_strlit("auto_resume");
    reveal_strlit("escalate");
    assert("fail"@.len() == 4 && "cancel"@.len() == 6 && "expire"@.len() == 6);
    assert("escalate"@.len() == 8 && "auto_resume"@.len() == 11);
    assert("auto_resume_with_timeout_signal"@.len() == 31);
    assert("cancel"@[0] == 'c' && "expire"@[0] == 'e');
}

/// A signal that a suspension waits for.
#[derive(Debug)]
pub struct ConditionMatcher {
    /// Name of the signal. An empty one matches every signal.
    pub signal_name: String,
}

/// The names of the signals that are waited for.
pub open spec fn names_of(matchers: Seq<ConditionMatcher>) -> Seq<Seq<char>> {
    matchers.map_values(|m: ConditionMatcher| m.signal_name@)
}

/// How many of the named signals must come: with one name or none any, else all.
pub open spec fn match_mode(n: int) -> Seq<char> {
    if n <= 1 {
        "any"@
    } else {
        "all"@
    }
}

/// The resume condition in JSON, its members in alphabetical order.
pub open spec fn condition_text(
    names: Seq<Seq<char>>,
    behavior: TimeoutBehavior,
) -> Seq<char> {
    "{\"allow_operator_override\":true,\"condition_type\":\"signal_set\",\"minimum_signal_count\":1,\"required_signal_names\":"@
        + json::array_text(names) + ",\"signal_match_mode\":\""@ + match_mode(names.len() as int)
        + "\",\"timeout_behavior\":\""@ + behavior.name_spec()@ + "\"}"@
}

/// The resume policy in JSON, its members in alphabetical order.
pub open spec fn policy_text() -> Seq<char> {
    "{\"close_waitpoint_on_resume\":true,\"consume_matched_signals\":true,\"resume_target\":\"runnable\",\"retain_signal_buffer_until_closed\":true}"@
}

fn signal_names(matchers: &Vec<ConditionMatcher>) -> (r: Vec<String>)
    ensures
        text::texts(r@) == names_of(matchers@),
{
    let n: usize = matchers.len();
    let mut out: Vec<String> = Vec::new();
    let mut i: usize = 0;
    while i < n
        invariant
            n == matchers@.len(),
            i <= n,
            out@.len() == i,
            forall|k: int| 0 <= k < i ==> (#[trigger] out@[k])@ == matchers@[k].signal_name@,
        decreases n - i,
    {
        out.push(matchers[i].signal_name.clone());
        i = i + 1;
    }
    assert(text::texts(out@) =~= names_of(matchers@));
    out
}

/// The resume condition of a suspension.
pub fn resume_condition_json(
    matchers: &Vec<ConditionMatcher>,
    behavior: TimeoutBehavior,
) -> (r: String)
    ensures
        r@ == condition_text(names_of(matchers@), behavior),
{
    let names = signal_names(matchers);
    let mut out =
        "{\"allow_operator_override\":true,\"condition_type\":\"signal_set\",\"minimum_signal_count\":1,\"required_signal_names\":".to_owned();
    out.append(json::string_array(&names).as_str());
    out.append(",\"signal_match_mode\":\"");
    if matchers.len() <= 1 {
        out.append("any");
    } else {
        out.append("all");
    }
    out.append("\",\"timeout_behavior\":\"");
    out.append(behavior.as_str());
    out.append("\"}");
    out
}

/// The time at which a suspension times out. It must be one that can be written.
pub open spec fn deadline_fits(now: TimestampMs, timeout_ms: Option<u64>) -> bool {
    match timeout_ms {
        Some(ms) => i64::MIN <= now.0 + numbers::signed(ms) <= i64::MAX,
        None => true,
    }
}

/// The time at which a suspension times out, in text; empty if never.
pub open spec fn deadline_text(now: TimestampMs, timeout_ms: Option<u64>) -> Seq<char> {
    match timeout_ms {
        Some(ms) => numbers::decimal(now.0 + numbers::signed(ms)),
        None => ""@,
    }
}

fn deadline(now: TimestampMs, timeout_ms: Option<u64>) -> (r: String)
    requires
        deadline_fits(now, timeout_ms),
    ensures
        r@ == deadline_text(now, timeout_ms),
{
    match timeout_ms {
        None => "".to_owned(),
        Some(ms) => {
            let at: i128 = now.0 as i128 + numbers::as_signed(ms);
            numbers::i64_text(at as i64)
        },
    }
}

/// The key of a waitpoint that a suspension makes.
pub fn waitpoint_key(waitpoint_id: &WaitpointId) -> (r: String)
    ensures
        r@ == "wpk:"@ + waitpoint_id@,
{
    let mut out = "wpk:".to_owned();
    out.append(waitpoint_id.as_str());
    out
}

/// Who suspends: the attempt, its lease, and where it runs.
pub struct Suspender<'a> {
    pub ctx: &'a ExecKeyContext,
    pub idx: &'a IndexKeys,
    pub execution_id: &'a ExecutionId,
    pub attempt_index: AttemptIndex,
    pub attempt_id: &'a AttemptId,
    pub lease_id: &'a LeaseId,
    pub lease_epoch: LeaseEpoch,
    pub lane_id: &'a LaneId,
    pub worker_instance_id: &'a WorkerInstanceId,
}

/// What a suspension waits for, and for how long.
pub struct SuspendRequest<'a> {
    pub suspension_id: &'a SuspensionId,
    pub waitpoint_id: &'a WaitpointId,
    pub now: TimestampMs,
    pub reason_code: &'a str,
    pub condition_matchers: &'a Vec<ConditionMatcher>,
    pub timeout_ms: Option<u64>,
    pub timeout_behavior: TimeoutBehavior,
}

/// The keys of a suspension.
pub open spec fn suspend_keys(t: Suspender<'_>, q: SuspendRequest<'_>) -> Seq<Seq<char>> {
    seq![
        t.ctx.core_key_spec(),
        t.ctx.attempt_hash_spec(t.attempt_index),
        t.ctx.lease_current_spec(),
        t.ctx.lease_history_spec(),
        t.idx.lease_expiry_spec(),
        t.idx.worker_leases_spec(t.worker_instance_id@),
        t.ctx.suspension_current_spec(),
        t.ctx.waitpoint_spec(q.waitpoint_id@),
        t.ctx.waitpoint_signals_spec(q.waitpoint_id@),
        t.idx.suspension_timeout_spec(),
        t.idx.pending_waitpoint_expiry_spec(),
        t.idx.lane_active_spec(t.lane_id@),
        t.idx.lane_suspended_spec(t.lane_id@),
        t.ctx.waitpoints_spec(),
        t.ctx.waitpoint_condition_spec(q.waitpoint_id@),
        t.idx.attempt_timeout_spec(),
        t.idx.waitpoint_hmac_secrets_spec(),
    ]
}

/// The arguments of a suspension.
pub open spec fn suspend_argv(t: Suspender<'_>, q: SuspendRequest<'_>) -> Seq<Seq<char>> {
    seq![
        t.execution_id@,
        numbers::decimal(t.attempt_index.0 as int),
        t.attempt_id@,
        t.lease_id@,
        numbers::decimal(t.lease_epoch.0 as int),
        q.suspension_id@,
        q.waitpoint_id@,
        "wpk:"@ + q.waitpoint_id@,
        q.reason_code@,
        "worker"@,
        deadline_text(q.now, q.timeout_ms),
        condition_text(names_of(q.condition_matchers@), q.timeout_behavior),
        policy_text(),
        ""@,
        ""@,
        q.timeout_behavior.name_spec()@,
        "1000"@,
    ]
}

/// Suspend the execution of a task.
pub fn suspend(t: &Suspender, q: &SuspendRequest) -> (r: Call)
    requires
        deadline_fits(q.now, q.timeout_ms),
    ensures
        r.function == "ff_suspend_execution",
        r.keys_spec() == suspend_keys(*t, *q),
        r.argv_spec() == suspend_argv(*t, *q),
        r.argv_spec().len() == 17,
        r.argv_spec()[0] == t.execution_id@,
        r.argv_spec()[1] == numbers::decimal(t.attempt_index.0 as int),
        r.argv_spec()[2] == t.attempt_id@,
        r.argv_spec()[3] == t.lease_id@,
        r.argv_spec()[4] == numbers::decimal(t.lease_epoch.0 as int),
        r.argv_spec()[5] == q.suspension_id@,
        r.argv_spec()[6] == q.waitpoint_id@,
        r.argv_spec()[7] == "wpk:"@ + r.argv_spec()[6],
        r.argv_spec()[8] == q.reason_code@,
        r.argv_spec()[15] == q.timeout_behavior.name_spec()@,
        r.keys_spec()[7] == t.ctx.waitpoint_spec(r.argv_spec()[6]),
{
    let mut keys: Vec<String> = Vec::new();
    keys.push(t.ctx.core_key());
    keys.push(t.ctx.attempt_hash(t.attempt_index));
    keys.push(t.ctx.lease_current());
    keys.push(t.ctx.lease_history());
    keys.push(t.idx.lease_expiry());
    keys.push(t.idx.worker_leases(t.worker_instance_id));
    keys.push(t.ctx.suspension_current());
    keys.push(t.ctx.waitpoint(q.waitpoint_id));
    keys.push(t.ctx.waitpoint_signals(q.waitpoint_id));
    keys.push(t.idx.suspension_timeout());
    keys.push(t.idx.pending_waitpoint_expiry());
    keys.push(t.idx.lane_active(t.lane_id));
    keys.push(t.idx.lane_suspended(t.lane_id));
    keys.push(t.ctx.waitpoints());
    keys.push(t.ctx.waitpoint_condition(q.waitpoint_id));
    keys.push(t.idx.attempt_timeout());
    keys.push(t.idx.waitpoint_hmac_secrets());
    let mut argv: Vec<String> = Vec::new();
    argv.push(t.execution_id.as_str().to_owned());
    argv.push(numbers::u64_text(t.attempt_index.0 as u64));
    argv.push(t.attempt_id.as_str().to_owned());
    argv.push(t.lease_id.as_str().to_owned());
    argv.push(numbers::u64_text(t.lease_epoch.0));
    argv.push(q.suspension_id.as_str().to_owned());
    argv.push(q.waitpoint_id.as_str().to_owned());
    argv.push(waitpoint_key(q.waitpoint_id));
    argv.push(q.reason_code.to_owned());
    argv.push("worker".to_owned());
    argv.push(deadline(q.now, q.timeout_ms));
    argv.push(resume_condition_json(q.condition_matchers, q.timeout_behavior));
    argv.push(
        "{\"close_waitpoint_on_resume\":true,\"consume_matched_signals\":true,\"resume_target\":\"runnable\",\"retain_signal_buffer_until_closed\":true}".to_owned(),
    );
    argv.push("".to_owned());
    argv.push("".to_owned());
    argv.push(q.timeout_behavior.as_str().to_owned());
    argv.push("1000".to_owned());
    let r = Call { function: "ff_suspend_execution", keys, argv };
    assert(r.keys_spec() =~= suspend_keys(*t, *q));
    assert(r.argv_spec() =~= suspend_argv(*t, *q));
    r
}

// ── Laws ──

/// A suspension tells the server, place by place, who suspends, which suspension and
/// which waitpoint are made, why, until when, and what happens then. The waitpoint that
/// is named is the one whose keys are given, and no other.
pub proof fn law_suspend_call(t: &Suspender<'_>, q: &SuspendRequest<'_>, r: Call)
    requires
        call_ensures(suspend, (t, q), r),
    ensures
        r.function == "ff_suspend_execution",
        r.argv_spec().len() == 17,
        r.argv_spec()[0] == t.execution_id@,
        r.argv_spec()[1] == numbers::decimal(t.attempt_index.0 as int),
        r.argv_spec()[2] == t.attempt_id@,
        r.argv_spec()[3] == t.lease_id@,
        r.argv_spec()[4] == numbers::decimal(t.lease_epoch.0 as int),
        r.argv_spec()[5] == q.suspension_id@,
        r.argv_spec()[6] == q.waitpoint_id@,
        r.argv_spec()[7] == "wpk:"@ + r.argv_spec()[6],
        r.argv_spec()[8] == q.reason_code@,
        r.argv_spec()[9] == "worker"@,
        q.timeout_ms is None ==> r.argv_spec()[10].len() == 0,
        q.timeout_ms matches Some(ms) ==> r.argv_spec()[10] == numbers::decimal(
            q.now.0 + numbers::signed(ms),
        ),
        r.argv_spec()[12]
            == "{\"close_waitpoint_on_resume\":true,\"consume_matched_signals\":true,\"resume_target\":\"runnable\",\"retain_signal_buffer_until_closed\":true}"@,
        r.argv_spec()[13].len() == 0,
        r.argv_spec()[14].len() == 0,
        q.timeout_behavior == TimeoutBehavior::Fail ==> r.argv_spec()[15] == "fail"@,
        q.timeout_behavior == TimeoutBehavior::Cancel ==> r.argv_spec()[15] == "cancel"@,
        q.timeout_behavior == TimeoutBehavior::Expire ==> r.argv_spec()[15] == "expire"@,
        q.timeout_behavior == TimeoutBehavior::AutoResume ==> r.argv_spec()[15]
            == "auto_resume_with_timeout_signal"@,
        q.timeout_behavior == TimeoutBehavior::Escalate ==> r.argv_spec()[15] == "escalate"@,
        r.argv_spec()[16] == "1000"@,
        r.keys_spec().len() == 17,
        r.keys_spec()[0] == t.ctx.core_key_spec(),
        r.keys_spec()[1] == t.ctx.attempt_hash_spec(t.attempt_index),
        r.keys_spec()[2] == t.ctx.lease_current_spec(),
        r.keys_spec()[3] == t.ctx.lease_history_spec(),
        r.keys_spec()[4] == t.idx.lease_expiry_spec(),
        r.keys_spec()[5] == t.idx.worker_leases_spec(t.worker_instance_id@),
        r.keys_spec()[6] == t.ctx.suspension_current_spec(),
        r.keys_spec()[7] == t.ctx.waitpoint_spec(r.argv_spec()[6]),
        r.keys_spec()[8] == t.ctx.waitpoint_signals_spec(r.argv_spec()[6]),
        r.keys_spec()[9] == t.idx.suspension_timeout_spec(),
        r.keys_spec()[10] == t.idx.pending_waitpoint_expiry_spec(),
        r.keys_spec()[11] == t.idx.lane_active_spec(t.lane_id@),
        r.keys_spec()[12] == t.idx.lane_suspended_spec(t.lane_id@),
        r.keys_spec()[13] == t.ctx.waitpoints_spec(),
        r.keys_spec()[14] == t.ctx.waitpoint_condition_spec(r.argv_spec()[6]),
        r.keys_spec()[15] == t.idx.attempt_timeout_spec(),
        r.keys_spec()[16] == t.idx.waitpoint_hmac_secrets_spec(),
{
    reveal_strlit("");
}

/// What a suspension waits for is told in full: the names of the signals, whether one or
/// all of them must come, and what happens in the end, in the one word that also stands
/// among the arguments.
pub proof fn law_suspend_condition(t: &Suspender<'_>, q: &SuspendRequest<'_>, r: Call)
    requires
        call_ensures(suspend, (t, q), r),
    ensures
        ({
            let n = q.condition_matchers@.len();
            let names = Seq::new(n, |i: int| q.condition_matchers@[i].signal_name@);
            let rest = json::array_text(names) + ",\"signal_match_mode\":\""@ + (if n > 1 {
                "all"@
            } else {
                "any"@
            }) + "\",\"timeout_behavior\":\""@ + r.argv_spec()[15] + "\"}"@;
            r.argv_spec()[11]
                == "{\"allow_operator_override\":true,\"condition_type\":\"signal_set\",\"minimum_signal_count\":1,\"required_signal_names\":"@
                + rest
        }),
{
    let n = q.condition_matchers@.len();
    let names = Seq::new(n, |i: int| q.condition_matchers@[i].signal_name@);
    assert(names =~= names_of(q.condition_matchers@));
    let mode = if n > 1 {
        "all"@
    } else {
        "any"@
    };
    let head =
        "{\"allow_operator_override\":true,\"condition_type\":\"signal_set\",\"minimum_signal_count\":1,\"required_signal_names\":"@;
    assert(r.argv_spec()[11] =~= head + (json::array_text(names) + ",\"signal_match_mode\":\""@
        + mode + "\",\"timeout_behavior\":\""@ + r.argv_spec()[15] + "\"}"@));
}

/// Suspensions that send the same arguments make the same suspension and the same
/// waitpoint of the same attempt under the same lease.
pub proof fn law_suspensions_are_told_apart(
    t: &Suspender<'_>,
    q: &SuspendRequest<'_>,
    u: &Suspender<'_>,
    p: &SuspendRequest<'_>,
    r: Call,
    s: Call,
)
    requires
        call_ensures(suspend, (t, q), r),
        call_ensures(suspend, (u, p), s),
        r.argv_spec() == s.argv_spec(),
    ensures
        t.execution_id@ == u.execution_id@,
        t.attempt_index == u.attempt_index,
        t.attempt_id@ == u.attempt_id@,
        t.lease_id@ == u.lease_id@,
        t.lease_epoch == u.lease_epoch,
        q.suspension_id@ == p.suspension_id@,
        q.waitpoint_id@ == p.waitpoint_id@,
        q.reason_code@ == p.reason_code@,
        q.timeout_behavior == p.timeout_behavior,
{
    law_suspend_call(t, q, r);
    law_suspend_call(u, p, s);
    numbers::law_u32_round_trip(t.attempt_index.0);
    numbers::law_u32_round_trip(u.attempt_index.0);
    numbers::law_u64_round_trip(t.lease_epoch.0);
    numbers::law_u64_round_trip(u.lease_epoch.0);
    law_behavior_round_trip(q.timeout_behavior);
    law_behavior_round_trip(p.timeout_behavior);
}

} // verus!
