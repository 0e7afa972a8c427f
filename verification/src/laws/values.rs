//! Values: what is put in is what is found, and what a value says of itself.

use vstd::prelude::*;
use vstd::string::*;

use crate::admin::normalize_base_url;
use crate::config::WorkerConfig;
use crate::cursor::{validate_stream_read_count, validate_tail_cursor, StreamCursor};
use crate::error::ScriptError;
use crate::field_map::FieldMap;
use crate::functions::execution::{state_word, PublicState};
use crate::functions::suspension::parse_resumed_state;
use crate::ids::{
    AttemptId, AttemptIndex, BudgetId, EdgeId, ExecutionId, FlowId, LeaseEpoch, LeaseId,
    QuotaPolicyId, SignalId, SuspensionId, WaitpointId,
};
use crate::keys;
use crate::keys::{ExecKeyContext, FlowIndexKeys, FlowKeyContext, IndexKeys, QuotaKeyContext};
use crate::layer::circuit_breaker::{CircuitBreakerConfig, CircuitBreakerLayer};
use crate::names::{LaneId, WorkerId, WorkerInstanceId};
use crate::partition::{Partition, PartitionConfig};
use crate::preamble::{Advertising, PreambleOutput};
use crate::runtime::{
    Data, FromTask, HandlerOutcome, PayloadBytes, RuntimeCtx, RuntimeError, TaskInfo, WorkerRuntime,
};
use crate::runtime::registry::StateMap;
use crate::sdk_error::SdkError;
use crate::signal_bridge::SignalBridgeError;
use crate::stream::StreamFrames;
use crate::suspend::TimeoutBehavior;
use crate::task::ClaimedTask;
use crate::text;
use crate::worker::{check_lanes, FlowFabricWorker};

verus! {

// ── Keys ──

/// The keys of an execution, a flow or a quota carry its name, and the hash tag of the
/// partition that they were made for.
pub proof fn law_keys_are_of_their_place(
    p: &Partition,
    eid: &ExecutionId,
    fid: &FlowId,
    qid: &QuotaPolicyId,
    e: ExecKeyContext,
    f: FlowKeyContext,
    q: QuotaKeyContext,
    i: IndexKeys,
    j: FlowIndexKeys,
    tag: String,
)
    requires
        call_ensures(ExecKeyContext::new, (p, eid), e),
        call_ensures(FlowKeyContext::new, (p, fid), f),
        call_ensures(QuotaKeyContext::new, (p, qid), q),
        call_ensures(IndexKeys::new, (p,), i),
        call_ensures(FlowIndexKeys::new, (p,), j),
        call_ensures(Partition::hash_tag, (p,), tag),
    ensures
        e.eid_spec() == eid@,
        f.fid_spec() == fid@,
        q.qid_spec() == qid@,
        e.tag_spec() == tag@,
        f.tag_spec() == tag@,
        q.tag_spec() == tag@,
        i.tag_spec() == tag@,
        j.tag_spec() == tag@,
{
}

/// What keys say of their place is what is in them.
pub proof fn law_keys_tell_their_place<'a>(
    e: &'a ExecKeyContext,
    f: &'a FlowKeyContext,
    q: &'a QuotaKeyContext,
    i: &'a IndexKeys,
    j: &'a FlowIndexKeys,
    a: &'a str,
    b: &'a str,
    c: &'a str,
    d: &'a str,
    g: &'a str,
    name: &'a str,
)
    requires
        call_ensures(ExecKeyContext::hash_tag, (e,), a),
        call_ensures(FlowKeyContext::hash_tag, (f,), b),
        call_ensures(QuotaKeyContext::hash_tag, (q,), c),
        call_ensures(IndexKeys::hash_tag, (i,), d),
        call_ensures(FlowIndexKeys::hash_tag, (j,), g),
        call_ensures(FlowKeyContext::flow_id, (f,), name),
    ensures
        a@ == e.tag_spec(),
        b@ == f.tag_spec(),
        c@ == q.tag_spec(),
        d@ == i.tag_spec(),
        g@ == j.tag_spec(),
        name@ == f.fid_spec(),
{
}

/// The keys that no partition holds.
pub proof fn law_shared_keys(w: &WorkerInstanceId, a: String, b: String, c: String)
    requires
        call_ensures(keys::global_config_partitions, (), a),
        call_ensures(keys::workers_index_key, (), b),
        call_ensures(keys::worker_caps_key, (w,), c),
    ensures
        a@ == "ff:config:partitions"@,
        b@ == "ff:idx:workers"@,
        c@.len() == w@.len() + 15,
        c@.take(10) == "ff:worker:"@,
        c@.subrange(10, 10 + w@.len() as int) == w@,
        c@.skip(10 + w@.len() as int) == ":caps"@,
{
    reveal_strlit("ff:worker:");
    reveal_strlit(":caps");
    assert("ff:worker:"@.len() == 10 && ":caps"@.len() == 5);
    assert(c@.take(10) =~= "ff:worker:"@);
    assert(c@.subrange(10, 10 + w@.len() as int) =~= w@);
    assert(c@.skip(10 + w@.len() as int) =~= ":caps"@);
}

// ── Names ──

/// A copy of a name, and the text of it, are the name.
pub proof fn law_execution_id_is_kept<'a>(id: &'a ExecutionId, r: ExecutionId, s: &'a str)
    requires
        call_ensures(ExecutionId::copy, (id,), r),
        call_ensures(ExecutionId::as_str, (id,), s),
    ensures
        r@ == id@,
        s@ == id@,
{
}

/// A copy of a name, and the text of it, are the name.
pub proof fn law_flow_id_is_kept<'a>(id: &'a FlowId, r: FlowId, s: &'a str)
    requires
        call_ensures(FlowId::copy, (id,), r),
        call_ensures(FlowId::as_str, (id,), s),
    ensures
        r@ == id@,
        s@ == id@,
{
}

/// A copy of a name, and the text of it, are the name.
pub proof fn law_budget_id_is_kept<'a>(id: &'a BudgetId, r: BudgetId, s: &'a str)
    requires
        call_ensures(BudgetId::copy, (id,), r),
        call_ensures(BudgetId::as_str, (id,), s),
    ensures
        r@ == id@,
        s@ == id@,
{
}

/// A copy of a name, and the text of it, are the name.
pub proof fn law_quota_policy_id_is_kept<'a>(id: &'a QuotaPolicyId, r: QuotaPolicyId, s: &'a str)
    requires
        call_ensures(QuotaPolicyId::copy, (id,), r),
        call_ensures(QuotaPolicyId::as_str, (id,), s),
    ensures
        r@ == id@,
        s@ == id@,
{
}

/// A copy of a name, and the text of it, are the name.
pub proof fn law_lease_id_is_kept<'a>(id: &'a LeaseId, r: LeaseId, s: &'a str)
    requires
        call_ensures(LeaseId::copy, (id,), r),
        call_ensures(LeaseId::as_str, (id,), s),
    ensures
        r@ == id@,
        s@ == id@,
{
}

/// A copy of a name, and the text of it, are the name.
pub proof fn law_attempt_id_is_kept<'a>(id: &'a AttemptId, r: AttemptId, s: &'a str)
    requires
        call_ensures(AttemptId::copy, (id,), r),
        call_ensures(AttemptId::as_str, (id,), s),
    ensures
        r@ == id@,
        s@ == id@,
{
}

/// A copy of a name, and the text of it, are the name.
pub proof fn law_signal_id_is_kept<'a>(id: &'a SignalId, r: SignalId, s: &'a str)
    requires
        call_ensures(SignalId::copy, (id,), r),
        call_ensures(SignalId::as_str, (id,), s),
    ensures
        r@ == id@,
        s@ == id@,
{
}

/// A copy of a name, and the text of it, are the name.
pub proof fn law_waitpoint_id_is_kept<'a>(id: &'a WaitpointId, r: WaitpointId, s: &'a str)
    requires
        call_ensures(WaitpointId::copy, (id,), r),
        call_ensures(WaitpointId::as_str, (id,), s),
    ensures
        r@ == id@,
        s@ == id@,
{
}

/// A copy of a name, and the text of it, are the name.
pub proof fn law_suspension_id_is_kept<'a>(id: &'a SuspensionId, r: SuspensionId, s: &'a str)
    requires
        call_ensures(SuspensionId::copy, (id,), r),
        call_ensures(SuspensionId::as_str, (id,), s),
    ensures
        r@ == id@,
        s@ == id@,
{
}

/// A copy of a name, and the text of it, are the name.
pub proof fn law_edge_id_is_kept<'a>(id: &'a EdgeId, r: EdgeId, s: &'a str)
    requires
        call_ensures(EdgeId::copy, (id,), r),
        call_ensures(EdgeId::as_str, (id,), s),
    ensures
        r@ == id@,
        s@ == id@,
{
}

/// A name is the text that it was made of, and so is a copy of it.
pub proof fn law_lane_id_is_kept<'a>(t: &str, id: LaneId, r: LaneId, s: &'a str)
    requires
        call_ensures(LaneId::new, (t,), id),
        call_ensures(LaneId::copy, (&id,), r),
        call_ensures(LaneId::as_str, (&id,), s),
    ensures
        r@ == t@,
        s@ == t@,
{
}

/// A name is the text that it was made of, and so is a copy of it.
pub proof fn law_worker_id_is_kept<'a>(t: &str, id: WorkerId, r: WorkerId, s: &'a str)
    requires
        call_ensures(WorkerId::new, (t,), id),
        call_ensures(WorkerId::copy, (&id,), r),
        call_ensures(WorkerId::as_str, (&id,), s),
    ensures
        r@ == t@,
        s@ == t@,
{
}

/// A name is the text that it was made of, and so is a copy of it.
pub proof fn law_worker_instance_id_is_kept<'a>(t: &str, id: WorkerInstanceId, r: WorkerInstanceId, s: &'a str)
    requires
        call_ensures(WorkerInstanceId::new, (t,), id),
        call_ensures(WorkerInstanceId::copy, (&id,), r),
        call_ensures(WorkerInstanceId::as_str, (&id,), s),
    ensures
        r@ == t@,
        s@ == t@,
{
}

// ── Places in a stream ──

/// The two ends of a stream and the entries have markers of their own. Only from an entry a
/// stream can be followed.
pub proof fn law_places(c: &StreamCursor, w: &str, at: bool, r: Result<(), SdkError>)
    requires
        call_ensures(StreamCursor::to_wire, (c,), w),
        call_ensures(StreamCursor::is_concrete, (c,), at),
        call_ensures(validate_tail_cursor, (c,), r),
    ensures
        *c is Start ==> w@ == "-"@,
        *c is End ==> w@ == "+"@,
        *c matches StreamCursor::At(s) ==> w@ == s@,
        at <==> *c is At,
        r is Ok <==> at,
        r matches Err(x) ==> x is Config,
{
}

/// A read is of one entry to ten thousand.
pub proof fn law_read_counts(n: u64, r: Result<(), SdkError>)
    requires
        call_ensures(validate_stream_read_count, (n,), r),
    ensures
        r is Ok <==> 1 <= n <= 10_000,
        r matches Err(x) ==> x is Config,
{
}

/// A stream is closed once it has a time of closing.
pub proof fn law_closed_has_a_time(f: &StreamFrames, r: bool)
    requires
        call_ensures(StreamFrames::is_closed, (f,), r),
    ensures
        r ==> f.closed_at is Some,
        !r ==> f.closed_at is None,
{
}

// ── Running ──

/// A loop runs as many tasks at a time as it is told to, but never none; until it is told, 64.
/// What it is told does not touch its handlers.
pub proof fn law_tasks_at_a_time<H>(
    a: WorkerRuntime<H>,
    n: usize,
    b: WorkerRuntime<H>,
    fresh: WorkerRuntime<H>,
    r: usize,
    s: usize,
)
    requires
        call_ensures(WorkerRuntime::<H>::max_concurrent, (a, n), b),
        call_ensures(WorkerRuntime::<H>::limit, (&b,), r),
        call_ensures(WorkerRuntime::<H>::new, (), fresh),
        call_ensures(WorkerRuntime::<H>::limit, (&fresh,), s),
    ensures
        n > 0 ==> r == n,
        n == 0 ==> r == 1,
        s == 64,
        b.handlers_spec() == a.handlers_spec(),
{
}

/// A handler that asks for the payload, or for what the task is, gets that of the task.
pub proof fn law_handlers_see_the_task<'t, V>(
    task: &'t ClaimedTask,
    state: &'t StateMap<V>,
    ctx: RuntimeCtx<'t, V>,
    p: Result<PayloadBytes, RuntimeError>,
    i: Result<TaskInfo, RuntimeError>,
)
    requires
        call_ensures(RuntimeCtx::<'t, V>::new, (task, state), ctx),
        call_ensures(<PayloadBytes as FromTask<V>>::from_task, (&ctx,), p),
        call_ensures(<TaskInfo as FromTask<V>>::from_task, (&ctx,), i),
    ensures
        p matches Ok(x) && x.0@ == task.input_payload@,
        i matches Ok(x) && x.execution_id@ == task.execution_id@ && x.attempt_index
            == task.attempt_index && x.execution_kind@ == task.execution_kind@ && x.lane_id@
            == task.lane_id@ && x.tags@ == task.tags@,
{
}

/// A handler gets the state that is there; where there is none it is told which is missing.
pub proof fn law_state_is_handed_out<T>(
    found: Option<T>,
    name: &'static str,
    r: Result<Data<T>, RuntimeError>,
)
    requires
        call_ensures(Data::<T>::from_state, (found, name), r),
    ensures
        found matches Some(v) ==> (r matches Ok(d) && d.0 == v),
        found is None ==> (r matches Err(RuntimeError::MissingState { state_type }) && state_type
            == name),
{
}

/// A failure and a panic are told apart by the category, and keep their words.
pub proof fn law_failures_are_told(
    chain: &Vec<String>,
    words: String,
    a: HandlerOutcome,
    b: HandlerOutcome,
)
    requires
        call_ensures(HandlerOutcome::handler_error, (chain,), a),
        call_ensures(HandlerOutcome::panic, (words,), b),
    ensures
        a matches HandlerOutcome::Fail { reason, category } && category@ == "handler_error"@ && (
        chain@.len() == 1 ==> reason@ == chain@[0]@),
        b matches HandlerOutcome::Fail { reason, category } && category@ == "handler_panic"@
            && reason@.len() == 18 + words@.len() && reason@.skip(18) == words@,
{
    reveal_strlit("handler panicked: ");
    assert("handler panicked: "@.len() == 18);
    assert(("handler panicked: "@ + words@).skip(18) =~= words@);
    if chain@.len() == 1 {
        let t = text::texts(chain@);
        assert(t.len() == 1 && t[0] == chain@[0]@);
        assert(t.drop_last() =~= Seq::<Seq<char>>::empty());
    }
}

/// What a task says of itself is what it was claimed with.
pub proof fn law_task_tells<'a>(
    t: &'a ClaimedTask,
    eid: &'a ExecutionId,
    index: AttemptIndex,
    aid: &'a AttemptId,
    lid: &'a LeaseId,
    epoch: LeaseEpoch,
    payload: &'a [u8],
    kind: &'a str,
    tags: &'a FieldMap,
    lane: &'a LaneId,
    failures: u32,
    healthy: bool,
)
    requires
        call_ensures(ClaimedTask::execution_id, (t,), eid),
        call_ensures(ClaimedTask::attempt_index, (t,), index),
        call_ensures(ClaimedTask::attempt_id, (t,), aid),
        call_ensures(ClaimedTask::lease_id, (t,), lid),
        call_ensures(ClaimedTask::lease_epoch, (t,), epoch),
        call_ensures(ClaimedTask::input_payload, (t,), payload),
        call_ensures(ClaimedTask::execution_kind, (t,), kind),
        call_ensures(ClaimedTask::tags, (t,), tags),
        call_ensures(ClaimedTask::lane_id, (t,), lane),
        call_ensures(ClaimedTask::consecutive_renewal_failures, (t,), failures),
        call_ensures(ClaimedTask::is_lease_healthy, (t,), healthy),
    ensures
        eid@ == t.execution_id@,
        index == t.attempt_index,
        aid@ == t.attempt_id@,
        lid@ == t.lease_id@,
        epoch == t.lease_epoch,
        payload@ == t.input_payload@,
        kind@ == t.execution_kind@,
        tags@ == t.tags@,
        lane@ == t.lane_id@,
        failures == t.renewal_failures.0,
        healthy <==> failures < 3,
{
}

// ── Settings ──

/// What holds where nothing was said.
pub proof fn law_default_settings(
    p: PartitionConfig,
    c: CircuitBreakerConfig,
    l: CircuitBreakerLayer,
)
    requires
        call_ensures(<PartitionConfig as Default>::default, (), p),
        call_ensures(<CircuitBreakerConfig as Default>::default, (), c),
        call_ensures(<CircuitBreakerLayer as Default>::default, (), l),
    ensures
        p.num_flow_partitions == 256,
        p.num_budget_partitions == 32,
        p.num_quota_partitions == 32,
        c.failure_threshold == 5,
        c.cool_down == 30_000_000_000,
        l.config == c,
{
}

/// Without a lane no worker starts, and for want of nothing else is it refused.
pub proof fn law_worker_has_a_lane(c: &WorkerConfig, r: Result<(), SdkError>)
    requires
        call_ensures(check_lanes, (c,), r),
    ensures
        r is Err <==> c.lanes@.len() == 0,
        r matches Err(x) ==> x is Config,
{
}

/// What a worker says of itself is what it was connected with.
pub proof fn law_worker_tells<'a>(
    config: WorkerConfig,
    w: FlowFabricWorker,
    c: &'a WorkerConfig,
    p: &'a PartitionConfig,
)
    requires
        call_ensures(FlowFabricWorker::connect_with, (config,), Ok::<FlowFabricWorker, SdkError>(w)),
        call_ensures(FlowFabricWorker::config, (&w,), c),
        call_ensures(FlowFabricWorker::partition_config, (&w,), p),
    ensures
        *c == config,
        config.partition_config matches Some(q) ==> *p == q,
{
}

/// A worker starts with the capabilities that it advertised.
pub proof fn law_start_is_as_advertised(a: Advertising, words: Vec<String>, r: PreambleOutput)
    requires
        call_ensures(Advertising::capabilities_command, (&a,), words),
        call_ensures(Advertising::finish, (a,), r),
    ensures
        r.capabilities_csv@.len() > 0 ==> words@.len() == 3 && words@[2]@ == r.capabilities_csv@,
        r.capabilities_csv@.len() == 0 ==> words@.len() == 2,
        r.partition_config == a.partitions_spec(),
        r.capabilities_hash@ == a.hash_spec(),
{
    let t = text::texts(words@);
    assert(t.len() == words@.len());
    if r.capabilities_csv@.len() > 0 {
        assert(t[2] == words@[2]@);
    }
}

// ── Words and texts ──

/// What happens at a timeout is read back from its word.
pub proof fn law_behaviors_are_read(
    b: &TimeoutBehavior,
    w: &'static str,
    s: &str,
    r: Result<TimeoutBehavior, String>,
)
    requires
        call_ensures(TimeoutBehavior::as_str, (b,), w),
        call_ensures(TimeoutBehavior::from_str, (s,), r),
    ensures
        s@ == w@ ==> r == Ok::<TimeoutBehavior, String>(*b),
        s@ == "auto_resume"@ ==> r == Ok::<TimeoutBehavior, String>(TimeoutBehavior::AutoResume),
        *b is Fail ==> w@ == "fail"@,
        *b is Cancel ==> w@ == "cancel"@,
        *b is Expire ==> w@ == "expire"@,
        *b is AutoResume ==> w@ == "auto_resume_with_timeout_signal"@,
        *b is Escalate ==> w@ == "escalate"@,
        (r matches Ok(x) && x == *b && s@ != w@) ==> s@ == "auto_resume"@,
{
    crate::suspend::law_behavior_round_trip(*b);
    reveal_strlit("fail");
    reveal_strlit("cancel");
    reveal_strlit("expire");
    reveal_strlit("auto_resume_with_timeout_signal");
    reveal_strlit("auto_resume");
    reveal_strlit("escalate");
    assert("fail"@.len() == 4 && "cancel"@.len() == 6 && "expire"@.len() == 6);
    assert("escalate"@.len() == 8 && "auto_resume"@.len() == 11);
    assert("auto_resume_with_timeout_signal"@.len() == 31);
}

/// A resume answers with the word of any state but that of an execution that can be resumed.
pub proof fn law_resumed_states_are_read(
    s: &str,
    p: PublicState,
    r: Result<PublicState, ScriptError>,
)
    requires
        call_ensures(parse_resumed_state, (s,), r),
    ensures
        (s@ == state_word(p)@ && !(p is Resumable)) ==> (r matches Ok(q) && q == p),
        s@ == "resumable"@ ==> r is Err,
        r matches Err(x) ==> x is Parse,
{
    crate::functions::execution::law_state_round_trip(p);
    crate::functions::execution::law_state_round_trip(PublicState::Resumable);
}

/// Only slashes are taken off an address, all of them, and at its end.
pub proof fn law_slashes_are_taken_off(url: String, r: String)
    requires
        call_ensures(normalize_base_url, (url,), r),
    ensures
        r@.len() <= url@.len(),
        r@ == url@.take(r@.len() as int),
        forall|i: int| r@.len() <= i < url@.len() ==> #[trigger] url@[i] == '/',
        r@.len() > 0 ==> r@.last() != '/',
{
    crate::admin::law_normalized_has_no_slash(url@);
    lemma_slashes(url@);
}

proof fn lemma_slashes(s: Seq<char>)
    ensures
        crate::admin::without_slashes(s).len() <= s.len(),
        crate::admin::without_slashes(s) == s.take(crate::admin::without_slashes(s).len() as int),
        forall|i: int|
            crate::admin::without_slashes(s).len() <= i < s.len() ==> #[trigger] s[i] == '/',
    decreases s.len(),
{
    let w = crate::admin::without_slashes(s);
    if s.len() > 0 && s.last() == '/' {
        let t = s.drop_last();
        lemma_slashes(t);
        assert(w =~= s.take(w.len() as int));
        assert forall|i: int| w.len() <= i < s.len() implies #[trigger] s[i] == '/' by {
            if i < t.len() {
                assert(t[i] == '/');
            }
        }
    } else {
        assert(w =~= s.take(w.len() as int));
    }
}

/// Texts are ordered by the first character at which they differ, and a text comes before
/// its continuations.
pub proof fn law_order_of_texts(a: &str, b: &str, k: int, r: bool)
    requires
        call_ensures(text::precedes, (a, b), r),
        0 <= k <= a@.len(),
        k <= b@.len(),
        a@.take(k) == b@.take(k),
    ensures
        (k < a@.len() && k < b@.len() && a@[k] < b@[k]) ==> r,
        (k < a@.len() && k < b@.len() && b@[k] < a@[k]) ==> !r,
        (k == a@.len() && k < b@.len()) ==> r,
        k == b@.len() ==> !r,
{
    lemma_order(a@, b@, k);
}

proof fn lemma_order(a: Seq<char>, b: Seq<char>, k: int)
    requires
        0 <= k <= a.len(),
        k <= b.len(),
        a.take(k) == b.take(k),
    ensures
        (k < a.len() && k < b.len() && a[k] < b[k]) ==> text::precedes_spec(a, b),
        (k < a.len() && k < b.len() && b[k] < a[k]) ==> !text::precedes_spec(a, b),
        (k == a.len() && k < b.len()) ==> text::precedes_spec(a, b),
        k == b.len() ==> !text::precedes_spec(a, b),
    decreases k,
{
    if k > 0 {
        assert(a.take(k)[0] == a[0] && b.take(k)[0] == b[0]);
        assert(a.skip(1).take(k - 1) =~= a.take(k).skip(1));
        assert(b.skip(1).take(k - 1) =~= b.take(k).skip(1));
        lemma_order(a.skip(1), b.skip(1), k - 1);
    }
}

/// A text is blank where nothing of it is left once it is trimmed.
pub proof fn law_blank_texts(s: &str, c: char, i: int, r: bool, space: bool)
    requires
        call_ensures(text::is_blank, (s,), r),
        call_ensures(text::is_space, (c,), space),
        0 <= i < s@.len(),
        s@[i] == c,
    ensures
        !space ==> !r,
        (r || (space && s@.len() == 1)) ==> space,
        (space && s@.len() == 1) ==> r,
        c == ' ' ==> space,
        '!' <= c <= '~' ==> !space,
{
}

/// A copy of texts holds the same texts in the same order.
pub proof fn law_texts_are_copied(v: &Vec<String>, i: int, r: Vec<String>)
    requires
        call_ensures(text::copies, (v,), r),
    ensures
        r@.len() == v@.len(),
        0 <= i < v@.len() ==> r@[i]@ == v@[i]@,
{
    assert(text::texts(r@).len() == text::texts(v@).len());
    if 0 <= i < v@.len() {
        assert(text::texts(r@)[i] == text::texts(v@)[i]);
    }
}

/// The fault behind an error is the one that it was made of.
pub proof fn law_source_is_the_fault<'a>(e: &'a SignalBridgeError, r: Option<&'a SdkError>)
    requires
        call_ensures(SignalBridgeError::<SdkError>::source, (e,), r),
    ensures
        *e matches SignalBridgeError::Backend(x) ==> r == Some(&x),
        !(*e is Backend) ==> r is None,
{
}

} // verus!
