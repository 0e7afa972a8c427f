//! A claimed task: its lease, and what its operations do to it.

use vstd::prelude::*;
use vstd::string::*;

use crate::assoc;
use crate::engine_error::{ContentionKind, EngineError, StateKind};
use crate::error;
use crate::field_map::FieldMap;
use crate::ids;
use crate::ids::{AttemptId, AttemptIndex, ExecutionId, LeaseEpoch, LeaseId, SuspensionId, WaitpointId};
use crate::names::{LaneId, WorkerInstanceId};
use crate::numbers;
use crate::partition::PartitionConfig;
use crate::reply;
use crate::reply::SuspendOutcome;
use crate::sdk_error;
use crate::sdk_error::{BackendError, SdkError, SdkErrorView};
use crate::text;
use crate::value::Value;

verus! {

// ── Renewal ──

/// Whether the lease is lost for good on this error of a renewal.
pub open spec fn lease_lost(e: EngineError) -> bool {
    match e {
        EngineError::State(k) => k == StateKind::StaleLease || k == StateKind::LeaseExpired || k
            == StateKind::LeaseRevoked,
        EngineError::Contention(k) => k is ExecutionNotActive,
        EngineError::NotFound { entity } => entity@ == "execution"@,
        _ => false,
    }
}

/// Whether renewal ends on this error.
pub fn is_terminal_renewal_error(err: &EngineError) -> (r: bool)
    ensures
        r == lease_lost(*err),
{
    match err {
        EngineError::State(k) => match k {
            StateKind::StaleLease => true,
            StateKind::LeaseExpired => true,
            StateKind::LeaseRevoked => true,
            _ => false,
        },
        EngineError::Contention(k) => match k {
            ContentionKind::ExecutionNotActive { .. } => true,
            _ => false,
        },
        EngineError::NotFound { entity } => text::same(entity, "execution"),
        _ => false,
    }
}

/// The interval of renewal: a third of the lease's life, and at least a
/// millisecond.
pub fn renewal_interval(lease_ttl_ms: u64) -> (r: u64)
    ensures
        r == if lease_ttl_ms / 3 >= 1 {
            lease_ttl_ms / 3
        } else {
            1
        },
        r >= 1,
{
    let third: u64 = lease_ttl_ms / 3;
    if third >= 1 {
        third
    } else {
        1
    }
}

/// What the renewal loop does after an attempt.
#[derive(Clone, Copy, Debug, PartialEq, Eq, Structural)]
pub enum RenewalStep {
    /// Try again after the interval.
    Continue,
    /// The lease is lost.
    Stop,
}

/// Renewals that failed in a row. The count wraps round.
#[derive(Clone, Copy, Debug, PartialEq, Eq, Structural)]
pub struct RenewalFailures(pub u32);

/// The count after a renewal.
pub open spec fn failures_after(failures: u32, ok: bool) -> u32 {
    if ok {
        0
    } else {
        vstd::wrapping::u32_specs::wrapping_add(failures, 1)
    }
}

impl RenewalFailures {
    /// Take the outcome of a renewal.
    pub fn record(&mut self, outcome: &Result<(), EngineError>) -> (r: RenewalStep)
        ensures
            final(self).0 == failures_after(old(self).0, outcome is Ok),
            r == match *outcome {
                Ok(_) => RenewalStep::Continue,
                Err(e) => if lease_lost(e) {
                    RenewalStep::Stop
                } else {
                    RenewalStep::Continue
                },
            },
    {
        match outcome {
            Ok(_) => {
                self.0 = 0;
                RenewalStep::Continue
            },
            Err(e) => {
                self.0 = self.0.wrapping_add(1);
                if is_terminal_renewal_error(e) {
                    RenewalStep::Stop
                } else {
                    RenewalStep::Continue
                }
            },
        }
    }

    /// Whether the lease is likely still valid: fewer than three renewals failed
    /// in a row.
    pub fn is_lease_healthy(&self) -> (r: bool)
        ensures
            r == (self.0 < 3),
    {
        self.0 < 3
    }
}

/// The count after some renewals.
pub open spec fn failures_of(outcomes: Seq<bool>) -> u32
    decreases outcomes.len(),
{
    if outcomes.len() == 0 {
        0
    } else {
        failures_after(failures_of(outcomes.drop_last()), outcomes.last())
    }
}

/// Right after `n` failures in a row that follow a success, or the claim, the
/// count is `n`. The lease therefore counts as healthy exactly while fewer than
/// three renewals have failed since the last success.
pub proof fn law_failures_are_consecutive(before: Seq<bool>, n: nat)
    requires
        n <= u32::MAX,
        before.len() == 0 || before.last(),
    ensures
        failures_of(before + Seq::new(n, |i: int| false)) == n,
    decreases n,
{
    let all = before + Seq::new(n, |i: int| false);
    if n == 0 {
        assert(all =~= before);
    } else {
        law_failures_are_consecutive(before, (n - 1) as nat);
        assert(all.drop_last() =~= before + Seq::new((n - 1) as nat, |i: int| false));
    }
}

// ── Landing ──

/// Whether an operation reached the engine: every answer counts but a transport
/// fault.
pub open spec fn landed<T>(r: Result<T, EngineError>) -> bool {
    match r {
        Ok(_) => true,
        Err(e) => !(e is Transport),
    }
}

/// Whether an operation reached the engine.
pub fn fcall_landed<T>(r: &Result<T, EngineError>) -> (b: bool)
    ensures
        b == landed(*r),
{
    match r {
        Ok(_) => true,
        Err(e) => match e {
            EngineError::Transport { .. } => false,
            _ => true,
        },
    }
}

// ── Failure classes ──

/// How a failure counts.
#[derive(Clone, Copy, Debug, PartialEq, Eq, Structural)]
pub enum FailureClass {
    Transient,
    Permanent,
    InfraCrash,
    Timeout,
    Cancelled,
}

/// The class of a category. An unknown category is transient.
pub open spec fn class_of(s: Seq<char>) -> FailureClass {
    if s == "permanent"@ {
        FailureClass::Permanent
    } else if s == "infra_crash"@ {
        FailureClass::InfraCrash
    } else if s == "timeout"@ {
        FailureClass::Timeout
    } else if s == "cancelled"@ {
        FailureClass::Cancelled
    } else {
        FailureClass::Transient
    }
}

/// The class of a category.
pub fn error_category_to_class(s: &str) -> (r: FailureClass)
    ensures
        r == class_of(s@),
{
    if text::same(s, "permanent") {
        FailureClass::Permanent
    } else if text::same(s, "infra_crash") {
        FailureClass::InfraCrash
    } else if text::same(s, "timeout") {
        FailureClass::Timeout
    } else if text::same(s, "cancelled") {
        FailureClass::Cancelled
    } else {
        FailureClass::Transient
    }
}

/// A failure to report.
#[derive(Debug)]
pub struct Failure {
    pub message: String,
    /// The category, in bytes.
    pub detail: Vec<u8>,
    pub class: FailureClass,
}

/// The failure that a task reports for a reason and a category.
pub fn failure(reason: &str, error_category: &str) -> (r: Failure)
    ensures
        r.message@ == reason@,
        r.detail@ == error_category.spec_bytes(),
        r.class == class_of(error_category@),
{
    Failure {
        message: reason.to_owned(),
        detail: error_category.as_bytes_vec(),
        class: error_category_to_class(error_category),
    }
}

// ── Usage ──

/// Dimensions of a usage report.
#[derive(Debug)]
pub struct UsageDimensions {
    pub custom: Vec<(String, u64)>,
    pub dedup_key: Option<String>,
}

/// Names and deltas of a list of borrowed names.
pub open spec fn named_refs(v: Seq<(&str, u64)>) -> Seq<(Seq<char>, u64)> {
    v.map_values(|p: (&str, u64)| (p.0@, p.1))
}

/// The key of a report, unless it is empty.
pub open spec fn nonempty_text(o: Option<&str>) -> Option<Seq<char>> {
    match o {
        Some(k) => if k@.len() == 0 {
            None
        } else {
            Some(k@)
        },
        None => None,
    }
}

/// The usage that a task reports: of each name the last delta.
pub fn usage_dimensions(dimensions: &Vec<(&str, u64)>, dedup_key: Option<&str>) -> (r:
    UsageDimensions)
    ensures
        assoc::distinct(assoc::named(r.custom@)),
        assoc::map_of(assoc::named(r.custom@)) == assoc::map_of(named_refs(dimensions@)),
        text::opt_text(r.dedup_key) == nonempty_text(dedup_key),
{
    let mut custom: Vec<(String, u64)> = Vec::new();
    let n: usize = dimensions.len();
    let mut i: usize = 0;
    assert(assoc::named(custom@) =~= Seq::empty());
    assert(named_refs(dimensions@.take(0)) =~= Seq::empty());
    while i < n
        invariant
            n == dimensions@.len(),
            i <= n,
            assoc::distinct(assoc::named(custom@)),
            assoc::map_of(assoc::named(custom@)) == assoc::map_of(named_refs(dimensions@.take(i as int))),
        decreases n - i,
    {
        proof {
            let next = named_refs(dimensions@.take(i as int + 1));
            assert(next.drop_last() =~= named_refs(dimensions@.take(i as int)));
            assert(next.last() == (dimensions@[i as int].0@, dimensions@[i as int].1));
        }
        let pair = dimensions[i];
        assoc::set(&mut custom, pair.0, pair.1);
        i = i + 1;
    }
    assert(dimensions@.take(n as int) =~= dimensions@);
    let dedup_key = match dedup_key {
        Some(k) => if k.is_empty() {
            None
        } else {
            Some(k.to_owned())
        },
        None => None,
    };
    UsageDimensions { custom, dedup_key }
}

// ── Resumption ──

/// What a key is mapped to, or the empty text.
pub open spec fn entry(m: Map<Seq<char>, Seq<char>>, key: Seq<char>) -> Seq<char> {
    if m.contains_key(key) {
        m[key]
    } else {
        ""@
    }
}

/// The attempt that a suspension record is of: the number in it, if it has one.
pub open spec fn record_attempt(m: Map<Seq<char>, Seq<char>>) -> u32 {
    match numbers::parse_u32_spec(entry(m, "attempt_index"@)) {
        Ok(n) => n,
        Err(_) => u32::MAX,
    }
}

/// The waitpoint whose signal resumed an attempt, read from the suspension record:
/// none unless the record is of this attempt and was closed by a resumption.
pub open spec fn resumed_by(fields: FieldMap, attempt: AttemptIndex) -> Result<
    Option<Seq<char>>,
    SdkErrorView,
> {
    let m = fields@;
    if fields.pairs().len() == 0 || record_attempt(m) != attempt.0 || entry(m, "close_reason"@)
        != "resumed"@ || entry(m, "waitpoint_id"@).len() == 0 {
        Ok(None)
    } else {
        match ids::waitpoint_id_of(entry(m, "waitpoint_id"@)) {
            Ok(id) => Ok(Some(id)),
            Err(e) => Err(
                sdk_error::of_script(
                    error::parse_error(
                        "resume_waitpoint_id_from_suspension"@,
                        "resume_signals: suspension_current.waitpoint_id is not a valid UUID: "@ + e,
                    ),
                ),
            ),
        }
    }
}

fn entry_text(fields: &FieldMap, key: &str) -> (r: String)
    ensures
        r@ == entry(fields@, key@),
{
    match fields.get(key) {
        Some(v) => v.as_str().to_owned(),
        None => "".to_owned(),
    }
}

/// The waitpoint whose signal resumed an attempt.
pub fn resume_waitpoint_id_from_suspension(susp: &FieldMap, claimed_attempt: AttemptIndex) -> (r:
    Result<Option<WaitpointId>, SdkError>)
    ensures
        match r {
            Ok(Some(id)) => resumed_by(*susp, claimed_attempt) == Ok::<
                Option<Seq<char>>,
                SdkErrorView,
            >(Some(id@)),
            Ok(None) => resumed_by(*susp, claimed_attempt) == Ok::<
                Option<Seq<char>>,
                SdkErrorView,
            >(None),
            Err(e) => resumed_by(*susp, claimed_attempt) == Err::<Option<Seq<char>>, SdkErrorView>(
                e@,
            ),
        },
{
    if susp.len() == 0 {
        return Ok(None);
    }
    let attempt: u32 = match numbers::parse_u32(entry_text(susp, "attempt_index").as_str()) {
        Ok(n) => n,
        Err(_) => u32::MAX,
    };
    if attempt != claimed_attempt.0 {
        return Ok(None);
    }
    if !text::same(entry_text(susp, "close_reason").as_str(), "resumed") {
        return Ok(None);
    }
    let id = entry_text(susp, "waitpoint_id");
    if id.as_str().is_empty() {
        return Ok(None);
    }
    match WaitpointId::parse(id.as_str()) {
        Ok(id) => Ok(Some(id)),
        Err(e) => Err(
            SdkError::from(
                error::unreadable(
                    "resume_waitpoint_id_from_suspension",
                    error::prefixed(
                        "resume_signals: suspension_current.waitpoint_id is not a valid UUID: ",
                        e.as_str(),
                    ),
                ),
            ),
        ),
    }
}

// ── The handle ──

/// The handle by which a backend knows an attempt and its lease: what
/// `ff_core::handle_codec::encode` makes of them under the Valkey tag.
pub uninterp spec fn handle_bytes(
    execution_id: Seq<char>,
    attempt_index: u32,
    attempt_id: Seq<char>,
    lease_id: Seq<char>,
    lease_epoch: u64,
    lease_ttl_ms: u64,
    lane_id: Seq<char>,
    worker_instance_id: Seq<char>,
) -> Seq<u8>;

/// `ff_core::handle_codec::encode` of the attempt and its lease, under the Valkey
/// tag: the bytes named `handle_bytes`. How they lie in them is left unsaid.
#[verifier::external_body]
fn encode_handle(
    execution_id: &str,
    attempt_index: u32,
    attempt_id: &str,
    lease_id: &str,
    lease_epoch: u64,
    lease_ttl_ms: u64,
    lane_id: &str,
    worker_instance_id: &str,
) -> (r: Vec<u8>)
    requires
        ids::execution_id_of(execution_id@) is Ok,
        ids::attempt_id_of(attempt_id@) is Ok,
        ids::lease_id_of(lease_id@) is Ok,
    ensures
        r@ == handle_bytes(
            execution_id@,
            attempt_index,
            attempt_id@,
            lease_id@,
            lease_epoch,
            lease_ttl_ms,
            lane_id@,
            worker_instance_id@,
        ),
{
    let payload = ff_core::handle_codec::HandlePayload::new(
        ff_core::types::ExecutionId::parse(execution_id).unwrap(),
        ff_core::types::AttemptIndex::new(attempt_index),
        ff_core::types::AttemptId::parse(attempt_id).unwrap(),
        ff_core::types::LeaseId::parse(lease_id).unwrap(),
        ff_core::types::LeaseEpoch(lease_epoch),
        lease_ttl_ms,
        ff_core::types::LaneId::new(lane_id),
        ff_core::types::WorkerInstanceId::new(worker_instance_id),
    );
    ff_core::handle_codec::encode(ff_core::backend::BackendTag::Valkey, &payload).as_bytes().to_vec()
}

// ── The task ──

/// A task that a worker has claimed.
pub struct ClaimedTask {
    pub partition_config: PartitionConfig,
    pub execution_id: ExecutionId,
    pub attempt_index: AttemptIndex,
    pub attempt_id: AttemptId,
    pub lease_id: LeaseId,
    pub lease_epoch: LeaseEpoch,
    pub lease_ttl_ms: u64,
    pub lane_id: LaneId,
    pub worker_instance_id: WorkerInstanceId,
    pub input_payload: Vec<u8>,
    pub execution_kind: String,
    pub tags: FieldMap,
    /// Renewals that failed in a row.
    pub renewal_failures: RenewalFailures,
    /// Whether an operation ended the task, so that renewal stops.
    pub terminal_op_called: bool,
}

impl ClaimedTask {
    /// The execution.
    pub fn execution_id(&self) -> (r: &ExecutionId)
        ensures
            *r == self.execution_id,
    {
        &self.execution_id
    }

    /// The number of the attempt.
    pub fn attempt_index(&self) -> (r: AttemptIndex)
        ensures
            r == self.attempt_index,
    {
        self.attempt_index
    }

    /// The attempt.
    pub fn attempt_id(&self) -> (r: &AttemptId)
        ensures
            *r == self.attempt_id,
    {
        &self.attempt_id
    }

    /// The lease.
    pub fn lease_id(&self) -> (r: &LeaseId)
        ensures
            *r == self.lease_id,
    {
        &self.lease_id
    }

    /// The lease's epoch.
    pub fn lease_epoch(&self) -> (r: LeaseEpoch)
        ensures
            r == self.lease_epoch,
    {
        self.lease_epoch
    }

    /// What the task works on.
    pub fn input_payload(&self) -> (r: &[u8])
        ensures
            r@ == self.input_payload@,
    {
        self.input_payload.as_slice()
    }

    /// The kind of the execution, which chooses its handler.
    pub fn execution_kind(&self) -> (r: &str)
        ensures
            r@ == self.execution_kind@,
    {
        self.execution_kind.as_str()
    }

    /// The tags of the execution.
    pub fn tags(&self) -> (r: &FieldMap)
        ensures
            *r == self.tags,
    {
        &self.tags
    }

    /// The lane that the task was claimed on.
    pub fn lane_id(&self) -> (r: &LaneId)
        ensures
            *r == self.lane_id,
    {
        &self.lane_id
    }

    /// Whether the lease is likely still valid: fewer than three renewals failed
    /// in a row. To be asked before an effect that cannot be undone.
    pub fn is_lease_healthy(&self) -> (r: bool)
        ensures
            r == (self.renewal_failures.0 < 3),
    {
        self.renewal_failures.is_lease_healthy()
    }

    /// Renewals that failed since the last that succeeded.
    pub fn consecutive_renewal_failures(&self) -> (r: u32)
        ensures
            r == self.renewal_failures.0,
    {
        self.renewal_failures.0
    }

    /// The handle by which the backend knows the attempt and its lease.
    pub fn synth_handle(&self) -> (r: Vec<u8>)
        ensures
            r@ == handle_bytes(
                self.execution_id@,
                self.attempt_index.0,
                self.attempt_id@,
                self.lease_id@,
                self.lease_epoch.0,
                self.lease_ttl_ms,
                self.lane_id@,
                self.worker_instance_id@,
            ),
    {
        encode_handle(
            self.execution_id.as_str(),
            self.attempt_index.0,
            self.attempt_id.as_str(),
            self.lease_id.as_str(),
            self.lease_epoch.0,
            self.lease_ttl_ms,
            self.lane_id.as_str(),
            self.worker_instance_id.as_str(),
        )
    }

    /// Take the outcome of an operation that ends the task: completion, failure,
    /// cancellation, delay, or waiting for children. Renewal stops unless the
    /// operation did not reach the engine, so that a retry still has its lease.
    pub fn settle<T>(&mut self, out: Result<T, EngineError>) -> (r: Result<T, SdkError>)
        ensures
            *final(self) == (ClaimedTask {
                terminal_op_called: old(self).terminal_op_called || landed(out),
                ..*old(self)
            }),
            match out {
                Ok(v) => r == Ok::<T, SdkError>(v),
                Err(e) => r matches Err(x) && x@ == sdk_error::of_engine(e@),
            },
    {
        if fcall_landed(&out) {
            self.terminal_op_called = true;
        }
        sdk_error::lift(out)
    }

    /// Take the reply to a suspension. Renewal stops once a reply has come,
    /// whatever it says.
    pub fn suspended(
        &mut self,
        reply: Result<Value, BackendError>,
        suspension_id: SuspensionId,
        waitpoint_id: WaitpointId,
        waitpoint_key: String,
    ) -> (r: Result<SuspendOutcome, SdkError>)
        ensures
            *final(self) == (ClaimedTask {
                terminal_op_called: old(self).terminal_op_called || reply is Ok,
                ..*old(self)
            }),
            match reply {
                Err(e) => r matches Err(x) && x@ == SdkErrorView::Backend(e@),
                Ok(raw) => match r {
                    Ok(x) => reply::suspend_reply(
                        raw,
                        suspension_id@,
                        waitpoint_id@,
                        waitpoint_key@,
                    ) == Ok::<SuspendOutcome<Seq<char>, Seq<char>, Seq<char>>, SdkErrorView>(x@),
                    Err(e) => reply::suspend_reply(
                        raw,
                        suspension_id@,
                        waitpoint_id@,
                        waitpoint_key@,
                    ) == Err::<SuspendOutcome<Seq<char>, Seq<char>, Seq<char>>, SdkErrorView>(e@),
                },
            },
    {
        match reply {
            Err(e) => Err(SdkError::from(e)),
            Ok(raw) => {
                self.terminal_op_called = true;
                reply::parse_suspend_result(&raw, suspension_id, waitpoint_id, waitpoint_key)
            },
        }
    }

    /// Whether a task that is dropped now leaves its lease to expire.
    pub fn leaks_lease(&self) -> (r: bool)
        ensures
            r == !self.terminal_op_called,
    {
        !self.terminal_op_called
    }
}

} // verus!
