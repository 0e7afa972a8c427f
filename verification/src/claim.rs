//! How a worker polls for work: which partitions a poll covers, and what follows
//! from each reply of the backend.

use vstd::prelude::*;

use crate::engine_error;
use crate::engine_error::{ContentionKind, EngineError, ValidationKind};
use crate::error::ErrorClass;
use crate::ids::ExecutionId;
use crate::partition::{Partition, PartitionFamily};
use crate::sdk_error;
use crate::sdk_error::{SdkError, SdkErrorView};

verus! {

/// Number of partitions that a poll covers, where there are as many.
pub const PARTITION_SCAN_CHUNK: usize = 32;

// ── The window of a poll ──

/// Number of partitions that a poll covers among `n`.
pub open spec fn chunk_of(n: int) -> int {
    if n < PARTITION_SCAN_CHUNK {
        n
    } else {
        PARTITION_SCAN_CHUNK as int
    }
}

/// The partitions of one poll: `chunk` of them from `start` on, round the end. The
/// poll is at the one with number `step`.
#[derive(Clone, Copy, Debug, PartialEq, Eq, Structural)]
pub struct Window {
    pub num_partitions: u16,
    pub start: usize,
    pub step: usize,
}

impl Window {
    /// The poll is at one of its partitions.
    pub open spec fn wf(self) -> bool {
        self.start < self.num_partitions && self.step < chunk_of(self.num_partitions as int)
    }

    /// Index of the partition that the poll is at.
    pub open spec fn index_spec(self) -> int {
        (self.start + self.step) % self.num_partitions as int
    }

    /// The partition that the poll is at.
    pub fn partition(&self) -> (r: Partition)
        requires
            self.wf(),
        ensures
            r.family == PartitionFamily::Execution,
            r.index == self.index_spec(),
            r.index < self.num_partitions,
    {
        let at: u32 = self.start as u32 + self.step as u32;
        let index: u32 = at % (self.num_partitions as u32);
        Partition { family: PartitionFamily::Execution, index: index as u16 }
    }

    /// Whether this is the last partition of the poll.
    pub open spec fn last_spec(self) -> bool {
        self.step + 1 == chunk_of(self.num_partitions as int)
    }
}

/// The window of a poll at a cursor, if there are partitions.
pub open spec fn window_at(cursor: usize, num_partitions: u16) -> Option<Window> {
    if num_partitions == 0 {
        None
    } else {
        Some(
            Window {
                num_partitions,
                start: (cursor as int % num_partitions as int) as usize,
                step: 0,
            },
        )
    }
}

/// The cursor after a poll. It wraps round.
pub open spec fn cursor_after(cursor: usize, num_partitions: u16) -> usize {
    vstd::wrapping::usize_specs::wrapping_add(cursor, chunk_of(num_partitions as int) as usize)
}

/// The window of a poll at a cursor.
pub fn window(cursor: usize, num_partitions: u16) -> (r: Option<Window>)
    ensures
        r == window_at(cursor, num_partitions),
        r matches Some(w) ==> w.wf(),
{
    if num_partitions == 0 {
        return None;
    }
    Some(Window { num_partitions, start: cursor % (num_partitions as usize), step: 0 })
}

// ── Laws of the windows ──

/// The partition at a step of the poll with number `poll`, when the first poll is
/// at `cursor`.
pub open spec fn scanned(cursor: int, n: int, poll: int, step: int) -> int {
    (cursor + poll * chunk_of(n) + step) % n
}

/// The partitions of a poll are those that `scanned` gives, as long as the cursor
/// has not wrapped round.
pub proof fn law_window_scans(cursor: usize, n: u16, poll: nat, step: usize)
    requires
        n > 0,
        step < chunk_of(n as int),
        cursor + poll * chunk_of(n as int) <= usize::MAX,
    ensures
        ({
            let at = (cursor + poll * chunk_of(n as int)) as usize;
            let w = window_at(at, n).unwrap();
            (Window { step, ..w }).wf() && (Window { step, ..w }).index_spec() == scanned(
                cursor as int,
                n as int,
                poll as int,
                step as int,
            )
        }),
{
    let at = cursor + poll * chunk_of(n as int);
    assert((at % (n as int) + step) % (n as int) == (at + step) % (n as int)) by {
        vstd::arithmetic::div_mod::lemma_add_mod_noop_right(step as int, at as int, n as int);
    }
    assert(at % (n as int) < n) by {
        vstd::arithmetic::div_mod::lemma_mod_bound(at as int, n as int);
    }
}

/// A poll leaves the cursor one chunk further on, as long as it does not wrap.
pub proof fn law_cursor_advances(cursor: usize, n: u16)
    requires
        cursor + chunk_of(n as int) <= usize::MAX,
    ensures
        cursor_after(cursor, n) == cursor + chunk_of(n as int),
{
}

/// Every partition is covered once as many polls have passed as chunks fit round
/// the partitions.
pub proof fn law_polls_cover_every_partition(cursor: nat, n: u16, polls: nat, partition: u16)
    requires
        partition < n,
        polls * chunk_of(n as int) >= n,
    ensures
        exists|poll: int, step: int|
            0 <= poll < polls && 0 <= step < chunk_of(n as int) && #[trigger] scanned(
                cursor as int,
                n as int,
                poll,
                step,
            ) == partition,
{
    let size = n as int;
    let chunk = chunk_of(size);
    let c = cursor as int % size;
    let ahead = if partition >= c {
        partition - c
    } else {
        partition - c + size
    };
    let poll = ahead / chunk;
    let step = ahead % chunk;
    assert(0 <= ahead < size);
    assert(ahead == poll * chunk + step && 0 <= step < chunk && 0 <= poll) by (nonlinear_arith)
        requires
            poll == ahead / chunk,
            step == ahead % chunk,
            chunk > 0,
            ahead >= 0,
    ;
    assert(poll < polls) by (nonlinear_arith)
        requires
            poll * chunk <= ahead,
            ahead < size,
            size <= polls * chunk,
            chunk > 0,
    ;
    assert((cursor + ahead) % size == partition) by {
        vstd::arithmetic::div_mod::lemma_add_mod_noop_right(ahead, cursor as int, size);
        assert((ahead + c) % size == partition) by {
            if partition < c {
                vstd::arithmetic::div_mod::lemma_mod_add_multiples_vanish(partition as int, size);
            }
            vstd::arithmetic::div_mod::lemma_small_mod(partition as nat, size as nat);
        }
    }
    assert(scanned(cursor as int, size, poll, step) == partition);
}

/// No partition is covered twice before all are covered. Where the chunk divides
/// the number of partitions, each is therefore covered exactly once in a round.
pub proof fn law_round_repeats_nothing(
    cursor: nat,
    n: u16,
    poll1: nat,
    step1: nat,
    poll2: nat,
    step2: nat,
)
    requires
        n > 0,
        step1 < chunk_of(n as int),
        step2 < chunk_of(n as int),
        poll1 * chunk_of(n as int) + step1 < n,
        poll2 * chunk_of(n as int) + step2 < n,
        scanned(cursor as int, n as int, poll1 as int, step1 as int) == scanned(
            cursor as int,
            n as int,
            poll2 as int,
            step2 as int,
        ),
    ensures
        poll1 == poll2,
        step1 == step2,
{
    let size = n as int;
    let chunk = chunk_of(size);
    let a = poll1 * chunk + step1;
    let b = poll2 * chunk + step2;
    let c = cursor as int;
    assert(a == b) by {
        vstd::arithmetic::div_mod::lemma_fundamental_div_mod(c + a, size);
        vstd::arithmetic::div_mod::lemma_fundamental_div_mod(c + b, size);
        let qa = (c + a) / size;
        let qb = (c + b) / size;
        assert(a - b == size * (qa - qb)) by (nonlinear_arith)
            requires
                c + a == size * qa + (c + a) % size,
                c + b == size * qb + (c + b) % size,
                (c + a) % size == (c + b) % size,
        ;
        assert(qa == qb) by (nonlinear_arith)
            requires
                a - b == size * (qa - qb),
                -size < a - b < size,
                size > 0,
        ;
    }
    assert(poll1 == poll2 && step1 == step2) by (nonlinear_arith)
        requires
            poll1 * chunk + step1 == poll2 * chunk + step2,
            0 <= step1 < chunk,
            0 <= step2 < chunk,
    ;
}

// ── The steps of a poll ──

/// What a poll does next.
#[derive(Debug)]
pub enum ClaimStep<I = ExecutionId, E = SdkError> {
    /// Ask for an eligible execution in the window's partition.
    Scan { window: Window },
    /// Ask for a claim grant.
    Grant { window: Window, execution_id: I },
    /// Take the execution off the eligible ones until a capable worker registers.
    Block { window: Window, execution_id: I },
    /// Claim the execution.
    Claim { window: Window, execution_id: I },
    /// Claim the execution as a resumed one.
    Resume { window: Window, execution_id: I },
    /// Hand the claimed task over. The poll is over.
    Claimed,
    /// Nothing was found in the window. The poll is over.
    Idle,
    /// The poll is over.
    Failed(E),
}

impl View for ClaimStep {
    type V = ClaimStep<Seq<char>, SdkErrorView>;

    open spec fn view(&self) -> ClaimStep<Seq<char>, SdkErrorView> {
        match *self {
            ClaimStep::Scan { window } => ClaimStep::Scan { window },
            ClaimStep::Grant { window, execution_id } => ClaimStep::Grant {
                window,
                execution_id: execution_id@,
            },
            ClaimStep::Block { window, execution_id } => ClaimStep::Block {
                window,
                execution_id: execution_id@,
            },
            ClaimStep::Claim { window, execution_id } => ClaimStep::Claim {
                window,
                execution_id: execution_id@,
            },
            ClaimStep::Resume { window, execution_id } => ClaimStep::Resume {
                window,
                execution_id: execution_id@,
            },
            ClaimStep::Claimed => ClaimStep::Claimed,
            ClaimStep::Idle => ClaimStep::Idle,
            ClaimStep::Failed(e) => ClaimStep::Failed(e@),
        }
    }
}

/// The model of a [`ClaimStep`].
pub type StepView = ClaimStep<Seq<char>, SdkErrorView>;

/// The window of a step, while the poll goes on.
pub open spec fn window_of(s: StepView) -> Option<Window> {
    match s {
        ClaimStep::Scan { window } => Some(window),
        ClaimStep::Grant { window, .. } => Some(window),
        ClaimStep::Block { window, .. } => Some(window),
        ClaimStep::Claim { window, .. } => Some(window),
        ClaimStep::Resume { window, .. } => Some(window),
        _ => None,
    }
}

/// Whether a step is at one of the partitions of its poll, while the poll goes on.
pub open spec fn in_window(s: StepView) -> bool {
    match window_of(s) {
        Some(w) => w.wf(),
        None => true,
    }
}

/// Whether a poll passes over an execution on this error: the error may pass, or
/// calls for nothing.
pub open spec fn passes_over(err: EngineError) -> bool {
    err.class_spec() == ErrorClass::Retryable || err.class_spec() == ErrorClass::Informational
}

/// Whether a poll passes over an execution on this error.
pub fn is_retryable_claim_error(err: &EngineError) -> (r: bool)
    ensures
        r == passes_over(*err),
{
    match engine_error::class(err) {
        ErrorClass::Retryable => true,
        ErrorClass::Informational => true,
        _ => false,
    }
}

/// The next partition of the poll, or its end.
pub open spec fn moved_on(w: Window) -> StepView {
    if w.last_spec() {
        ClaimStep::Idle
    } else {
        ClaimStep::Scan { window: Window { step: (w.step + 1) as usize, ..w } }
    }
}

/// Go on to the next partition of the poll.
pub fn move_on(w: Window) -> (r: ClaimStep)
    requires
        w.wf(),
    ensures
        r@ == moved_on(w),
        in_window(r@),
{
    let n: usize = w.num_partitions as usize;
    let chunk: usize = if n < PARTITION_SCAN_CHUNK {
        n
    } else {
        PARTITION_SCAN_CHUNK
    };
    if w.step + 1 == chunk {
        ClaimStep::Idle
    } else {
        ClaimStep::Scan {
            window: Window { num_partitions: w.num_partitions, start: w.start, step: w.step + 1 },
        }
    }
}

/// What follows a scan.
pub open spec fn scan_next(w: Window, reply: Result<Vec<ExecutionId>, EngineError>) -> StepView {
    match reply {
        Err(e) => ClaimStep::Failed(sdk_error::of_engine(e@)),
        Ok(found) => if found@.len() == 0 {
            moved_on(w)
        } else {
            ClaimStep::Grant { window: w, execution_id: found@[0]@ }
        },
    }
}

/// Take the reply to a scan: the first execution found is asked for.
pub fn after_scan(w: Window, reply: Result<Vec<ExecutionId>, EngineError>) -> (r: ClaimStep)
    requires
        w.wf(),
    ensures
        r@ == scan_next(w, reply),
        in_window(r@),
{
    match reply {
        Err(e) => ClaimStep::Failed(SdkError::from(e)),
        Ok(found) => if found.len() == 0 {
            move_on(w)
        } else {
            ClaimStep::Grant { window: w, execution_id: found[0].copy() }
        },
    }
}

/// Whether an error says that the worker lacks a capability.
pub open spec fn lacks_capability(e: EngineError) -> bool {
    match e {
        EngineError::Validation { kind, .. } => kind == ValidationKind::CapabilityMismatch,
        _ => false,
    }
}

/// What follows a request for a grant.
pub open spec fn grant_next(w: Window, id: Seq<char>, reply: Result<(), EngineError>) -> StepView {
    match reply {
        Ok(_) => ClaimStep::Claim { window: w, execution_id: id },
        Err(e) => if lacks_capability(e) {
            ClaimStep::Block { window: w, execution_id: id }
        } else if passes_over(e) {
            moved_on(w)
        } else {
            ClaimStep::Failed(sdk_error::of_engine(e@))
        },
    }
}

/// Take the reply to a request for a grant. An execution that the worker is not
/// capable of is blocked, lest every poll meet it first.
pub fn after_grant(w: Window, execution_id: ExecutionId, reply: Result<(), EngineError>) -> (r:
    ClaimStep)
    requires
        w.wf(),
    ensures
        r@ == grant_next(w, execution_id@, reply),
        in_window(r@),
{
    match reply {
        Ok(_) => ClaimStep::Claim { window: w, execution_id },
        Err(e) => {
            let incapable = match &e {
                EngineError::Validation { kind, .. } => match kind {
                    ValidationKind::CapabilityMismatch => true,
                    _ => false,
                },
                _ => false,
            };
            if incapable {
                ClaimStep::Block { window: w, execution_id }
            } else if is_retryable_claim_error(&e) {
                move_on(w)
            } else {
                ClaimStep::Failed(SdkError::from(e))
            }
        },
    }
}

/// Go on after a request to block an execution, whatever came of it.
pub fn after_block(w: Window) -> (r: ClaimStep)
    requires
        w.wf(),
    ensures
        r@ == moved_on(w),
        in_window(r@),
{
    move_on(w)
}

/// Whether an error says that the execution is a resumed one, to be claimed as
/// such.
pub open spec fn is_resumed(e: SdkError) -> bool {
    match e {
        SdkError::Engine(b) => match *b {
            EngineError::Contention(k) => k is UseClaimResumedExecution,
            _ => false,
        },
        _ => false,
    }
}

/// Whether an error says that the execution is a resumed one.
pub fn claim_as_resumed(e: &SdkError) -> (r: bool)
    ensures
        r == is_resumed(*e),
{
    match e {
        SdkError::Engine(b) => match &**b {
            EngineError::Contention(k) => match k {
                ContentionKind::UseClaimResumedExecution => true,
                _ => false,
            },
            _ => false,
        },
        _ => false,
    }
}

/// Whether a poll goes on after this error of a claim.
pub open spec fn claim_passes_over(e: SdkError) -> bool {
    match e {
        SdkError::Engine(b) => passes_over(*b),
        _ => false,
    }
}

fn goes_on(e: &SdkError) -> (r: bool)
    ensures
        r == claim_passes_over(*e),
{
    match e {
        SdkError::Engine(b) => is_retryable_claim_error(b),
        _ => false,
    }
}

/// What follows a claim.
pub open spec fn claimed_next(w: Window, id: Seq<char>, reply: Result<(), SdkError>) -> StepView {
    match reply {
        Ok(_) => ClaimStep::Claimed,
        Err(e) => if is_resumed(e) {
            ClaimStep::Resume { window: w, execution_id: id }
        } else if claim_passes_over(e) {
            moved_on(w)
        } else {
            ClaimStep::Failed(e@)
        },
    }
}

/// Take the outcome of a claim.
pub fn after_claim(w: Window, execution_id: ExecutionId, reply: Result<(), SdkError>) -> (r:
    ClaimStep)
    requires
        w.wf(),
    ensures
        r@ == claimed_next(w, execution_id@, reply),
        in_window(r@),
{
    match reply {
        Ok(_) => ClaimStep::Claimed,
        Err(e) => if claim_as_resumed(&e) {
            ClaimStep::Resume { window: w, execution_id }
        } else if goes_on(&e) {
            move_on(w)
        } else {
            ClaimStep::Failed(e)
        },
    }
}

/// What follows a claim of a resumed execution.
pub open spec fn resume_next(w: Window, reply: Result<(), SdkError>) -> StepView {
    match reply {
        Ok(_) => ClaimStep::Claimed,
        Err(e) => if claim_passes_over(e) {
            moved_on(w)
        } else {
            ClaimStep::Failed(e@)
        },
    }
}

/// Take the outcome of a claim of a resumed execution.
pub fn after_resume(w: Window, reply: Result<(), SdkError>) -> (r: ClaimStep)
    requires
        w.wf(),
    ensures
        r@ == resume_next(w, reply),
        in_window(r@),
{
    match reply {
        Ok(_) => ClaimStep::Claimed,
        Err(e) => if goes_on(&e) {
            move_on(w)
        } else {
            ClaimStep::Failed(e)
        },
    }
}

// ── Laws of the steps ──

/// How much of a poll is left: it falls with every step.
pub open spec fn remaining(s: StepView) -> int {
    let left = |w: Window| 5 * (chunk_of(w.num_partitions as int) - w.step);
    match s {
        ClaimStep::Scan { window } => left(window),
        ClaimStep::Grant { window, .. } => left(window) - 1,
        ClaimStep::Claim { window, .. } => left(window) - 2,
        ClaimStep::Block { window, .. } => left(window) - 3,
        ClaimStep::Resume { window, .. } => left(window) - 3,
        _ => 0,
    }
}

/// Whether a step may follow another in a poll, on some reply.
pub open spec fn follows(s: StepView, t: StepView) -> bool {
    match s {
        ClaimStep::Scan { window } => exists|reply: Result<Vec<ExecutionId>, EngineError>|
            t == #[trigger] scan_next(window, reply),
        ClaimStep::Grant { window, execution_id } => exists|reply: Result<(), EngineError>|
            t == #[trigger] grant_next(window, execution_id, reply),
        ClaimStep::Block { window, .. } => t == moved_on(window),
        ClaimStep::Claim { window, execution_id } => exists|reply: Result<(), SdkError>|
            t == #[trigger] claimed_next(window, execution_id, reply),
        ClaimStep::Resume { window, .. } => exists|reply: Result<(), SdkError>|
            t == #[trigger] resume_next(window, reply),
        _ => false,
    }
}

/// Whatever the backend replies, a poll stays in its window and comes closer to
/// its end with every step: it makes at most one scan per partition of the window.
pub proof fn law_poll_ends(s: StepView, t: StepView)
    requires
        follows(s, t),
        window_of(s) matches Some(w) && w.wf(),
    ensures
        0 <= remaining(t) < remaining(s),
        window_of(t) matches Some(v) ==> v.wf() && v.start == window_of(s).unwrap().start
            && v.num_partitions == window_of(s).unwrap().num_partitions
            && window_of(s).unwrap().step <= v.step,
{
}

/// A poll that finds nothing ends only past the last partition of its window.
pub proof fn law_idle_means_window_done(s: StepView)
    requires
        follows(s, StepView::Idle),
    ensures
        window_of(s) matches Some(w) && w.last_spec(),
{
}

/// Whether a step goes on to the partition after the one that a window is at, or ends the
/// poll where that was the last of those that it covers.
pub open spec fn goes_to_next(w: Window, s: StepView) -> bool {
    if w.step + 1 < w.num_partitions && w.step + 1 < 32 {
        s matches ClaimStep::Scan { window } && window.num_partitions == w.num_partitions
            && window.start == w.start && window.step == w.step + 1
    } else {
        s is Idle
    }
}

/// Whether an error of the engine ends no poll: its class says that it may pass, or that
/// it calls for nothing.
pub open spec fn harmless(e: EngineError) -> bool {
    e.class_spec() is Retryable || e.class_spec() is Informational
}

/// A scan that finds nothing goes on to the next partition; one that finds executions
/// asks for the first; one that fails ends the poll with its error.
pub proof fn law_scan_decides(
    w: Window,
    reply: Result<Vec<ExecutionId>, EngineError>,
    r: ClaimStep,
)
    requires
        w.wf(),
        call_ensures(after_scan, (w, reply), r),
    ensures
        (reply matches Ok(found) && found@.len() == 0) ==> goes_to_next(w, r@),
        (reply matches Ok(found) && found@.len() > 0) ==> (r matches ClaimStep::Grant {
            window,
            execution_id,
        } && window == w && execution_id@ == reply->Ok_0@[0]@),
        reply matches Err(e) ==> r@ == StepView::Failed(SdkErrorView::Engine(Box::new(e@))),
{
}

/// A grant leads to a claim of the same execution. An execution that the worker is not
/// capable of is blocked; any other error that may pass, or calls for nothing, leads where
/// an empty scan does; every other one ends the poll.
pub proof fn law_grant_decides(
    w: Window,
    id: ExecutionId,
    reply: Result<(), EngineError>,
    r: ClaimStep,
)
    requires
        w.wf(),
        call_ensures(after_grant, (w, id, reply), r),
    ensures
        reply is Ok ==> (r matches ClaimStep::Claim { window, execution_id } && window == w
            && execution_id@ == id@),
        reply matches Err(e) ==> {
            let incapable = e matches EngineError::Validation { kind, .. }
                && kind is CapabilityMismatch;
            &&& incapable ==> (r matches ClaimStep::Block { window, execution_id } && window == w
                && execution_id@ == id@)
            &&& !incapable && harmless(e) ==> goes_to_next(w, r@)
            &&& !incapable && !harmless(e) ==> r@ == StepView::Failed(
                SdkErrorView::Engine(Box::new(e@)),
            )
        },
{
}

/// After a claim the poll is over where it succeeded. A resumed execution is claimed as
/// such. On any other error of the engine that may pass, or calls for nothing, the poll
/// passes the execution over: it goes where an empty scan of the same window goes. Only
/// other errors of the engine, and errors that are not the engine's, end it.
pub proof fn law_claim_decides(
    w: Window,
    id: ExecutionId,
    reply: Result<(), SdkError>,
    r: ClaimStep,
    none: Vec<ExecutionId>,
    s: ClaimStep,
)
    requires
        w.wf(),
        call_ensures(after_claim, (w, id, reply), r),
        none@.len() == 0,
        call_ensures(after_scan, (w, Ok::<Vec<ExecutionId>, EngineError>(none)), s),
    ensures
        reply is Ok ==> r is Claimed,
        (reply matches Err(SdkError::Engine(b)) && (*b matches EngineError::Contention(k)
            && k is UseClaimResumedExecution)) ==> (r matches ClaimStep::Resume {
            window,
            execution_id,
        } && window == w && execution_id@ == id@),
        (reply matches Err(SdkError::Engine(b)) && harmless(*b) && !(
        *b matches EngineError::Contention(k) && k is UseClaimResumedExecution)) ==> (r@ == s@
            && goes_to_next(w, r@)),
        (reply matches Err(SdkError::Engine(b)) && !harmless(*b) && !(
        *b matches EngineError::Contention(k) && k is UseClaimResumedExecution)) ==> r@
            == StepView::Failed(reply->Err_0@),
        (reply matches Err(e) && !(e is Engine)) ==> r@ == StepView::Failed(reply->Err_0@),
{
}

/// A claim of a resumed execution passes over as a claim does, and is not tried again.
pub proof fn law_resume_decides(
    w: Window,
    reply: Result<(), SdkError>,
    r: ClaimStep,
    none: Vec<ExecutionId>,
    s: ClaimStep,
)
    requires
        w.wf(),
        call_ensures(after_resume, (w, reply), r),
        none@.len() == 0,
        call_ensures(after_scan, (w, Ok::<Vec<ExecutionId>, EngineError>(none)), s),
    ensures
        reply is Ok ==> r is Claimed,
        (reply matches Err(SdkError::Engine(b)) && harmless(*b)) ==> (r@ == s@ && goes_to_next(
            w,
            r@,
        )),
        (reply matches Err(SdkError::Engine(b)) && !harmless(*b)) ==> r@ == StepView::Failed(
            reply->Err_0@,
        ),
        (reply matches Err(e) && !(e is Engine)) ==> r@ == StepView::Failed(reply->Err_0@),
{
}

/// An execution that was blocked is left behind: the poll goes where an empty scan goes.
pub proof fn law_block_goes_on(w: Window, r: ClaimStep)
    requires
        w.wf(),
        call_ensures(after_block, (w,), r),
    ensures
        goes_to_next(w, r@),
{
}

/// Contention never ends a poll, whatever its kind and wherever it comes.
pub proof fn law_contention_is_harmless(k: ContentionKind)
    ensures
        harmless(EngineError::Contention(k)),
{
}

/// A poll covers as many partitions as there are, up to its chunk, from the cursor on.
pub proof fn law_window_starts_at_cursor(cursor: usize, n: u16, r: Option<Window>)
    requires
        call_ensures(window, (cursor, n), r),
    ensures
        n == 0 <==> r is None,
        r matches Some(w) ==> w.num_partitions == n && w.step == 0 && w.start < n && exists|q: int|
            #[trigger] (q * n) + w.start == cursor,
{
    if n > 0 {
        vstd::arithmetic::div_mod::lemma_fundamental_div_mod(cursor as int, n as int);
        assert(((cursor as int) / (n as int)) * n + r->0.start == cursor) by (nonlinear_arith)
            requires
                cursor as int == (n as int) * ((cursor as int) / (n as int)) + (cursor as int) % (
                n as int),
                r->0.start == (cursor as int) % (n as int),
        ;
    }
}

// ── A claim under a grant ──

/// What a claim under a scheduler's grant does next.
#[derive(Debug)]
pub enum GrantedStep<E = SdkError> {
    /// Hand the claimed task over.
    Claimed,
    /// Claim the execution as a resumed one.
    Resume,
    /// Give up.
    Failed(E),
}

impl View for GrantedStep {
    type V = GrantedStep<SdkErrorView>;

    open spec fn view(&self) -> GrantedStep<SdkErrorView> {
        match *self {
            GrantedStep::Claimed => GrantedStep::Claimed,
            GrantedStep::Resume => GrantedStep::Resume,
            GrantedStep::Failed(e) => GrantedStep::Failed(e@),
        }
    }
}

/// Take the outcome of a claim under a grant. A resumed execution is claimed as
/// such; every other error is final.
pub fn after_granted_claim(reply: Result<(), SdkError>) -> (r: GrantedStep)
    ensures
        r@ == match reply {
            Ok(_) => GrantedStep::Claimed,
            Err(e) => if is_resumed(e) {
                GrantedStep::Resume
            } else {
                GrantedStep::Failed(e@)
            },
        },
{
    match reply {
        Ok(_) => GrantedStep::Claimed,
        Err(e) => if claim_as_resumed(&e) {
            GrantedStep::Resume
        } else {
            GrantedStep::Failed(e)
        },
    }
}

/// Under a grant a resumed execution is claimed as such, and every other error is the
/// outcome.
pub proof fn law_granted_claim_decides(reply: Result<(), SdkError>, r: GrantedStep)
    requires
        call_ensures(after_granted_claim, (reply,), r),
    ensures
        reply is Ok ==> r is Claimed,
        reply matches Err(e) ==> {
            let resumed = e matches SdkError::Engine(b) && (*b matches EngineError::Contention(k)
                && k is UseClaimResumedExecution);
            &&& resumed ==> r is Resume
            &&& !resumed ==> r@ == GrantedStep::<SdkErrorView>::Failed(e@)
        },
{
}

} // verus!
