//! A loop that claims tasks and hands each to the handler of its kind.

use vstd::prelude::*;
use vstd::string::*;

use crate::assoc;
use crate::field_map::FieldMap;
use crate::ids::{AttemptIndex, ExecutionId};
use crate::names::LaneId;
use crate::sdk_error::{SdkError, SdkErrorView};
use crate::task::ClaimedTask;
use crate::text;

pub mod registry;

use crate::runtime::registry::StateMap;

verus! {

// ── Errors ──

/// A fault of the loop itself. It fails the task.
#[derive(Debug)]
pub enum RuntimeError<S = String> {
    /// A handler asks for state of a type that was never registered.
    MissingState { state_type: &'static str },
    /// The payload is not what the handler asks for. The text says why.
    PayloadDecode(S),
    /// There is no handler for this kind.
    NoHandler { kind: S },
}

impl View for RuntimeError {
    type V = RuntimeError<Seq<char>>;

    open spec fn view(&self) -> RuntimeError<Seq<char>> {
        match *self {
            RuntimeError::MissingState { state_type } => RuntimeError::MissingState { state_type },
            RuntimeError::PayloadDecode(e) => RuntimeError::PayloadDecode(e@),
            RuntimeError::NoHandler { kind } => RuntimeError::NoHandler { kind: kind@ },
        }
    }
}

impl<S> RuntimeError<S> {
    /// The category under which the task fails.
    pub open spec fn category_spec(self) -> &'static str {
        match self {
            RuntimeError::MissingState { .. } => "extractor_missing_state",
            RuntimeError::PayloadDecode(_) => "extractor_payload_decode",
            RuntimeError::NoHandler { .. } => "runtime_no_handler",
        }
    }
}

impl RuntimeError<Seq<char>> {
    /// The words of the error.
    pub open spec fn text_spec(self) -> Seq<char> {
        match self {
            RuntimeError::MissingState { state_type } => "extractor: missing state of type "@
                + state_type@,
            RuntimeError::PayloadDecode(e) => "extractor: payload decode failed: "@ + e,
            RuntimeError::NoHandler { kind } => {
                "runtime: no handler registered for execution_kind "@ + text::debug_text(kind)
            },
        }
    }
}

impl RuntimeError {
    /// The category under which the task fails.
    pub fn error_category(&self) -> (r: &'static str)
        ensures
            r == self.category_spec(),
    {
        match self {
            RuntimeError::MissingState { .. } => "extractor_missing_state",
            RuntimeError::PayloadDecode(_) => "extractor_payload_decode",
            RuntimeError::NoHandler { .. } => "runtime_no_handler",
        }
    }

    /// The words of the error.
    pub fn text(&self) -> (r: String)
        ensures
            r@ == self@.text_spec(),
    {
        match self {
            RuntimeError::MissingState { state_type } => {
                let mut out = "extractor: missing state of type ".to_owned();
                out.append(state_type);
                out
            },
            RuntimeError::PayloadDecode(e) => {
                let mut out = "extractor: payload decode failed: ".to_owned();
                out.append(e.as_str());
                out
            },
            RuntimeError::NoHandler { kind } => {
                let mut out = "runtime: no handler registered for execution_kind ".to_owned();
                out.append(text::debug(kind.as_str()).as_str());
                out
            },
        }
    }
}

// ── Outcomes ──

/// What becomes of a task.
#[derive(Debug)]
pub enum HandlerOutcome<B = Vec<u8>, S = String> {
    Complete(Option<B>),
    Fail { reason: S, category: S },
}

/// The model of a [`HandlerOutcome`].
pub type OutcomeView = HandlerOutcome<Seq<u8>, Seq<char>>;

impl View for HandlerOutcome {
    type V = HandlerOutcome<Seq<u8>, Seq<char>>;

    open spec fn view(&self) -> HandlerOutcome<Seq<u8>, Seq<char>> {
        match *self {
            HandlerOutcome::Complete(None) => HandlerOutcome::Complete(None),
            HandlerOutcome::Complete(Some(b)) => HandlerOutcome::Complete(Some(b@)),
            HandlerOutcome::Fail { reason, category } => HandlerOutcome::Fail {
                reason: reason@,
                category: category@,
            },
        }
    }
}

/// What a handler panicked with.
#[derive(Debug)]
pub enum PanicPayload {
    Text(String),
    /// Something that is no text.
    Opaque,
}

/// The words of a panic.
pub open spec fn panic_text(p: PanicPayload) -> Seq<char> {
    match p {
        PanicPayload::Text(s) => s@,
        PanicPayload::Opaque => "<non-string panic payload>"@,
    }
}

/// The words of a panic.
pub fn panic_message(p: PanicPayload) -> (r: String)
    ensures
        r@ == panic_text(p),
{
    match p {
        PanicPayload::Text(s) => s,
        PanicPayload::Opaque => "<non-string panic payload>".to_owned(),
    }
}

/// How a handler came to its end.
#[derive(Debug)]
pub enum HandlerEnd {
    /// It returned, with a payload or without.
    Returned(Option<Vec<u8>>),
    /// It returned an error: its words, then those of its source, and so on.
    Failed(Vec<String>),
    Panicked(PanicPayload),
}

/// What becomes of a task, from how its handler came to its end.
pub open spec fn outcome_of(end: HandlerEnd) -> OutcomeView {
    match end {
        HandlerEnd::Returned(None) => HandlerOutcome::Complete(None),
        HandlerEnd::Returned(Some(b)) => HandlerOutcome::Complete(Some(b@)),
        HandlerEnd::Failed(chain) => failed_by(text::texts(chain@)),
        HandlerEnd::Panicked(p) => panicked_with(panic_text(p)),
    }
}

/// A failure with the words of an error and its sources.
pub open spec fn failed_by(chain: Seq<Seq<char>>) -> OutcomeView {
    HandlerOutcome::Fail { reason: text::joined(chain, ": "@), category: "handler_error"@ }
}

/// A failure by panic.
pub open spec fn panicked_with(words: Seq<char>) -> OutcomeView {
    HandlerOutcome::Fail { reason: "handler panicked: "@ + words, category: "handler_panic"@ }
}

/// A failure by a fault of the loop.
pub open spec fn faulted_with(err: RuntimeError<Seq<char>>) -> OutcomeView {
    HandlerOutcome::Fail { reason: err.text_spec(), category: err.category_spec()@ }
}

impl HandlerOutcome {
    /// A failure with the words of an error and its sources.
    pub fn handler_error(chain: &Vec<String>) -> (r: HandlerOutcome)
        ensures
            r@ == failed_by(text::texts(chain@)),
    {
        HandlerOutcome::Fail {
            reason: text::join(chain, ": "),
            category: "handler_error".to_owned(),
        }
    }

    /// A failure by a fault of the loop.
    pub fn runtime_error(err: &RuntimeError) -> (r: HandlerOutcome)
        ensures
            r@ == faulted_with(err@),
    {
        HandlerOutcome::Fail { reason: err.text(), category: err.error_category().to_owned() }
    }

    /// A failure by panic.
    pub fn panic(panic_msg: String) -> (r: HandlerOutcome)
        ensures
            r@ == panicked_with(panic_msg@),
    {
        let mut reason = "handler panicked: ".to_owned();
        reason.append(panic_msg.as_str());
        HandlerOutcome::Fail { reason, category: "handler_panic".to_owned() }
    }

    /// What becomes of a task, from how its handler came to its end.
    pub fn of_end(end: HandlerEnd) -> (r: HandlerOutcome)
        ensures
            r@ == outcome_of(end),
    {
        match end {
            HandlerEnd::Returned(payload) => HandlerOutcome::Complete(payload),
            HandlerEnd::Failed(chain) => HandlerOutcome::handler_error(&chain),
            HandlerEnd::Panicked(p) => HandlerOutcome::panic(panic_message(p)),
        }
    }
}

// ── Handlers ──

/// The handlers of a loop, and how many tasks it runs at a time.
pub struct WorkerRuntime<H> {
    handlers: Vec<(String, H)>,
    max_concurrent: usize,
}

/// How many tasks a loop runs at a time, unless it is told otherwise.
pub const DEFAULT_MAX_CONCURRENT: usize = 64;

impl<H> WorkerRuntime<H> {
    /// Kinds and handlers.
    pub closed spec fn pairs(self) -> Seq<(Seq<char>, H)> {
        assoc::named(self.handlers@)
    }

    /// The handler of each kind.
    pub open spec fn handlers_spec(self) -> Map<Seq<char>, H> {
        assoc::map_of(self.pairs())
    }

    /// How many tasks run at a time.
    pub closed spec fn limit_spec(self) -> usize {
        self.max_concurrent
    }

    /// No kind has two handlers, and a task can run.
    #[verifier::type_invariant]
    pub closed spec fn valid(self) -> bool {
        assoc::distinct(self.pairs()) && self.limit_spec() > 0
    }

    /// A loop without handlers.
    pub fn new() -> (r: WorkerRuntime<H>)
        ensures
            r.handlers_spec() == Map::<Seq<char>, H>::empty(),
            r.limit_spec() == DEFAULT_MAX_CONCURRENT,
    {
        let r = WorkerRuntime { handlers: Vec::new(), max_concurrent: DEFAULT_MAX_CONCURRENT };
        assert(r.pairs() =~= Seq::empty());
        r
    }

    /// Register the handler of a kind, in place of an earlier one.
    pub fn on(self, kind: &str, handler: H) -> (r: WorkerRuntime<H>)
        ensures
            r.handlers_spec() == self.handlers_spec().insert(kind@, handler),
            r.limit_spec() == self.limit_spec(),
    {
        proof {
            use_type_invariant(&self);
        }
        let mut handlers = self.handlers;
        assoc::set(&mut handlers, kind, handler);
        WorkerRuntime { handlers, max_concurrent: self.max_concurrent }
    }

    /// Run this many tasks at a time, and at least one.
    pub fn max_concurrent(self, n: usize) -> (r: WorkerRuntime<H>)
        ensures
            r.pairs() == self.pairs(),
            r.limit_spec() == if n == 0 {
                1
            } else {
                n
            },
    {
        proof {
            use_type_invariant(&self);
        }
        let max_concurrent: usize = if n == 0 {
            1
        } else {
            n
        };
        WorkerRuntime { handlers: self.handlers, max_concurrent }
    }

    /// How many tasks run at a time.
    pub fn limit(&self) -> (r: usize)
        ensures
            r == self.limit_spec(),
            r > 0,
    {
        proof {
            use_type_invariant(self);
        }
        self.max_concurrent
    }

    /// The handler of a kind. A task of a kind without one is failed, not left.
    pub fn handler_for(&self, kind: &str) -> (r: Result<&H, RuntimeError>)
        ensures
            match r {
                Ok(h) => self.handlers_spec().contains_key(kind@) && *h
                    == self.handlers_spec()[kind@],
                Err(e) => !self.handlers_spec().contains_key(kind@) && e@ == (RuntimeError::<
                    Seq<char>,
                >::NoHandler { kind: kind@ }),
            },
    {
        proof {
            use_type_invariant(self);
        }
        match assoc::find(&self.handlers, kind) {
            Some(i) => Ok(&self.handlers[i].1),
            None => Err(RuntimeError::NoHandler { kind: kind.to_owned() }),
        }
    }
}

// ── The loop ──

/// What the loop does after a poll.
#[derive(Debug)]
pub enum RunStep<E = SdkError> {
    /// Run the task. The next pause starts over.
    Dispatch,
    /// Pause, then poll again. The next pause is longer.
    Sleep,
    Stop(E),
}

impl View for RunStep {
    type V = RunStep<SdkErrorView>;

    open spec fn view(&self) -> RunStep<SdkErrorView> {
        match *self {
            RunStep::Dispatch => RunStep::Dispatch,
            RunStep::Sleep => RunStep::Sleep,
            RunStep::Stop(e) => RunStep::Stop(e@),
        }
    }
}

/// What the loop does after a poll, by whether it found a task.
pub fn after_poll(found: Result<bool, SdkError>) -> (r: RunStep)
    ensures
        r@ == match found {
            Ok(true) => RunStep::Dispatch,
            Ok(false) => RunStep::Sleep,
            Err(e) => RunStep::Stop(e@),
        },
{
    match found {
        Ok(true) => RunStep::Dispatch,
        Ok(false) => RunStep::Sleep,
        Err(e) => RunStep::Stop(e),
    }
}

// ── What handlers ask for ──

/// What a handler may read: its task, and the shared state.
pub struct RuntimeCtx<'t, V> {
    task: &'t ClaimedTask,
    state: &'t StateMap<V>,
}

impl<'t, V> RuntimeCtx<'t, V> {
    /// The task.
    pub closed spec fn task_spec(self) -> ClaimedTask {
        *self.task
    }

    /// The shared state.
    pub closed spec fn state_spec(self) -> StateMap<V> {
        *self.state
    }

    /// The context of a task.
    pub fn new(task: &'t ClaimedTask, state: &'t StateMap<V>) -> (r: RuntimeCtx<'t, V>)
        ensures
            r.task_spec() == *task,
            r.state_spec() == *state,
    {
        RuntimeCtx { task, state }
    }

    /// The task.
    pub fn task(&self) -> (r: &'t ClaimedTask)
        ensures
            *r == self.task_spec(),
    {
        self.task
    }

    /// The shared state.
    pub fn state(&self) -> (r: &'t StateMap<V>)
        ensures
            *r == self.state_spec(),
    {
        self.state
    }
}

/// What a handler may ask for.
pub trait FromTask<V>: Sized {
    /// Take it from the context. An error fails the task.
    fn from_task(ctx: &RuntimeCtx<'_, V>) -> (r: Result<Self, RuntimeError>);
}

/// The payload as it is.
#[derive(Debug)]
pub struct PayloadBytes(pub Vec<u8>);

impl<V> FromTask<V> for PayloadBytes {
    fn from_task(ctx: &RuntimeCtx<'_, V>) -> (r: Result<PayloadBytes, RuntimeError>)
        ensures
            r matches Ok(p) && p.0@ == ctx.task_spec().input_payload@,
    {
        let payload = ctx.task().input_payload();
        let n: usize = payload.len();
        let mut out: Vec<u8> = Vec::new();
        let mut i: usize = 0;
        while i < n
            invariant
                n == payload@.len(),
                i <= n,
                out@ == payload@.take(i as int),
            decreases n - i,
        {
            out.push(payload[i]);
            assert(out@ =~= payload@.take(i as int + 1));
            i = i + 1;
        }
        assert(payload@.take(n as int) =~= payload@);
        Ok(PayloadBytes(out))
    }
}

/// What does not change of a task.
#[derive(Debug)]
pub struct TaskInfo {
    pub execution_id: ExecutionId,
    pub attempt_index: AttemptIndex,
    pub execution_kind: String,
    pub lane_id: LaneId,
    pub tags: FieldMap,
}

impl<V> FromTask<V> for TaskInfo {
    fn from_task(ctx: &RuntimeCtx<'_, V>) -> (r: Result<TaskInfo, RuntimeError>)
        ensures
            r matches Ok(i) && i.execution_id@ == ctx.task_spec().execution_id@ && i.attempt_index
                == ctx.task_spec().attempt_index && i.execution_kind@
                == ctx.task_spec().execution_kind@ && i.lane_id@ == ctx.task_spec().lane_id@
                && i.tags@ == ctx.task_spec().tags@,
    {
        let t = ctx.task();
        Ok(
            TaskInfo {
                execution_id: t.execution_id().copy(),
                attempt_index: t.attempt_index(),
                execution_kind: t.execution_kind().to_owned(),
                lane_id: t.lane_id().copy(),
                tags: t.tags().copy(),
            },
        )
    }
}

/// Shared state that a handler asks for.
#[derive(Debug)]
pub struct Data<T>(pub T);

impl<T> Data<T> {
    /// The state, or the fault that there is none of this type.
    pub fn from_state(found: Option<T>, state_type: &'static str) -> (r: Result<
        Data<T>,
        RuntimeError,
    >)
        ensures
            match found {
                Some(v) => r == Ok::<Data<T>, RuntimeError>(Data(v)),
                None => r matches Err(e) && e@ == (RuntimeError::<Seq<char>>::MissingState {
                    state_type,
                }),
            },
    {
        match found {
            Some(v) => Ok(Data(v)),
            None => Err(RuntimeError::MissingState { state_type }),
        }
    }
}

} // verus!
