//! What a layer sees of a call, and what it may do about it.

use vstd::prelude::*;

use crate::engine_error::EngineError;

verus! {

/// What came of a call.
pub enum HookOutcome<'a> {
    Success,
    Failure(&'a EngineError),
    /// The layer itself turned the call away. The backend never saw it.
    Rejected(&'a EngineError),
}

/// Whether a layer lets a call through.
#[derive(Debug)]
pub enum Admit {
    Proceed,
    Reject(Box<EngineError>),
}

impl Admit {
    /// Turn a call away.
    pub fn reject(err: EngineError) -> (r: Admit)
        ensures
            r == Admit::Reject(Box::new(err)),
    {
        Admit::Reject(Box::new(err))
    }
}

/// A layer: it is asked before a call, and told after it. Times are in nanoseconds,
/// on a clock that does not run back.
pub trait LayerHooks: Sized {
    /// The layer after a call.
    spec fn told(self, method: &'static str, elapsed: u128, now: u128, outcome: HookOutcome<'_>) -> Self;

    /// The layer after it was asked about a call.
    spec fn asked(self, method: &'static str, now: u128) -> Self;

    /// Ask before a call.
    fn before(&mut self, method: &'static str, now: u128) -> (r: Admit)
        ensures
            *final(self) == old(self).asked(method, now),
    ;

    /// Tell after a call, or after it was turned away.
    fn after(&mut self, method: &'static str, elapsed: u128, now: u128, outcome: HookOutcome<'_>)
        ensures
            *final(self) == old(self).told(method, elapsed, now, outcome),
    ;
}

/// The outcome of a call, as a layer is told.
pub open spec fn outcome_of<'a, T>(result: &'a Result<T, EngineError>) -> HookOutcome<'a> {
    match result {
        Ok(_) => HookOutcome::Success,
        Err(e) => HookOutcome::Failure(e),
    }
}

/// End a call that went through: the layer is told, and the result is handed on as
/// it is.
pub fn passed<H: LayerHooks, T>(
    hooks: &mut H,
    method: &'static str,
    elapsed: u128,
    now: u128,
    result: Result<T, EngineError>,
) -> (r: Result<T, EngineError>)
    ensures
        r == result,
        *final(hooks) == old(hooks).told(method, elapsed, now, outcome_of(&result)),
{
    match &result {
        Ok(_) => hooks.after(method, elapsed, now, HookOutcome::Success),
        Err(e) => hooks.after(method, elapsed, now, HookOutcome::Failure(e)),
    }
    result
}

/// End a call that was turned away: the layer is told that it took no time, and the
/// error is the result.
pub fn turned_away<H: LayerHooks>(
    hooks: &mut H,
    method: &'static str,
    now: u128,
    err: Box<EngineError>,
) -> (r: EngineError)
    ensures
        r == *err,
        *final(hooks) == old(hooks).told(method, 0, now, HookOutcome::Rejected(&*err)),
{
    hooks.after(method, 0, now, HookOutcome::Rejected(&*err));
    *err
}

} // verus!
