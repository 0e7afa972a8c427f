//! A circuit breaker: it opens on transport faults in a row, turns calls away while
//! open, and lets one call through on trial after the cool-down.
//!
//! Only transport faults count. Other errors of the engine are answers, and say that
//! the connection works.

use vstd::prelude::*;
use vstd::string::*;

use crate::engine_error;
use crate::engine_error::{EngineError, TransportSource};
use crate::layer::hooks::{Admit, HookOutcome, LayerHooks};

verus! {

/// When the breaker opens, and for how long.
#[derive(Clone, Copy, Debug, PartialEq, Eq, Structural)]
pub struct CircuitBreakerConfig {
    /// Faults in a row that open the breaker.
    pub failure_threshold: u32,
    /// Nanoseconds until a call is let through on trial.
    pub cool_down: u128,
}

impl CircuitBreakerConfig {
    /// Five faults, and thirty seconds.
    pub open spec fn default_spec() -> CircuitBreakerConfig {
        CircuitBreakerConfig { failure_threshold: 5, cool_down: 30_000_000_000 }
    }
}

impl Default for CircuitBreakerConfig {
    fn default() -> (r: CircuitBreakerConfig)
        ensures
            r == CircuitBreakerConfig::default_spec(),
    {
        CircuitBreakerConfig { failure_threshold: 5, cool_down: 30_000_000_000 }
    }
}

/// A circuit breaker that is not yet attached.
#[derive(Clone, Copy, Debug, PartialEq, Eq, Structural)]
pub struct CircuitBreakerLayer {
    pub config: CircuitBreakerConfig,
}

impl CircuitBreakerLayer {
    /// A breaker with this configuration.
    pub fn new(config: CircuitBreakerConfig) -> (r: CircuitBreakerLayer)
        ensures
            r.config == config,
    {
        CircuitBreakerLayer { config }
    }

    /// Attach a breaker: it starts closed.
    pub fn hooks(&self) -> (r: CircuitBreakerHooks)
        ensures
            r == (CircuitBreakerHooks {
                config: self.config,
                state: BreakerState::Closed { consecutive_failures: 0 },
            }),
    {
        CircuitBreakerHooks {
            config: self.config,
            state: BreakerState::Closed { consecutive_failures: 0 },
        }
    }
}

impl Default for CircuitBreakerLayer {
    fn default() -> (r: CircuitBreakerLayer)
        ensures
            r.config == CircuitBreakerConfig::default_spec(),
    {
        CircuitBreakerLayer::new(CircuitBreakerConfig::default())
    }
}

/// The state of a breaker.
#[derive(Clone, Copy, Debug, PartialEq, Eq, Structural)]
pub enum BreakerState {
    /// Calls go through.
    Closed { consecutive_failures: u32 },
    /// Calls are turned away.
    Open { opened_at: u128 },
    /// One call is on trial, every other one is turned away.
    HalfOpen,
}

/// An attached breaker.
#[derive(Clone, Copy, Debug, PartialEq, Eq, Structural)]
pub struct CircuitBreakerHooks {
    pub config: CircuitBreakerConfig,
    pub state: BreakerState,
}

/// Whether a breaker that opened then has cooled down by now. A clock that ran back
/// counts as standing still.
pub open spec fn cooled(config: CircuitBreakerConfig, opened_at: u128, now: u128) -> bool {
    (if now >= opened_at {
        now - opened_at
    } else {
        0
    }) >= config.cool_down
}

/// Whether a call goes through.
pub open spec fn admits(config: CircuitBreakerConfig, state: BreakerState, now: u128) -> bool {
    match state {
        BreakerState::Closed { .. } => true,
        BreakerState::Open { opened_at } => cooled(config, opened_at, now),
        BreakerState::HalfOpen => false,
    }
}

/// The state after a call was asked for: the first one after the cool-down is on
/// trial.
pub open spec fn after_asking(
    config: CircuitBreakerConfig,
    state: BreakerState,
    now: u128,
) -> BreakerState {
    match state {
        BreakerState::Open { opened_at } => if cooled(config, opened_at, now) {
            BreakerState::HalfOpen
        } else {
            state
        },
        _ => state,
    }
}

/// What a call says about the connection.
#[derive(Clone, Copy, Debug, PartialEq, Eq, Structural)]
pub enum Evidence {
    /// It succeeded.
    Sound,
    /// It failed on the way.
    Broken,
    /// The engine refused it.
    Answered,
    /// Nothing: it was turned away here.
    Nothing,
}

/// What a call says about the connection.
pub open spec fn evidence_of(outcome: HookOutcome<'_>) -> Evidence {
    match outcome {
        HookOutcome::Success => Evidence::Sound,
        HookOutcome::Failure(e) => if e.is_transport_spec() {
            Evidence::Broken
        } else {
            Evidence::Answered
        },
        HookOutcome::Rejected(_) => Evidence::Nothing,
    }
}

fn evidence(outcome: &HookOutcome<'_>) -> (r: Evidence)
    ensures
        r == evidence_of(*outcome),
{
    match outcome {
        HookOutcome::Success => Evidence::Sound,
        HookOutcome::Failure(e) => if engine_error::is_transport(e) {
            Evidence::Broken
        } else {
            Evidence::Answered
        },
        HookOutcome::Rejected(_) => Evidence::Nothing,
    }
}

/// The count of faults after another one.
pub open spec fn counted(n: u32) -> u32 {
    if n == u32::MAX {
        n
    } else {
        (n + 1) as u32
    }
}

/// The state after a call.
pub open spec fn after_call(
    config: CircuitBreakerConfig,
    state: BreakerState,
    now: u128,
    e: Evidence,
) -> BreakerState {
    match (state, e) {
        (_, Evidence::Nothing) => state,
        (BreakerState::Closed { consecutive_failures }, Evidence::Broken) => if counted(
            consecutive_failures,
        ) >= config.failure_threshold {
            BreakerState::Open { opened_at: now }
        } else {
            BreakerState::Closed { consecutive_failures: counted(consecutive_failures) }
        },
        (BreakerState::Closed { .. }, Evidence::Sound) => BreakerState::Closed {
            consecutive_failures: 0,
        },
        (BreakerState::Closed { .. }, Evidence::Answered) => state,
        (BreakerState::Open { .. }, _) => state,
        (BreakerState::HalfOpen, Evidence::Broken) => BreakerState::Open { opened_at: now },
        (BreakerState::HalfOpen, _) => BreakerState::Closed { consecutive_failures: 0 },
    }
}

/// The error of a call that is turned away: a transport fault of the layer, so that
/// callers try again as on any other.
pub open spec fn open_error() -> EngineError<Seq<char>> {
    EngineError::Transport {
        backend: "ff-sdk-layer",
        source: TransportSource::Other("circuit open"@),
    }
}

/// The error of a call that is turned away.
pub fn synthetic_open_error() -> (r: EngineError)
    ensures
        r@ == open_error(),
        r.is_transport_spec(),
{
    EngineError::Transport {
        backend: "ff-sdk-layer",
        source: TransportSource::Other("circuit open".to_owned()),
    }
}

impl LayerHooks for CircuitBreakerHooks {
    open spec fn asked(self, method: &'static str, now: u128) -> CircuitBreakerHooks {
        CircuitBreakerHooks {
            config: self.config,
            state: after_asking(self.config, self.state, now),
        }
    }

    open spec fn told(
        self,
        method: &'static str,
        elapsed: u128,
        now: u128,
        outcome: HookOutcome<'_>,
    ) -> CircuitBreakerHooks {
        CircuitBreakerHooks {
            config: self.config,
            state: after_call(self.config, self.state, now, evidence_of(outcome)),
        }
    }

    fn before(&mut self, method: &'static str, now: u128) -> (r: Admit)
        ensures
            match r {
                Admit::Proceed => admits(old(self).config, old(self).state, now),
                Admit::Reject(e) => !admits(old(self).config, old(self).state, now) && (*e)@
                    == open_error(),
            },
    {
        match self.state {
            BreakerState::Closed { .. } => Admit::Proceed,
            BreakerState::Open { opened_at } => {
                let elapsed: u128 = if now >= opened_at {
                    now - opened_at
                } else {
                    0
                };
                if elapsed >= self.config.cool_down {
                    self.state = BreakerState::HalfOpen;
                    Admit::Proceed
                } else {
                    Admit::reject(synthetic_open_error())
                }
            },
            BreakerState::HalfOpen => Admit::reject(synthetic_open_error()),
        }
    }

    fn after(&mut self, method: &'static str, elapsed: u128, now: u128, outcome: HookOutcome<'_>) {
        let e = evidence(&outcome);
        match e {
            Evidence::Nothing => {
                return;
            },
            _ => {},
        }
        match self.state {
            BreakerState::Closed { consecutive_failures } => match e {
                Evidence::Broken => {
                    let next: u32 = if consecutive_failures == u32::MAX {
                        consecutive_failures
                    } else {
                        consecutive_failures + 1
                    };
                    if next >= self.config.failure_threshold {
                        self.state = BreakerState::Open { opened_at: now };
                    } else {
                        self.state = BreakerState::Closed { consecutive_failures: next };
                    }
                },
                Evidence::Sound => {
                    self.state = BreakerState::Closed { consecutive_failures: 0 };
                },
                _ => {},
            },
            BreakerState::Open { .. } => {},
            BreakerState::HalfOpen => match e {
                Evidence::Broken => {
                    self.state = BreakerState::Open { opened_at: now };
                },
                _ => {
                    self.state = BreakerState::Closed { consecutive_failures: 0 };
                },
            },
        }
    }
}

// ── Laws ──

/// The state after some calls went through a closed breaker, each ending at its
/// time.
pub open spec fn after_calls(
    config: CircuitBreakerConfig,
    state: BreakerState,
    calls: Seq<(u128, Evidence)>,
) -> BreakerState
    decreases calls.len(),
{
    if calls.len() == 0 {
        state
    } else {
        after_call(
            config,
            after_calls(config, state, calls.drop_last()),
            calls.last().0,
            calls.last().1,
        )
    }
}

/// Number of transport faults since the last success.
pub open spec fn faults_in_row(calls: Seq<(u128, Evidence)>) -> nat
    decreases calls.len(),
{
    if calls.len() == 0 {
        0
    } else {
        match calls.last().1 {
            Evidence::Sound => 0,
            Evidence::Broken => faults_in_row(calls.drop_last()) + 1,
            _ => faults_in_row(calls.drop_last()),
        }
    }
}

/// Whether faults in a row stayed below a number all along.
pub open spec fn stayed_below(calls: Seq<(u128, Evidence)>, n: nat) -> bool
    decreases calls.len(),
{
    faults_in_row(calls) < n && (calls.len() > 0 ==> stayed_below(calls.drop_last(), n))
}

/// A closed breaker stays closed exactly as long as fewer faults came in a row than
/// the threshold says, and counts them. Refusals of the engine neither count nor
/// reset the count.
pub proof fn law_closed_below_threshold(config: CircuitBreakerConfig, calls: Seq<(u128, Evidence)>)
    requires
        stayed_below(calls, config.failure_threshold as nat),
    ensures
        after_calls(config, BreakerState::Closed { consecutive_failures: 0 }, calls)
            == (BreakerState::Closed { consecutive_failures: faults_in_row(calls) as u32 }),
    decreases calls.len(),
{
    if calls.len() > 0 {
        law_closed_below_threshold(config, calls.drop_last());
    }
}

/// The fault that makes the row as long as the threshold opens the breaker, at the
/// time of that fault.
pub proof fn law_opens_at_threshold(
    config: CircuitBreakerConfig,
    calls: Seq<(u128, Evidence)>,
    now: u128,
)
    requires
        stayed_below(calls, config.failure_threshold as nat),
        faults_in_row(calls) + 1 == config.failure_threshold,
    ensures
        after_calls(
            config,
            BreakerState::Closed { consecutive_failures: 0 },
            calls.push((now, Evidence::Broken)),
        ) == (BreakerState::Open { opened_at: now }),
{
    law_closed_below_threshold(config, calls);
    assert(calls.push((now, Evidence::Broken)).drop_last() =~= calls);
}

/// Until the cool-down is over an open breaker turns every call away, and neither
/// asking nor what still comes back changes it.
pub proof fn law_open_turns_away(
    config: CircuitBreakerConfig,
    opened_at: u128,
    now: u128,
    e: Evidence,
)
    requires
        opened_at <= now < opened_at + config.cool_down,
    ensures
        ({
            let open = BreakerState::Open { opened_at };
            !admits(config, open, now) && after_asking(config, open, now) == open && after_call(
                config,
                open,
                now,
                e,
            ) == open
        }),
{
}

/// After the cool-down one call goes through on trial; every further one is turned
/// away, without effect on the breaker, until the trial has come back.
pub proof fn law_one_call_on_trial(
    config: CircuitBreakerConfig,
    opened_at: u128,
    now: u128,
    later: u128,
)
    requires
        opened_at + config.cool_down <= now,
    ensures
        ({
            let open = BreakerState::Open { opened_at };
            let trial = after_asking(config, open, now);
            admits(config, open, now) && trial is HalfOpen && !admits(config, trial, later)
                && after_asking(config, trial, later) == trial && after_call(
                config,
                trial,
                later,
                Evidence::Nothing,
            ) == trial
        }),
{
}

/// A trial closes the breaker unless it fails on the way, which opens the breaker
/// again.
pub proof fn law_trial_decides(config: CircuitBreakerConfig, now: u128, e: Evidence)
    requires
        e != Evidence::Nothing,
    ensures
        after_call(config, BreakerState::HalfOpen, now, e) == if e == Evidence::Broken {
            BreakerState::Open { opened_at: now }
        } else {
            BreakerState::Closed { consecutive_failures: 0 }
        },
{
}

} // verus!
