//! How the server's function library is kept at the expected version: check,
//! load if needed, check again.

use vstd::prelude::*;
use vstd::string::*;

use crate::error::ServerError;
use crate::retry::ErrorKind;
use crate::text;

verus! {

/// Why the library could not be loaded.
#[derive(Debug)]
pub enum LoadError<S = String> {
    /// A fault reported by the Valkey client.
    Valkey(ServerError<S>),
    /// The version after loading is another one. Some other process may have
    /// loaded the library meanwhile.
    VersionMismatch { expected: S, got: S },
}

impl View for LoadError {
    type V = LoadError<Seq<char>>;

    open spec fn view(&self) -> LoadError<Seq<char>> {
        match *self {
            LoadError::Valkey(e) => LoadError::Valkey(e@),
            LoadError::VersionMismatch { expected, got } => LoadError::VersionMismatch {
                expected: expected@,
                got: got@,
            },
        }
    }
}

/// The model of a [`LoadError`].
pub type LoadErrorView = LoadError<Seq<char>>;

impl LoadError<Seq<char>> {
    /// The words of the error.
    pub open spec fn text_spec(self) -> Seq<char> {
        match self {
            LoadError::Valkey(e) => "valkey: "@ + e.text,
            LoadError::VersionMismatch { expected, got } => {
                "version mismatch after load: expected "@ + expected + ", got "@ + got
            },
        }
    }
}

impl LoadError {
    /// The kind of the fault, if the client reported one.
    pub fn valkey_kind(&self) -> (r: Option<ErrorKind>)
        ensures
            r == match *self {
                LoadError::Valkey(e) => Some(e.kind),
                LoadError::VersionMismatch { .. } => None::<ErrorKind>,
            },
    {
        match self {
            LoadError::Valkey(e) => Some(e.kind),
            LoadError::VersionMismatch { .. } => None,
        }
    }

    /// The words of the error.
    pub fn text(&self) -> (r: String)
        ensures
            r@ == self@.text_spec(),
    {
        match self {
            LoadError::Valkey(e) => {
                let mut out = "valkey: ".to_owned();
                out.append(e.text.as_str());
                out
            },
            LoadError::VersionMismatch { expected, got } => {
                let mut out = "version mismatch after load: expected ".to_owned();
                out.append(expected.as_str());
                out.append(", got ");
                out.append(got.as_str());
                out
            },
        }
    }
}

// ── Attempts ──

/// How often a load is tried.
pub const MAX_ATTEMPTS: u32 = 6;

/// The pause after a failed attempt, in milliseconds.
pub open spec fn backoff_ms(attempt: u32) -> u64 {
    if attempt <= 1 {
        500
    } else if attempt == 2 {
        1_000
    } else if attempt == 3 {
        2_000
    } else if attempt == 4 {
        4_000
    } else if attempt == 5 {
        7_000
    } else {
        4_000
    }
}

/// The pause after a failed attempt, in milliseconds.
pub fn backoff(attempt: u32) -> (r: u64)
    ensures
        r == backoff_ms(attempt),
{
    if attempt <= 1 {
        500
    } else if attempt == 2 {
        1_000
    } else if attempt == 3 {
        2_000
    } else if attempt == 4 {
        4_000
    } else if attempt == 5 {
        7_000
    } else {
        4_000
    }
}

/// Whether a load failed for a reason that stays: the library does not compile.
pub open spec fn permanent(e: ServerError<Seq<char>>) -> bool {
    text::occurs(e.text, "Error compiling"@) || text::occurs(e.text, "syntax error"@)
        || text::occurs(e.text, "ERR Error"@)
}

/// Whether a load failed for a reason that stays.
pub fn is_permanent_load_error(e: &ServerError) -> (r: bool)
    ensures
        r == permanent(e@),
{
    text::contains(e.text.as_str(), "Error compiling") || text::contains(
        e.text.as_str(),
        "syntax error",
    ) || text::contains(e.text.as_str(), "ERR Error")
}

/// Whether a setting asks to load the library whatever its version.
pub open spec fn asks_reload(setting: Option<&str>) -> bool {
    match setting {
        None => false,
        Some(v) => {
            let word = text::lower(text::trim_end(text::trim_start(v@)));
            word == "1"@ || word == "true"@ || word == "yes"@
        },
    }
}

/// Whether a setting asks to load the library whatever its version.
pub fn force_reload(setting: Option<&str>) -> (r: bool)
    ensures
        r == asks_reload(setting),
{
    match setting {
        None => false,
        Some(v) => {
            let word = text::to_lower(text::trim(v).as_str());
            text::same(word.as_str(), "1") || text::same(word.as_str(), "true") || text::same(
                word.as_str(),
                "yes",
            )
        },
    }
}

// ── Steps ──

/// What is done next to ensure the library.
#[derive(Debug)]
pub enum LoadStep<E = LoadError> {
    /// Ask the library for its version.
    Check,
    /// Load the library, replacing the present one.
    Load { attempt: u32 },
    /// Refresh the map of slots, then wait.
    Wait { attempt: u32, backoff_ms: u64 },
    /// Ask the library for its version again.
    Verify,
    /// Ask for the version once more, to report it.
    Report,
    /// The library is there at the expected version.
    Ready,
    /// Give up.
    Failed(E),
}

impl View for LoadStep {
    type V = LoadStep<LoadErrorView>;

    open spec fn view(&self) -> LoadStep<LoadErrorView> {
        match *self {
            LoadStep::Check => LoadStep::Check,
            LoadStep::Load { attempt } => LoadStep::Load { attempt },
            LoadStep::Wait { attempt, backoff_ms } => LoadStep::Wait { attempt, backoff_ms },
            LoadStep::Verify => LoadStep::Verify,
            LoadStep::Report => LoadStep::Report,
            LoadStep::Ready => LoadStep::Ready,
            LoadStep::Failed(e) => LoadStep::Failed(e@),
        }
    }
}

/// The model of a [`LoadStep`].
pub type LoadStepView = LoadStep<LoadErrorView>;

/// The outcome of asking for the version, over its texts.
pub type Version = Result<Seq<char>, ServerError<Seq<char>>>;

/// The outcome of asking for the version, over its texts.
pub open spec fn version_view(r: Result<String, ServerError>) -> Version {
    match r {
        Ok(v) => Ok(v@),
        Err(e) => Err(e@),
    }
}

/// The first step. A forced load skips the check.
pub fn ensure_library(force: bool) -> (r: LoadStep)
    ensures
        r@ == if force {
            LoadStepView::Load { attempt: 1 }
        } else {
            LoadStepView::Check
        },
{
    if force {
        LoadStep::Load { attempt: 1 }
    } else {
        LoadStep::Check
    }
}

/// What follows the first check: nothing more where the version is the expected
/// one, else a load.
pub open spec fn check_next(got: Version, expected: Seq<char>) -> LoadStepView {
    if got == Ok::<Seq<char>, ServerError<Seq<char>>>(expected) {
        LoadStep::Ready
    } else {
        LoadStep::Load { attempt: 1 }
    }
}

/// Take the reply to the first check.
pub fn after_check(got: &Result<String, ServerError>, expected: &str) -> (r: LoadStep)
    ensures
        r@ == check_next(version_view(*got), expected@),
{
    match got {
        Ok(v) => if text::same(v.as_str(), expected) {
            LoadStep::Ready
        } else {
            LoadStep::Load { attempt: 1 }
        },
        Err(_) => LoadStep::Load { attempt: 1 },
    }
}

/// What follows a load: a check where it succeeded, another attempt after a pause
/// where the fault may pass and attempts are left.
pub open spec fn load_next(
    attempt: u32,
    reply: Result<(), ServerError<Seq<char>>>,
) -> LoadStepView {
    match reply {
        Ok(_) => LoadStep::Verify,
        Err(e) => if permanent(e) || attempt >= MAX_ATTEMPTS {
            LoadStep::Failed(LoadError::Valkey(e))
        } else {
            LoadStep::Wait { attempt, backoff_ms: backoff_ms(attempt) }
        },
    }
}

/// The outcome of a load, over its texts.
pub open spec fn load_view(r: Result<(), ServerError>) -> Result<(), ServerError<Seq<char>>> {
    match r {
        Ok(v) => Ok(v),
        Err(e) => Err(e@),
    }
}

/// Take the reply to a load.
pub fn after_load(attempt: u32, reply: Result<(), ServerError>) -> (r: LoadStep)
    ensures
        r@ == load_next(attempt, load_view(reply)),
{
    match reply {
        Ok(_) => LoadStep::Verify,
        Err(e) => if is_permanent_load_error(&e) || attempt >= MAX_ATTEMPTS {
            LoadStep::Failed(LoadError::Valkey(e))
        } else {
            LoadStep::Wait { attempt, backoff_ms: backoff(attempt) }
        },
    }
}

/// Try again after a pause.
pub fn after_wait(attempt: u32) -> (r: LoadStep)
    requires
        attempt < MAX_ATTEMPTS,
    ensures
        r@ == (LoadStepView::Load { attempt: (attempt + 1) as u32 }),
{
    LoadStep::Load { attempt: attempt + 1 }
}

/// What follows the last check.
pub open spec fn verify_next(got: Version, expected: Seq<char>) -> LoadStepView {
    match got {
        Ok(v) => if v == expected {
            LoadStep::Ready
        } else {
            LoadStep::Report
        },
        Err(e) => LoadStep::Failed(LoadError::Valkey(e)),
    }
}

/// Take the reply to the last check.
pub fn after_verify(got: Result<String, ServerError>, expected: &str) -> (r: LoadStep)
    ensures
        r@ == verify_next(version_view(got), expected@),
{
    match got {
        Ok(v) => if text::same(v.as_str(), expected) {
            LoadStep::Ready
        } else {
            LoadStep::Report
        },
        Err(e) => LoadStep::Failed(LoadError::Valkey(e)),
    }
}

/// What follows the report: an error with the version, or without where it could
/// not be had.
pub open spec fn report_next(got: Version, expected: Seq<char>) -> LoadStepView {
    LoadStep::Failed(
        LoadError::VersionMismatch {
            expected,
            got: match got {
                Ok(v) => v,
                Err(_) => ""@,
            },
        },
    )
}

/// Take the reply to the report.
pub fn after_report(got: Result<String, ServerError>, expected: &str) -> (r: LoadStep)
    ensures
        r@ == report_next(version_view(got), expected@),
{
    let got = match got {
        Ok(v) => v,
        Err(_) => "".to_owned(),
    };
    LoadStep::Failed(LoadError::VersionMismatch { expected: expected.to_owned(), got })
}

// ── Laws ──

/// Whether a step may follow another, on some reply.
pub open spec fn follows(s: LoadStepView, t: LoadStepView, expected: Seq<char>) -> bool {
    match s {
        LoadStep::Check => exists|got: Version| t == #[trigger] check_next(got, expected),
        LoadStep::Load { attempt } => exists|reply: Result<(), ServerError<Seq<char>>>|
            t == #[trigger] load_next(attempt, reply),
        LoadStep::Wait { attempt, .. } => t == (LoadStepView::Load {
            attempt: (attempt + 1) as u32,
        }),
        LoadStep::Verify => exists|got: Version| t == #[trigger] verify_next(got, expected),
        LoadStep::Report => exists|got: Version| t == #[trigger] report_next(got, expected),
        _ => false,
    }
}

/// An attempt among those that are made.
pub open spec fn sound(s: LoadStepView) -> bool {
    match s {
        LoadStep::Load { attempt } => 1 <= attempt <= MAX_ATTEMPTS,
        LoadStep::Wait { attempt, backoff_ms: b } => 1 <= attempt < MAX_ATTEMPTS && b == backoff_ms(
            attempt,
        ),
        _ => true,
    }
}

/// How much is left to do: it falls with every step.
pub open spec fn remaining(s: LoadStepView) -> int {
    match s {
        LoadStep::Check => 20,
        LoadStep::Load { attempt } => 2 * (MAX_ATTEMPTS - attempt) + 4,
        LoadStep::Wait { attempt, .. } => 2 * (MAX_ATTEMPTS - attempt) + 3,
        LoadStep::Verify => 2,
        LoadStep::Report => 1,
        _ => 0,
    }
}

/// Whatever the server replies, the steps end, and no more than `MAX_ATTEMPTS`
/// loads are made.
pub proof fn law_loading_ends(s: LoadStepView, t: LoadStepView, expected: Seq<char>)
    requires
        sound(s),
        follows(s, t, expected),
    ensures
        sound(t),
        0 <= remaining(t) < remaining(s),
{
}

/// The library counts as ready only on a reply with the expected version.
pub proof fn law_ready_means_expected_version(got: Version, expected: Seq<char>)
    requires
        check_next(got, expected) is Ready || verify_next(got, expected) is Ready,
    ensures
        got == Ok::<Seq<char>, ServerError<Seq<char>>>(expected),
{
}

/// A fault that stays is not tried again: it is the error that is reported.
pub proof fn law_permanent_fault_is_final(attempt: u32, e: ServerError<Seq<char>>)
    requires
        permanent(e),
    ensures
        load_next(attempt, Err(e)) == LoadStepView::Failed(LoadError::Valkey(e)),
{
}

} // verus!
