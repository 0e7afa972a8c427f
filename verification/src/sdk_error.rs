//! The error type of the client interface.

use vstd::prelude::*;
use vstd::string::*;
use vstd::std_specs::convert::FromSpecImpl;

use crate::engine_error;
use crate::engine_error::EngineError;
use crate::error::{ErrorClass, ScriptError, ScriptErrorView};
use crate::numbers;
use crate::retry::ErrorKind;
use crate::text;

verus! {

/// Kind of a backend fault, whatever the storage engine.
#[derive(Clone, Copy, Debug, PartialEq, Eq, Structural)]
pub enum BackendErrorKind {
    Transport,
    Protocol,
    Timeout,
    Auth,
    Cluster,
    BusyLoading,
    ScriptNotLoaded,
    Other,
}

impl BackendErrorKind {
    /// The stable name of a kind.
    pub open spec fn stable_name(self) -> &'static str {
        match self {
            BackendErrorKind::Transport => "transport",
            BackendErrorKind::Protocol => "protocol",
            BackendErrorKind::Timeout => "timeout",
            BackendErrorKind::Auth => "auth",
            BackendErrorKind::Cluster => "cluster",
            BackendErrorKind::BusyLoading => "busy_loading",
            BackendErrorKind::ScriptNotLoaded => "script_not_loaded",
            BackendErrorKind::Other => "other",
        }
    }

    /// The stable name of a kind.
    pub fn as_stable_str(&self) -> (r: &'static str)
        ensures
            r == self.stable_name(),
    {
        match self {
            BackendErrorKind::Transport => "transport",
            BackendErrorKind::Protocol => "protocol",
            BackendErrorKind::Timeout => "timeout",
            BackendErrorKind::Auth => "auth",
            BackendErrorKind::Cluster => "cluster",
            BackendErrorKind::BusyLoading => "busy_loading",
            BackendErrorKind::ScriptNotLoaded => "script_not_loaded",
            BackendErrorKind::Other => "other",
        }
    }

    /// The kinds that pass by themselves.
    pub open spec fn retryable(self) -> bool {
        self == BackendErrorKind::Transport || self == BackendErrorKind::Timeout || self
            == BackendErrorKind::Cluster || self == BackendErrorKind::BusyLoading
    }

    /// Whether a fault of this kind passes by itself.
    pub fn is_retryable(&self) -> (r: bool)
        ensures
            r == self.retryable(),
    {
        matches!(
            self,
            BackendErrorKind::Transport | BackendErrorKind::Timeout | BackendErrorKind::Cluster
                | BackendErrorKind::BusyLoading
        )
    }
}

/// The backend kind of a client fault: the family that the fault's kind belongs to,
/// and `Other` for a kind of no family.
///
/// The kinds of the transport and of the protocol are those that callers rely on being
/// retried or not, but for `RESP3NotSupported`. `Auth`, `BusyLoading`, `ScriptNotLoaded`
/// and `Cluster` hold what the description of `ff_core::engine_error::BackendErrorKind`
/// says of them, and `Cluster` also `TryAgain`. `RESP3NotSupported`, `TryAgain` and the
/// row for all other kinds are this library's own choice.
pub open spec fn kind_class(kind: ErrorKind) -> BackendErrorKind {
    match kind {
        ErrorKind::IoError
        | ErrorKind::FatalSendError
        | ErrorKind::FatalReceiveError
        | ErrorKind::ProtocolDesync => BackendErrorKind::Transport,
        ErrorKind::ResponseError
        | ErrorKind::ParseError
        | ErrorKind::TypeError
        | ErrorKind::InvalidClientConfig
        | ErrorKind::RESP3NotSupported => BackendErrorKind::Protocol,
        ErrorKind::AuthenticationFailed
        | ErrorKind::PermissionDenied => BackendErrorKind::Auth,
        ErrorKind::Moved
        | ErrorKind::Ask
        | ErrorKind::TryAgain
        | ErrorKind::ClusterDown
        | ErrorKind::CrossSlot
        | ErrorKind::MasterDown
        | ErrorKind::AllConnectionsUnavailable
        | ErrorKind::ConnectionNotFoundForRoute => BackendErrorKind::Cluster,
        ErrorKind::BusyLoadingError => BackendErrorKind::BusyLoading,
        ErrorKind::NoScriptError => BackendErrorKind::ScriptNotLoaded,
        _ => BackendErrorKind::Other,
    }
}

/// The backend kind of a client fault.
pub fn classify_kind(kind: ErrorKind) -> (r: BackendErrorKind)
    ensures
        r == kind_class(kind),
{
    match kind {
        ErrorKind::IoError
        | ErrorKind::FatalSendError
        | ErrorKind::FatalReceiveError
        | ErrorKind::ProtocolDesync => BackendErrorKind::Transport,
        ErrorKind::ResponseError
        | ErrorKind::ParseError
        | ErrorKind::TypeError
        | ErrorKind::InvalidClientConfig
        | ErrorKind::RESP3NotSupported => BackendErrorKind::Protocol,
        ErrorKind::AuthenticationFailed
        | ErrorKind::PermissionDenied => BackendErrorKind::Auth,
        ErrorKind::Moved
        | ErrorKind::Ask
        | ErrorKind::TryAgain
        | ErrorKind::ClusterDown
        | ErrorKind::CrossSlot
        | ErrorKind::MasterDown
        | ErrorKind::AllConnectionsUnavailable
        | ErrorKind::ConnectionNotFoundForRoute => BackendErrorKind::Cluster,
        ErrorKind::BusyLoadingError => BackendErrorKind::BusyLoading,
        ErrorKind::NoScriptError => BackendErrorKind::ScriptNotLoaded,
        _ => BackendErrorKind::Other,
    }
}

/// A fault of the storage backend.
#[derive(Debug)]
pub struct BackendError<S = String> {
    pub kind: BackendErrorKind,
    pub message: S,
}

impl View for BackendError {
    type V = BackendError<Seq<char>>;

    open spec fn view(&self) -> BackendError<Seq<char>> {
        BackendError { kind: self.kind, message: self.message@ }
    }
}

/// A fault of an HTTP request: its rendering, and the two causes that pass by
/// themselves.
#[derive(Debug)]
pub struct HttpFault<S = String> {
    pub timed_out: bool,
    pub not_connected: bool,
    pub text: S,
}

impl View for HttpFault {
    type V = HttpFault<Seq<char>>;

    open spec fn view(&self) -> HttpFault<Seq<char>> {
        HttpFault {
            timed_out: self.timed_out,
            not_connected: self.not_connected,
            text: self.text@,
        }
    }
}

/// An error of the client interface.
#[allow(inconsistent_fields)]
#[derive(Debug)]
pub enum SdkError<S = String> {
    /// A fault of the storage backend.
    Backend(BackendError<S>),
    /// A fault of the storage backend, with the label of the call site.
    BackendContext { source: BackendError<S>, context: S },
    /// An error of the engine.
    Engine(Box<EngineError<S>>),
    /// A configuration error. `field` names the offending field, if there is one.
    Config { context: S, field: Option<S>, message: S },
    /// Every concurrency slot of the worker is taken.
    WorkerAtCapacity,
    /// A fault of an HTTP request.
    Http { source: HttpFault<S>, context: S },
    /// The admin interface answered with an error status.
    AdminApi { status: u16, message: S, kind: Option<S>, retryable: Option<bool>, raw_body: S },
}

/// The model of an [`SdkError`].
pub type SdkErrorView = SdkError<Seq<char>>;

impl View for SdkError {
    type V = SdkError<Seq<char>>;

    open spec fn view(&self) -> SdkError<Seq<char>> {
        match *self {
            SdkError::Backend(e) => SdkError::Backend(e@),
            SdkError::BackendContext { source, context } => SdkError::BackendContext {
                source: source@,
                context: context@,
            },
            SdkError::Engine(e) => SdkError::Engine(Box::new(e@)),
            SdkError::Config { context, field, message } => SdkError::Config {
                context: context@,
                field: text::opt_text(field),
                message: message@,
            },
            SdkError::WorkerAtCapacity => SdkError::WorkerAtCapacity,
            SdkError::Http { source, context } => SdkError::Http {
                source: source@,
                context: context@,
            },
            SdkError::AdminApi { status, message, kind, retryable, raw_body } => SdkError::AdminApi {
                status,
                message: message@,
                kind: text::opt_text(kind),
                retryable,
                raw_body: raw_body@,
            },
        }
    }
}

/// The client error around an engine error.
pub open spec fn of_engine(e: EngineError<Seq<char>>) -> SdkErrorView {
    SdkError::Engine(Box::new(e))
}

/// The client error around a server function's error.
pub open spec fn of_script(e: ScriptErrorView) -> SdkErrorView {
    of_engine(engine_error::engine_error_of(e))
}

/// A configuration error about a field.
pub open spec fn field_error(context: Seq<char>, field: Seq<char>, message: Seq<char>) -> SdkErrorView {
    SdkError::Config { context, field: Some(field), message }
}

/// A configuration error about a field.
pub(crate) fn bad_field(context: &str, field: &str, message: String) -> (r: SdkError)
    ensures
        r@ == field_error(context@, field@, message@),
{
    SdkError::Config { context: context.to_owned(), field: Some(field.to_owned()), message }
}

/// A configuration error about a whole object.
pub(crate) fn bad_config(context: &str, message: String) -> (r: SdkError)
    ensures
        r@ == (SdkErrorView::Config { context: context@, field: None, message: message@ }),
{
    SdkError::Config { context: context.to_owned(), field: None, message }
}

impl From<EngineError> for SdkError {
    fn from(err: EngineError) -> (r: SdkError)
        ensures
            r@ == of_engine(err@),
            r == SdkError::<String>::Engine(Box::new(err)),
    {
        SdkError::Engine(Box::new(err))
    }
}

impl FromSpecImpl<EngineError> for SdkError {
    open spec fn obeys_from_spec() -> bool {
        true
    }

    open spec fn from_spec(err: EngineError) -> SdkError {
        SdkError::Engine(Box::new(err))
    }
}

impl From<ScriptError> for SdkError {
    fn from(err: ScriptError) -> (r: SdkError)
        ensures
            r@ == of_script(err@),
    {
        SdkError::Engine(Box::new(engine_error::engine_error_from_script(err)))
    }
}

/// Nothing is claimed of the result as a value of the type: its texts have the
/// characters that `from` states, no more.
impl FromSpecImpl<ScriptError> for SdkError {
    open spec fn obeys_from_spec() -> bool {
        false
    }

    open spec fn from_spec(err: ScriptError) -> SdkError {
        arbitrary()
    }
}

impl From<BackendError> for SdkError {
    fn from(err: BackendError) -> (r: SdkError)
        ensures
            r == SdkError::<String>::Backend(err),
    {
        SdkError::Backend(err)
    }
}

impl FromSpecImpl<BackendError> for SdkError {
    open spec fn obeys_from_spec() -> bool {
        true
    }

    open spec fn from_spec(err: BackendError) -> SdkError {
        SdkError::Backend(err)
    }
}

/// A result of the engine, as the client sees it.
pub fn lift<T>(out: Result<T, EngineError>) -> (r: Result<T, SdkError>)
    ensures
        match out {
            Ok(v) => r == Ok::<T, SdkError>(v),
            Err(e) => r matches Err(x) && x@ == of_engine(e@),
        },
{
    match out {
        Ok(v) => Ok(v),
        Err(e) => Err(SdkError::from(e)),
    }
}

/// A backend fault with the label of its call site.
pub fn backend_context(err: BackendError, context: String) -> (r: SdkError)
    ensures
        r == (SdkError::<String>::BackendContext { source: err, context }),
{
    SdkError::BackendContext { source: err, context }
}

impl<S> SdkError<S> {
    /// The backend kind of the fault that an error carries.
    pub open spec fn backend_kind_spec(self) -> Option<BackendErrorKind> {
        match self {
            SdkError::Backend(e) => Some(e.kind),
            SdkError::BackendContext { source, .. } => Some(source.kind),
            SdkError::Engine(e) => match (*e).kind_spec() {
                Some(k) => Some(kind_class(k)),
                None => None,
            },
            _ => None,
        }
    }

    /// Whether a retry can succeed.
    pub open spec fn retryable_spec(self) -> bool {
        match self {
            SdkError::Backend(e) => e.kind.retryable(),
            SdkError::BackendContext { source, .. } => source.kind.retryable(),
            SdkError::Engine(e) => (*e).class_spec() == ErrorClass::Retryable,
            SdkError::WorkerAtCapacity => true,
            SdkError::Http { source, .. } => source.timed_out || source.not_connected,
            SdkError::AdminApi { status, retryable, .. } => match retryable {
                Some(hint) => hint,
                None => status == 429 || status == 502 || status == 503 || status == 504,
            },
            SdkError::Config { .. } => false,
        }
    }
}

impl SdkError {
    /// The backend kind of the fault that this error carries: of a backend error
    /// its own, of an engine error that of the client fault inside it.
    pub fn backend_kind(&self) -> (r: Option<BackendErrorKind>)
        ensures
            r == self.backend_kind_spec(),
    {
        match self {
            SdkError::Backend(e) => Some(e.kind),
            SdkError::BackendContext { source, .. } => Some(source.kind),
            SdkError::Engine(e) => match engine_error::valkey_kind(e) {
                Some(k) => Some(classify_kind(k)),
                None => None,
            },
            _ => None,
        }
    }

    /// Whether a retry can succeed. The admin interface's own hint wins over its
    /// status.
    pub fn is_retryable(&self) -> (r: bool)
        ensures
            r == self.retryable_spec(),
    {
        match self {
            SdkError::Backend(e) => e.kind.is_retryable(),
            SdkError::BackendContext { source, .. } => source.kind.is_retryable(),
            SdkError::Engine(e) => matches!(engine_error::class(e), ErrorClass::Retryable),
            SdkError::WorkerAtCapacity => true,
            SdkError::Http { source, .. } => source.timed_out || source.not_connected,
            SdkError::AdminApi { status, retryable, .. } => match retryable {
                Some(hint) => *hint,
                None => *status == 429 || *status == 502 || *status == 503 || *status == 504,
            },
            SdkError::Config { .. } => false,
        }
    }
}

/// `config: <context>[.<field>]: <message>`.
pub open spec fn config_text(context: Seq<char>, field: Option<Seq<char>>, message: Seq<char>) -> Seq<
    char,
> {
    match field {
        Some(f) => "config: "@ + context + "."@ + f + ": "@ + message,
        None => "config: "@ + context + ": "@ + message,
    }
}

/// `config: <context>[.<field>]: <message>`.
pub fn fmt_config(context: &str, field: Option<&str>, message: &str) -> (r: String)
    ensures
        r@ == config_text(
            context@,
            match field {
                Some(f) => Some(f@),
                None => None,
            },
            message@,
        ),
{
    let mut out = "config: ".to_owned();
    out.append(context);
    match field {
        Some(f) => {
            out.append(".");
            out.append(f);
        },
        None => {},
    }
    out.append(": ");
    out.append(message);
    out
}

impl BackendErrorKind {
    /// The name of the kind.
    pub open spec fn name_spec(self) -> &'static str {
        match self {
            BackendErrorKind::Transport => "Transport",
            BackendErrorKind::Protocol => "Protocol",
            BackendErrorKind::Timeout => "Timeout",
            BackendErrorKind::Auth => "Auth",
            BackendErrorKind::Cluster => "Cluster",
            BackendErrorKind::BusyLoading => "BusyLoading",
            BackendErrorKind::ScriptNotLoaded => "ScriptNotLoaded",
            BackendErrorKind::Other => "Other",
        }
    }

    /// The name of the kind.
    pub fn name(self) -> (r: &'static str)
        ensures
            r == self.name_spec(),
    {
        match self {
            BackendErrorKind::Transport => "Transport",
            BackendErrorKind::Protocol => "Protocol",
            BackendErrorKind::Timeout => "Timeout",
            BackendErrorKind::Auth => "Auth",
            BackendErrorKind::Cluster => "Cluster",
            BackendErrorKind::BusyLoading => "BusyLoading",
            BackendErrorKind::ScriptNotLoaded => "ScriptNotLoaded",
            BackendErrorKind::Other => "Other",
        }
    }
}

impl BackendError<Seq<char>> {
    /// What the error says to a reader.
    pub open spec fn text_spec(self) -> Seq<char> {
        "valkey backend: "@ + self.kind.name_spec()@ + ": "@ + self.message
    }
}

impl BackendError {
    /// What the error says to a reader.
    pub fn text(&self) -> (r: String)
        ensures
            r@ == self@.text_spec(),
    {
        let mut out = "valkey backend: ".to_owned();
        out.append(self.kind.name());
        out.append(": ");
        out.append(self.message.as_str());
        out
    }
}

impl SdkError<Seq<char>> {
    /// What the error says to a reader.
    pub open spec fn text_spec(self) -> Seq<char> {
        match self {
            SdkError::Backend(e) => "backend: "@ + e.text_spec(),
            SdkError::BackendContext { source, context } => "backend: "@ + context + ": "@
                + source.text_spec(),
            SdkError::Engine(e) => "engine: "@ + (*e).text_spec(),
            SdkError::Config { context, field, message } => config_text(context, field, message),
            SdkError::WorkerAtCapacity => "worker at capacity: max_concurrent_tasks reached"@,
            SdkError::Http { source, context } => "http: "@ + context + ": "@ + source.text,
            SdkError::AdminApi { status, message, .. } => "admin api: "@ + numbers::decimal(
                status as int,
            ) + ": "@ + message,
        }
    }
}

impl SdkError {
    /// What the error says to a reader.
    pub fn text(&self) -> (r: String)
        ensures
            r@ == self@.text_spec(),
    {
        match self {
            SdkError::Backend(e) => {
                let mut out = "backend: ".to_owned();
                out.append(e.text().as_str());
                out
            },
            SdkError::BackendContext { source, context } => {
                let mut out = "backend: ".to_owned();
                out.append(context.as_str());
                out.append(": ");
                out.append(source.text().as_str());
                out
            },
            SdkError::Engine(e) => {
                let mut out = "engine: ".to_owned();
                out.append(e.text().as_str());
                out
            },
            SdkError::Config { context, field, message } => {
                let f = match field {
                    Some(name) => Some(name.as_str()),
                    None => None,
                };
                fmt_config(context.as_str(), f, message.as_str())
            },
            SdkError::WorkerAtCapacity => {
                "worker at capacity: max_concurrent_tasks reached".to_owned()
            },
            SdkError::Http { source, context } => {
                let mut out = "http: ".to_owned();
                out.append(context.as_str());
                out.append(": ");
                out.append(source.text.as_str());
                out
            },
            SdkError::AdminApi { status, message, .. } => {
                let mut out = "admin api: ".to_owned();
                out.append(numbers::u64_text(*status as u64).as_str());
                out.append(": ");
                out.append(message.as_str());
                out
            },
        }
    }
}

} // verus!
