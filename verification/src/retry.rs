//! Kinds of transport fault, and which of them are worth a retry.

use vstd::prelude::*;
use vstd::string::*;

verus! {

/// Kind of a fault reported by the Valkey client.
#[derive(Clone, Copy, Debug, PartialEq, Eq, Structural)]
pub enum ErrorKind {
    /// The server generated an invalid response.
    ResponseError,
    /// The client could not parse the server's response.
    ParseError,
    /// The authentication with the server failed.
    AuthenticationFailed,
    /// The user lacks permission for the operation.
    PermissionDenied,
    /// A type mismatch.
    TypeError,
    /// A script execution was aborted.
    ExecAbortError,
    /// The server is loading its data set.
    BusyLoadingError,
    /// The requested script does not exist.
    NoScriptError,
    /// The client's parameters were wrong.
    InvalidClientConfig,
    /// The key moved to a different node.
    Moved,
    /// The key moved, and the client must ask.
    Ask,
    /// The server asks for a retry.
    TryAgain,
    /// The cluster is down.
    ClusterDown,
    /// The request spans several slots.
    CrossSlot,
    /// A cluster primary is unavailable.
    MasterDown,
    /// A fault that is not native to the server.
    IoError,
    /// The connection closed before the request was sent.
    FatalSendError,
    /// The connection closed before the response was read.
    FatalReceiveError,
    /// The client rejected the request before sending it.
    ClientError,
    /// An error code that the client does not know.
    ExtensionError,
    /// The server is read-only.
    ReadOnly,
    /// No such primary among those the sentinels know.
    MasterNameNotFoundBySentinel,
    /// The sentinels know no valid replica.
    NoValidReplicasFoundBySentinel,
    /// No sentinel was given.
    EmptySentinelList,
    /// A kill was requested while nothing ran.
    NotBusy,
    /// No node connection is left.
    AllConnectionsUnavailable,
    /// No connection serves the route.
    ConnectionNotFoundForRoute,
    /// The server does not speak RESP3.
    RESP3NotSupported,
    /// Some slots are not covered.
    NotAllSlotsCovered,
    /// A management operation was used wrongly.
    UserOperationError,
    /// Requests and responses went out of step.
    ProtocolDesync,
    /// A kind that is none of the others.
    Unknown,
}

/// The kinds that are known to be safe to retry: the request never reached the
/// server, the server asked for a retry, or the condition passes by itself.
pub open spec fn retryable_kind(kind: ErrorKind) -> bool {
    kind == ErrorKind::IoError || kind == ErrorKind::FatalSendError || kind == ErrorKind::TryAgain
        || kind == ErrorKind::BusyLoadingError || kind == ErrorKind::ClusterDown
}

/// Whether a caller may retry after a fault of this kind.
///
/// A lost response (`FatalReceiveError`) is not retryable: the request may have
/// been applied.
pub fn is_retryable_kind(kind: ErrorKind) -> (r: bool)
    ensures
        r == retryable_kind(kind),
{
    matches!(
        kind,
        ErrorKind::IoError | ErrorKind::FatalSendError | ErrorKind::TryAgain
            | ErrorKind::BusyLoadingError | ErrorKind::ClusterDown
    )
}

/// The stable wire name of a kind.
pub open spec fn stable_name(kind: ErrorKind) -> &'static str {
    match kind {
        ErrorKind::ResponseError => "response_error",
        ErrorKind::ParseError => "parse_error",
        ErrorKind::AuthenticationFailed => "authentication_failed",
        ErrorKind::PermissionDenied => "permission_denied",
        ErrorKind::TypeError => "type_error",
        ErrorKind::ExecAbortError => "exec_abort",
        ErrorKind::BusyLoadingError => "busy_loading",
        ErrorKind::NoScriptError => "no_script",
        ErrorKind::InvalidClientConfig => "invalid_client_config",
        ErrorKind::Moved => "moved",
        ErrorKind::Ask => "ask",
        ErrorKind::TryAgain => "try_again",
        ErrorKind::ClusterDown => "cluster_down",
        ErrorKind::CrossSlot => "cross_slot",
        ErrorKind::MasterDown => "master_down",
        ErrorKind::IoError => "io_error",
        ErrorKind::FatalSendError => "fatal_send",
        ErrorKind::FatalReceiveError => "fatal_receive",
        ErrorKind::ClientError => "client_error",
        ErrorKind::ExtensionError => "extension_error",
        ErrorKind::ReadOnly => "read_only",
        ErrorKind::MasterNameNotFoundBySentinel => "master_name_not_found_by_sentinel",
        ErrorKind::NoValidReplicasFoundBySentinel => "no_valid_replicas_found_by_sentinel",
        _ => "unknown",
    }
}

/// The stable, snake_case wire name of a kind. A kind without a name of its own
/// is `"unknown"`.
pub fn kind_to_stable_str(kind: ErrorKind) -> (r: &'static str)
    ensures
        r == stable_name(kind),
{
    match kind {
        ErrorKind::ResponseError => "response_error",
        ErrorKind::ParseError => "parse_error",
        ErrorKind::AuthenticationFailed => "authentication_failed",
        ErrorKind::PermissionDenied => "permission_denied",
        ErrorKind::TypeError => "type_error",
        ErrorKind::ExecAbortError => "exec_abort",
        ErrorKind::BusyLoadingError => "busy_loading",
        ErrorKind::NoScriptError => "no_script",
        ErrorKind::InvalidClientConfig => "invalid_client_config",
        ErrorKind::Moved => "moved",
        ErrorKind::Ask => "ask",
        ErrorKind::TryAgain => "try_again",
        ErrorKind::ClusterDown => "cluster_down",
        ErrorKind::CrossSlot => "cross_slot",
        ErrorKind::MasterDown => "master_down",
        ErrorKind::IoError => "io_error",
        ErrorKind::FatalSendError => "fatal_send",
        ErrorKind::FatalReceiveError => "fatal_receive",
        ErrorKind::ClientError => "client_error",
        ErrorKind::ExtensionError => "extension_error",
        ErrorKind::ReadOnly => "read_only",
        ErrorKind::MasterNameNotFoundBySentinel => "master_name_not_found_by_sentinel",
        ErrorKind::NoValidReplicasFoundBySentinel => "no_valid_replicas_found_by_sentinel",
        _ => "unknown",
    }
}

/// A lower-case ASCII letter or an underscore.
pub open spec fn snake_char(c: char) -> bool {
    ('a' <= c && c <= 'z') || c == '_'
}

/// Every wire name is non-empty snake_case.
pub proof fn law_stable_names_are_snake_case(kind: ErrorKind)
    ensures
        stable_name(kind)@.len() > 0,
        forall|i: int|
            0 <= i < stable_name(kind)@.len() ==> #[trigger] snake_char(stable_name(kind)@[i]),
{
    reveal_strlit("response_error");
    reveal_strlit("parse_error");
    reveal_strlit("authentication_failed");
    reveal_strlit("permission_denied");
    reveal_strlit("type_error");
    reveal_strlit("exec_abort");
    reveal_strlit("busy_loading");
    reveal_strlit("no_script");
    reveal_strlit("invalid_client_config");
    reveal_strlit("moved");
    reveal_strlit("ask");
    reveal_strlit("try_again");
    reveal_strlit("cluster_down");
    reveal_strlit("cross_slot");
    reveal_strlit("master_down");
    reveal_strlit("io_error");
    reveal_strlit("fatal_send");
    reveal_strlit("fatal_receive");
    reveal_strlit("client_error");
    reveal_strlit("extension_error");
    reveal_strlit("read_only");
    reveal_strlit("master_name_not_found_by_sentinel");
    reveal_strlit("no_valid_replicas_found_by_sentinel");
    reveal_strlit("unknown");
}

} // verus!
