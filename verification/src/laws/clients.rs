//! Clients: which errors are worth another try, and what an answer of the admin interface
//! means.

use vstd::prelude::*;
use vstd::string::*;

use crate::admin;
use crate::admin::{
    answer_error, claim_answer, rotate_answer, AdminErrorBody, AnswerShape, ClaimForWorkerRequest,
    ClaimForWorkerResponse, FlowFabricAdminClient, HttpStage,
};
use crate::error::ErrorClass;
use crate::grants;
use crate::grants::{ClaimGrant, ReclaimExecutionArgs, ReclaimGrant};
use crate::ids;
use crate::ids::TimestampMs;
use crate::names::LaneId;
use crate::partition::{Partition, PartitionFamily};
use crate::retry;
use crate::retry::{is_retryable_kind, ErrorKind};
use crate::sdk_error::{classify_kind, BackendErrorKind, HttpFault, SdkError, SdkErrorView};
use crate::text;
use crate::worker::FlowFabricWorker;

verus! {

// ── Another try ──

/// A client fault is worth another try exactly where the request never reached the server,
/// the server asks for it, or the condition passes. A response that was lost is not: the
/// request may have been carried out.
pub proof fn law_retryable_kinds(kind: ErrorKind, r: bool)
    requires
        call_ensures(is_retryable_kind, (kind,), r),
    ensures
        r <==> kind == ErrorKind::IoError || kind == ErrorKind::FatalSendError || kind
            == ErrorKind::TryAgain || kind == ErrorKind::BusyLoadingError || kind
            == ErrorKind::ClusterDown,
        kind == ErrorKind::FatalReceiveError ==> !r,
{
}

/// The families of client faults that pass are those of the connection, of a timeout, of
/// the cluster and of a server that is loading.
pub proof fn law_retryable_families(kind: ErrorKind, b: BackendErrorKind, r: bool)
    requires
        call_ensures(classify_kind, (kind,), b),
        call_ensures(BackendErrorKind::is_retryable, (&b,), r),
    ensures
        r <==> b == BackendErrorKind::Transport || b == BackendErrorKind::Timeout || b
            == BackendErrorKind::Cluster || b == BackendErrorKind::BusyLoading,
        b == BackendErrorKind::Transport <==> kind == ErrorKind::IoError || kind
            == ErrorKind::FatalSendError || kind == ErrorKind::FatalReceiveError || kind
            == ErrorKind::ProtocolDesync,
        b == BackendErrorKind::Protocol <==> kind == ErrorKind::ResponseError || kind
            == ErrorKind::ParseError || kind == ErrorKind::TypeError || kind
            == ErrorKind::InvalidClientConfig || kind == ErrorKind::RESP3NotSupported,
        b == BackendErrorKind::Auth <==> kind == ErrorKind::AuthenticationFailed || kind
            == ErrorKind::PermissionDenied,
        b == BackendErrorKind::BusyLoading <==> kind == ErrorKind::BusyLoadingError,
        b == BackendErrorKind::ScriptNotLoaded <==> kind == ErrorKind::NoScriptError,
        b == BackendErrorKind::Cluster <==> kind == ErrorKind::Moved || kind == ErrorKind::Ask
            || kind == ErrorKind::TryAgain || kind == ErrorKind::ClusterDown || kind
            == ErrorKind::CrossSlot || kind == ErrorKind::MasterDown || kind
            == ErrorKind::AllConnectionsUnavailable || kind
            == ErrorKind::ConnectionNotFoundForRoute,
        retry::retryable_kind(kind) ==> r,
{
}

/// Whether a client's error is worth another try: a worker that is full may be free later;
/// an error of the engine by its class; a fault of the backend by its family; a call that
/// timed out or did not connect; an answer of the admin interface as it says itself, and
/// else by its status; a wrong configuration never.
pub proof fn law_retryable_client_errors(e: &SdkError, r: bool)
    requires
        call_ensures(SdkError::is_retryable, (e,), r),
    ensures
        *e is WorkerAtCapacity ==> r,
        *e is Config ==> !r,
        *e matches SdkError::Engine(b) ==> (r <==> b.class_spec() == ErrorClass::Retryable),
        *e matches SdkError::Backend(b) ==> (r <==> b.kind.retryable()),
        *e matches SdkError::BackendContext { source, .. } ==> (r <==> source.kind.retryable()),
        *e matches SdkError::Http { source, .. } ==> (r <==> source.timed_out
            || source.not_connected),
        *e matches SdkError::AdminApi { status, retryable, .. } ==> match retryable {
            Some(hint) => r == hint,
            None => r <==> status == 429 || status == 502 || status == 503 || status == 504,
        },
{
}

/// A fault of the backend has the kind that it came with, with or without a label; an error
/// of the engine that of the client fault inside it; no other error has any.
pub proof fn law_backend_kind_is_found(e: &SdkError, r: Option<BackendErrorKind>)
    requires
        call_ensures(SdkError::backend_kind, (e,), r),
    ensures
        *e matches SdkError::Backend(b) ==> r == Some(b.kind),
        *e matches SdkError::BackendContext { source, .. } ==> r == Some(source.kind),
        *e matches SdkError::Engine(b) ==> (r is Some <==> b.kind_spec() is Some),
        (*e is Config || *e is WorkerAtCapacity || *e is Http || *e is AdminApi) ==> r is None,
{
}

// ── The admin interface ──

/// A client sends no token, or the one that it was given behind its scheme. Its address
/// ends in no slash. A blank token is refused, and one that cannot stand in a header.
pub proof fn law_tokens_are_sent(
    base: String,
    token: &str,
    plain: FlowFabricAdminClient,
    r: Result<FlowFabricAdminClient, SdkError>,
)
    requires
        call_ensures(FlowFabricAdminClient::new, (base,), plain),
        call_ensures(FlowFabricAdminClient::with_token, (base, token), r),
    ensures
        plain.authorization is None,
        plain.base_url@.len() > 0 ==> plain.base_url@.last() != '/',
        text::blank(token@) ==> (r matches Err(x) && x is Config),
        r is Ok <==> !text::blank(token@) && admin::header_text("Bearer "@ + token@),
        r matches Ok(c) ==> c.base_url@ == plain.base_url@ && (c.authorization matches Some(a)
            && a@ == "Bearer "@ + token@),
{
    admin::law_normalized_has_no_slash(base@);
}

/// An answer that there is nothing says so; another good one is the response; every other
/// one is an error. A rotation always answers something.
pub proof fn law_answers_by_status(status: u16, c: AnswerShape, r: AnswerShape)
    requires
        call_ensures(claim_answer, (status,), c),
        call_ensures(rotate_answer, (status,), r),
    ensures
        c == AnswerShape::Nothing <==> status == 204,
        c == AnswerShape::Error <==> status < 200 || status >= 300,
        r == AnswerShape::Error <==> status < 200 || status >= 300,
        r != AnswerShape::Nothing,
{
}

/// An error of the admin interface keeps its status and its whole body. Where the body is
/// of the known shape, its words, its kind and its hint are taken over.
pub proof fn law_answer_errors(status: u16, raw: String, body: Option<AdminErrorBody>, r: SdkError)
    requires
        call_ensures(answer_error, (status, raw, body), r),
    ensures
        r@ matches SdkErrorView::AdminApi { status: s, message, kind, retryable, raw_body } && s
            == status && raw_body == raw@ && match body {
            Some(b) => message == b.error@ && kind == text::opt_text(b.kind) && retryable
                == b.retryable,
            None => message == raw@ && kind is None && retryable is None,
        },
{
}

/// The grant in an answer is for the execution and in the partition that the answer names,
/// under its key and until its expiry. An answer that names no execution, or no family that
/// is known, holds none.
pub proof fn law_answer_is_its_grant(resp: ClaimForWorkerResponse, r: Result<ClaimGrant, SdkError>)
    requires
        call_ensures(ClaimForWorkerResponse::into_grant, (resp,), r),
        ids::plain_execution_id(resp.execution_id@),
    ensures
        r matches Ok(g) ==> g.execution_id@ == resp.execution_id@ && g.grant_key == resp.grant_key
            && g.expires_at_ms == resp.expires_at_ms,
        resp.partition_family@ == "flow"@ ==> (r matches Ok(g) && g.partition_key@ == (Partition {
            family: PartitionFamily::Flow,
            index: resp.partition_index,
        }).tag_spec()),
        resp.partition_family@ == "execution"@ ==> (r matches Ok(g) && g.partition_key@ == (
        Partition { family: PartitionFamily::Execution, index: resp.partition_index }).tag_spec()),
        resp.partition_family@ == "budget"@ ==> (r matches Ok(g) && g.partition_key@ == (Partition {
            family: PartitionFamily::Budget,
            index: resp.partition_index,
        }).tag_spec()),
        resp.partition_family@ == "quota"@ ==> (r matches Ok(g) && g.partition_key@ == (Partition {
            family: PartitionFamily::Quota,
            index: resp.partition_index,
        }).tag_spec()),
        (resp.partition_family@ != "flow"@ && resp.partition_family@ != "execution"@
            && resp.partition_family@ != "budget"@ && resp.partition_family@ != "quota"@) ==> (
        r matches Err(x) && x is AdminApi),
{
    reveal_strlit("flow");
    reveal_strlit("execution");
    reveal_strlit("budget");
    reveal_strlit("quota");
    assert("flow"@.len() == 4 && "execution"@.len() == 9 && "budget"@.len() == 6 && "quota"@.len()
        == 5);
}

/// The request for a grant from the server names the worker as it is configured, the lane,
/// and every capability.
pub proof fn law_server_request_names_the_worker(
    w: &FlowFabricWorker,
    lane: &LaneId,
    ttl: u64,
    r: ClaimForWorkerRequest,
)
    requires
        call_ensures(FlowFabricWorker::claim_via_server, (w, lane, ttl), r),
    ensures
        r.worker_id@ == w.config_spec().worker_id@,
        r.worker_instance_id@ == w.config_spec().worker_instance_id@,
        r.lane_id@ == lane@,
        r.grant_ttl_ms == ttl,
        r.capabilities@.len() == w.config_spec().capabilities@.len(),
        forall|i: int|
            0 <= i < r.capabilities@.len() ==> (#[trigger] r.capabilities@[i])@
                == w.config_spec().capabilities@[i]@,
{
    let a = text::texts(r.capabilities@);
    let b = text::texts(w.config_spec().capabilities@);
    assert(a.len() == r.capabilities@.len() && b.len() == w.config_spec().capabilities@.len());
    assert forall|i: int| 0 <= i < r.capabilities@.len() implies (#[trigger] r.capabilities@[i])@
        == w.config_spec().capabilities@[i]@ by {
        assert(a[i] == b[i]);
    }
}

// ── Taking over ──

/// An execution is taken over only under a grant for it, on its lane, and before the grant
/// expires; the arguments then go as they are. A time before the epoch counts as the epoch.
pub proof fn law_takeover_needs_its_grant(
    grant: &ReclaimGrant,
    args: ReclaimExecutionArgs,
    now: TimestampMs,
    r: Result<ReclaimExecutionArgs, SdkError>,
)
    requires
        call_ensures(grants::claim_from_reclaim_grant, (grant, args, now), r),
    ensures
        r is Ok <==> grant.execution_id@ == args.execution_id@ && grant.lane_id@ == args.lane_id@
            && grant.expires_at_ms > 0 && (now.0 < 0 || now.0 < grant.expires_at_ms),
        r matches Ok(a) ==> a == args,
        r matches Err(x) ==> x is Config,
{
}

/// What is wrong with a grant is told by the field: another execution before another lane, and
/// that before the expiry.
pub proof fn law_takeover_refusals(
    grant: &ReclaimGrant,
    args: ReclaimExecutionArgs,
    now: TimestampMs,
    r: Result<ReclaimExecutionArgs, SdkError>,
)
    requires
        call_ensures(grants::claim_from_reclaim_grant, (grant, args, now), r),
        now.0 >= 0,
    ensures
        grant.execution_id@ != args.execution_id@ ==> (r matches Err(x) && (
        x@ matches SdkErrorView::Config { field, .. } && field == Some("execution_id"@))),
        (grant.execution_id@ == args.execution_id@ && grant.lane_id@ != args.lane_id@) ==> (
        r matches Err(x) && (x@ matches SdkErrorView::Config { field, .. } && field == Some(
            "lane_id"@,
        ))),
        (grant.execution_id@ == args.execution_id@ && grant.lane_id@ == args.lane_id@
            && grant.expires_at_ms <= now.0) ==> (r matches Err(x) && (
        x@ matches SdkErrorView::Config { field, .. } && field == Some("expires_at_ms"@))),
{
}

/// The address of a worker's claim is the client's, and behind it four parts of which the third
/// is the worker's name. An address that is none is refused.
pub proof fn law_claim_address(
    c: &FlowFabricAdminClient,
    worker: &str,
    r: Result<String, SdkError>,
)
    requires
        call_ensures(FlowFabricAdminClient::claim_url, (c, worker), r),
    ensures
        admin::parsed_url(c.base_url@) is Err ==> (r matches Err(x) && x is Config),
        admin::parsed_url(c.base_url@) matches Ok(u) ==> match admin::extended_url(
            u,
            seq!["v1"@, "workers"@, worker@, "claim"@],
        ) {
            Some(url) => r matches Ok(s) && s@ == url,
            None => r matches Err(x) && x is Config,
        },
{
}

/// A fault of a call is told with the call, and with whether it timed out or did not connect.
pub proof fn law_http_faults(stage: HttpStage, source: HttpFault, r: SdkError)
    requires
        call_ensures(HttpStage::fault, (stage, source), r),
    ensures
        r@ matches SdkErrorView::Http { source: s, context } && s == source@ && (
        stage is SendClaim ==> context == "POST /v1/workers/{worker_id}/claim"@) && (
        stage is DecodeClaim ==> context == "decode claim_for_worker response body"@) && (
        stage is SendRotate ==> context == "POST /v1/admin/rotate-waitpoint-secret"@) && (
        stage is DecodeRotate ==> context == "decode rotate-waitpoint-secret response body"@) && (
        stage is Build ==> context == "build reqwest::Client"@),
{
}

} // verus!
