//! The admin interface over HTTP: what is sent, and what the answers mean.

use vstd::prelude::*;
use vstd::string::*;

use crate::grants::ClaimGrant;
use crate::ids;
use crate::ids::ExecutionId;
use crate::numbers;
use crate::partition::{Partition, PartitionFamily};
use crate::sdk_error;
use crate::sdk_error::{HttpFault, SdkError, SdkErrorView};
use crate::text;

verus! {

/// How long a request may take. It is longer than the server gives itself, so that
/// the server's own answer to a timeout arrives.
pub const DEFAULT_TIMEOUT_SECS: u64 = 130;

// ── The client ──

/// A text without the slashes at its end.
pub open spec fn without_slashes(s: Seq<char>) -> Seq<char>
    decreases s.len(),
{
    if s.len() > 0 && s.last() == '/' {
        without_slashes(s.drop_last())
    } else {
        s
    }
}

/// Trim the slashes at the end of a base URL, so that a path can be appended.
pub fn normalize_base_url(url: String) -> (r: String)
    ensures
        r@ == without_slashes(url@),
{
    let mut out = url;
    loop
        invariant
            without_slashes(out@) == without_slashes(url@),
        ensures
            out@ == without_slashes(url@),
        decreases out@.len(),
    {
        match out.pop() {
            None => {
                return out;
            },
            Some(c) => {
                if c != '/' {
                    out.push(c);
                    return out;
                }
            },
        }
    }
}

/// A normalized URL does not end in a slash, and to normalize it again changes
/// nothing.
pub proof fn law_normalized_has_no_slash(s: Seq<char>)
    ensures
        without_slashes(s).len() > 0 ==> without_slashes(s).last() != '/',
        without_slashes(without_slashes(s)) == without_slashes(s),
    decreases s.len(),
{
    if s.len() > 0 && s.last() == '/' {
        law_normalized_has_no_slash(s.drop_last());
    }
}

/// Whether a byte may stand in the value of an HTTP header.
pub open spec fn header_byte(b: u8) -> bool {
    (b >= 32 && b != 127) || b == 9
}

/// Whether every byte of a text may stand in the value of an HTTP header.
pub open spec fn header_text(s: Seq<char>) -> bool {
    forall|i: int|
        0 <= i < vstd::utf8::encode_utf8(s).len() ==> header_byte(
            #[trigger] vstd::utf8::encode_utf8(s)[i],
        )
}

/// `reqwest::header::HeaderValue::from_str`: it takes a text exactly when none of
/// its bytes is a control code other than the tab.
#[verifier::external_body]
fn is_header_value(s: &str) -> (r: bool)
    ensures
        r == header_text(s@),
{
    reqwest::header::HeaderValue::from_str(s).is_ok()
}

/// A client of the admin interface.
#[derive(Debug)]
pub struct FlowFabricAdminClient {
    pub base_url: String,
    /// The value of the `Authorization` header, if there is one.
    pub authorization: Option<String>,
}

/// Why a token is refused: it is blank, or cannot stand in a header.
pub open spec fn token_refusal(token: Seq<char>) -> Option<SdkErrorView> {
    if text::blank(token) {
        Some(
            sdk_error::field_error(
                "admin_client"@,
                "bearer_token"@,
                "is empty or all-whitespace; use FlowFabricAdminClient::new for unauthenticated access"@,
            ),
        )
    } else if !header_text("Bearer "@ + token) {
        Some(
            sdk_error::field_error(
                "admin_client"@,
                "bearer_token"@,
                "contains characters not valid in an HTTP header"@,
            ),
        )
    } else {
        None
    }
}

/// What `reqwest::Url::parse` makes of a text: the URL in its normal form, or the
/// words of the error.
pub uninterp spec fn parsed_url(s: Seq<char>) -> Result<Seq<char>, Seq<char>>;

/// The outcome of a parse, over its texts.
pub open spec fn texts_of(r: Result<String, String>) -> Result<Seq<char>, Seq<char>> {
    match r {
        Ok(s) => Ok(s@),
        Err(e) => Err(e@),
    }
}

/// `reqwest::Url::parse`: the URL named `parsed_url`.
#[verifier::external_body]
fn parse_url(s: &str) -> (r: Result<String, String>)
    ensures
        texts_of(r) == parsed_url(s@),
{
    match reqwest::Url::parse(s) {
        Ok(u) => Ok(u.to_string()),
        Err(e) => Err(e.to_string()),
    }
}

/// What `PathSegmentsMut::extend` makes of a URL and some path segments: the longer
/// URL, or nothing where the URL cannot be a base.
pub uninterp spec fn extended_url(url: Seq<char>, segments: Seq<Seq<char>>) -> Option<Seq<char>>;

/// `PathSegmentsMut::extend` on the URL of a text: the one named `extended_url`.
#[verifier::external_body]
fn extend_url(url: &str, segments: &Vec<String>) -> (r: Option<String>)
    ensures
        text::opt_text(r) == extended_url(url@, text::texts(segments@)),
{
    let mut out = reqwest::Url::parse(url).ok()?;
    out.path_segments_mut().ok()?.extend(segments);
    Some(out.to_string())
}

/// The path segments of a worker's claim.
pub open spec fn claim_segments(worker_id: Seq<char>) -> Seq<Seq<char>> {
    seq!["v1"@, "workers"@, worker_id, "claim"@]
}

/// The URL of a worker's claim under a base URL, from what a parse of the base
/// and its extension gave.
pub open spec fn url_or_refusal(
    base: Seq<char>,
    parsed: Result<Seq<char>, Seq<char>>,
    extended: Option<Seq<char>>,
) -> Result<Seq<char>, SdkErrorView> {
    match parsed {
        Err(e) => Err(
            sdk_error::field_error(
                "admin_client"@,
                "base_url"@,
                "invalid base_url '"@ + base + "': "@ + e,
            ),
        ),
        Ok(_) => match extended {
            None => Err(
                sdk_error::field_error(
                    "admin_client"@,
                    "base_url"@,
                    "base_url cannot be a base URL: '"@ + base + "'"@,
                ),
            ),
            Some(url) => Ok(url),
        },
    }
}

/// The URL of a worker's claim.
pub open spec fn claim_url_spec(base: Seq<char>, worker_id: Seq<char>) -> Result<
    Seq<char>,
    SdkErrorView,
> {
    match parsed_url(base) {
        Err(e) => url_or_refusal(base, Err(e), None),
        Ok(url) => url_or_refusal(
            base,
            Ok(url),
            extended_url(url, claim_segments(worker_id)),
        ),
    }
}

/// The refusal of a base URL that does not parse.
pub fn invalid_base_url(base: &str, e: &str) -> (r: SdkError)
    ensures
        Err::<Seq<char>, SdkErrorView>(r@) == url_or_refusal(base@, Err(e@), None),
{
    let mut m = "invalid base_url '".to_owned();
    m.append(base);
    m.append("': ");
    m.append(e);
    sdk_error::bad_field("admin_client", "base_url", m)
}

/// The URL of a claim, from the extension of a base URL that parsed.
pub fn claim_url_of(base: &str, extended: Option<String>) -> (r: Result<String, SdkError>)
    ensures
        match r {
            Ok(u) => url_or_refusal(base@, Ok(base@), text::opt_text(extended)) == Ok::<
                Seq<char>,
                SdkErrorView,
            >(u@),
            Err(e) => url_or_refusal(base@, Ok(base@), text::opt_text(extended)) == Err::<
                Seq<char>,
                SdkErrorView,
            >(e@),
        },
{
    match extended {
        Some(url) => Ok(url),
        None => {
            let mut m = "base_url cannot be a base URL: '".to_owned();
            m.append(base);
            m.append("'");
            Err(sdk_error::bad_field("admin_client", "base_url", m))
        },
    }
}

impl FlowFabricAdminClient {
    /// A client without authorization.
    pub fn new(base_url: String) -> (r: FlowFabricAdminClient)
        ensures
            r.base_url@ == without_slashes(base_url@),
            r.authorization is None,
    {
        FlowFabricAdminClient {
            base_url: normalize_base_url(base_url),
            authorization: None,
        }
    }

    /// A client that sends a bearer token with every request. A blank token is
    /// refused here, where the mistake is, and not by the server later.
    pub fn with_token(base_url: String, token: &str) -> (r: Result<
        FlowFabricAdminClient,
        SdkError,
    >)
        ensures
            match token_refusal(token@) {
                Some(e) => r matches Err(x) && x@ == e,
                None => r matches Ok(c) && c.base_url@ == without_slashes(base_url@)
                    && text::opt_text(c.authorization) == Some("Bearer "@ + token@),
            },
    {
        if text::is_blank(token) {
            return Err(
                sdk_error::bad_field(
                    "admin_client",
                    "bearer_token",
                    "is empty or all-whitespace; use FlowFabricAdminClient::new for unauthenticated access".to_owned(),
                ),
            );
        }
        let mut value = "Bearer ".to_owned();
        value.append(token);
        if !is_header_value(value.as_str()) {
            return Err(
                sdk_error::bad_field(
                    "admin_client",
                    "bearer_token",
                    "contains characters not valid in an HTTP header".to_owned(),
                ),
            );
        }
        Ok(
            FlowFabricAdminClient {
                base_url: normalize_base_url(base_url),
                authorization: Some(value),
            },
        )
    }

    /// The URL of a worker's claim. The worker's name stands in it as a path
    /// segment, with what may not stand there escaped; a name of one or two dots is
    /// left out.
    pub fn claim_url(&self, worker_id: &str) -> (r: Result<String, SdkError>)
        ensures
            match r {
                Ok(u) => claim_url_spec(self.base_url@, worker_id@) == Ok::<
                    Seq<char>,
                    SdkErrorView,
                >(u@),
                Err(e) => claim_url_spec(self.base_url@, worker_id@) == Err::<
                    Seq<char>,
                    SdkErrorView,
                >(e@),
            },
    {
        match parse_url(self.base_url.as_str()) {
            Err(e) => Err(invalid_base_url(self.base_url.as_str(), e.as_str())),
            Ok(url) => {
                let mut segments: Vec<String> = Vec::new();
                segments.push("v1".to_owned());
                segments.push("workers".to_owned());
                segments.push(worker_id.to_owned());
                segments.push("claim".to_owned());
                assert(text::texts(segments@) =~= claim_segments(worker_id@));
                claim_url_of(self.base_url.as_str(), extend_url(url.as_str(), &segments))
            },
        }
    }

    /// The URL of a rotation of the waitpoint secret.
    pub fn rotate_url(&self) -> (r: String)
        ensures
            r@ == self.base_url@ + "/v1/admin/rotate-waitpoint-secret"@,
    {
        let mut out = self.base_url.clone();
        out.append("/v1/admin/rotate-waitpoint-secret");
        out
    }
}

// ── Answers ──

/// The body of an answer with an error status.
#[derive(Debug)]
pub struct AdminErrorBody {
    pub error: String,
    pub kind: Option<String>,
    pub retryable: Option<bool>,
}

/// The error of an answer with an error status. Where the body is of the known
/// shape its parts are taken over, else the whole body is the message.
pub open spec fn api_error(
    status: u16,
    raw: Seq<char>,
    body: Option<AdminErrorBody>,
) -> SdkErrorView {
    match body {
        Some(b) => SdkError::AdminApi {
            status,
            message: b.error@,
            kind: text::opt_text(b.kind),
            retryable: b.retryable,
            raw_body: raw,
        },
        None => SdkError::AdminApi {
            status,
            message: raw,
            kind: None,
            retryable: None,
            raw_body: raw,
        },
    }
}

/// The error of an answer with an error status.
pub fn answer_error(status: u16, raw: String, body: Option<AdminErrorBody>) -> (r: SdkError)
    ensures
        r@ == api_error(status, raw@, body),
{
    match body {
        Some(b) => SdkError::AdminApi {
            status,
            message: b.error,
            kind: b.kind,
            retryable: b.retryable,
            raw_body: raw,
        },
        None => SdkError::AdminApi {
            status,
            message: raw.clone(),
            kind: None,
            retryable: None,
            raw_body: raw,
        },
    }
}

/// What to do with an answer, by its status.
#[derive(Clone, Copy, Debug, PartialEq, Eq, Structural)]
pub enum AnswerShape {
    /// There is nothing to claim.
    Nothing,
    /// The body is the response.
    Response,
    /// The body is an error.
    Error,
}

/// What to do with the answer to a claim.
pub fn claim_answer(status: u16) -> (r: AnswerShape)
    ensures
        r == if status == 204 {
            AnswerShape::Nothing
        } else if 200 <= status < 300 {
            AnswerShape::Response
        } else {
            AnswerShape::Error
        },
{
    if status == 204 {
        AnswerShape::Nothing
    } else if 200 <= status && status < 300 {
        AnswerShape::Response
    } else {
        AnswerShape::Error
    }
}

/// What to do with the answer to a rotation.
pub fn rotate_answer(status: u16) -> (r: AnswerShape)
    ensures
        r == if 200 <= status < 300 {
            AnswerShape::Response
        } else {
            AnswerShape::Error
        },
{
    if 200 <= status && status < 300 {
        AnswerShape::Response
    } else {
        AnswerShape::Error
    }
}

/// The calls whose faults are reported.
#[derive(Clone, Copy, Debug, PartialEq, Eq, Structural)]
pub enum HttpStage {
    Build,
    SendClaim,
    DecodeClaim,
    ReadClaimError { status: u16 },
    SendRotate,
    DecodeRotate,
    ReadRotateError { status: u16 },
}

impl HttpStage {
    /// The label of a call.
    pub open spec fn label_spec(self) -> Seq<char> {
        match self {
            HttpStage::Build => "build reqwest::Client"@,
            HttpStage::SendClaim => "POST /v1/workers/{worker_id}/claim"@,
            HttpStage::DecodeClaim => "decode claim_for_worker response body"@,
            HttpStage::ReadClaimError { status } => "read claim_for_worker error body (status "@
                + numbers::decimal(status as int) + ")"@,
            HttpStage::SendRotate => "POST /v1/admin/rotate-waitpoint-secret"@,
            HttpStage::DecodeRotate => "decode rotate-waitpoint-secret response body"@,
            HttpStage::ReadRotateError { status } => {
                "read rotate-waitpoint-secret error response body (status "@ + numbers::decimal(
                    status as int,
                ) + ")"@
            },
        }
    }

    /// The label of a call.
    pub fn label(self) -> (r: String)
        ensures
            r@ == self.label_spec(),
    {
        match self {
            HttpStage::Build => "build reqwest::Client".to_owned(),
            HttpStage::SendClaim => "POST /v1/workers/{worker_id}/claim".to_owned(),
            HttpStage::DecodeClaim => "decode claim_for_worker response body".to_owned(),
            HttpStage::ReadClaimError { status } => {
                let mut out = "read claim_for_worker error body (status ".to_owned();
                out.append(numbers::u64_text(status as u64).as_str());
                out.append(")");
                out
            },
            HttpStage::SendRotate => "POST /v1/admin/rotate-waitpoint-secret".to_owned(),
            HttpStage::DecodeRotate => "decode rotate-waitpoint-secret response body".to_owned(),
            HttpStage::ReadRotateError { status } => {
                let mut out = "read rotate-waitpoint-secret error response body (status ".to_owned();
                out.append(numbers::u64_text(status as u64).as_str());
                out.append(")");
                out
            },
        }
    }

    /// A fault of a call.
    pub fn fault(self, source: HttpFault) -> (r: SdkError)
        ensures
            r@ == (SdkErrorView::Http { source: source@, context: self.label_spec() }),
    {
        SdkError::Http { source, context: self.label() }
    }
}

// ── Requests and responses ──

/// A request to rotate the waitpoint secret.
#[derive(Debug)]
pub struct RotateWaitpointSecretRequest {
    /// Name of the new key. Not empty, and without `:`.
    pub new_kid: String,
    /// The new secret in hexadecimal digits, an even number of them.
    pub new_secret_hex: String,
}

/// What a rotation did.
#[derive(Debug, PartialEq, Eq)]
pub struct RotateWaitpointSecretResponse {
    /// Number of partitions that took the new secret.
    pub rotated: u16,
    /// Partitions that did not.
    pub failed: Vec<u16>,
    pub new_kid: String,
}

/// A worker's request for a grant.
#[derive(Debug)]
pub struct ClaimForWorkerRequest {
    pub worker_id: String,
    pub lane_id: String,
    pub worker_instance_id: String,
    pub capabilities: Vec<String>,
    pub grant_ttl_ms: u64,
}

/// The server's answer to a worker's request for a grant.
#[derive(Debug)]
pub struct ClaimForWorkerResponse {
    pub execution_id: String,
    pub partition_family: String,
    pub partition_index: u16,
    pub grant_key: String,
    pub expires_at_ms: u64,
}

/// The family of partitions of a word.
pub open spec fn family_of(s: Seq<char>) -> Option<PartitionFamily> {
    if s == "flow"@ {
        Some(PartitionFamily::Flow)
    } else if s == "execution"@ {
        Some(PartitionFamily::Execution)
    } else if s == "budget"@ {
        Some(PartitionFamily::Budget)
    } else if s == "quota"@ {
        Some(PartitionFamily::Quota)
    } else {
        None
    }
}

/// The error for a response that client and server read differently.
pub open spec fn malformed(message: Seq<char>) -> SdkErrorView {
    SdkError::AdminApi {
        status: 200,
        message,
        kind: Some("malformed_response"@),
        retryable: Some(false),
        raw_body: ""@,
    }
}

fn malformed_response(message: String) -> (r: SdkError)
    ensures
        r@ == malformed(message@),
{
    SdkError::AdminApi {
        status: 200,
        message,
        kind: Some("malformed_response".to_owned()),
        retryable: Some(false),
        raw_body: "".to_owned(),
    }
}

impl ClaimForWorkerResponse {
    /// Why the response is no grant, if it is none.
    pub open spec fn refusal(self) -> Option<SdkErrorView> {
        match ids::execution_id_of(self.execution_id@) {
            Err(e) => Some(
                malformed(
                    "claim_for_worker: server returned malformed execution_id '"@
                        + self.execution_id@ + "': "@ + e,
                ),
            ),
            Ok(_) => match family_of(self.partition_family@) {
                None => Some(
                    malformed(
                        "claim_for_worker: unknown partition_family '"@ + self.partition_family@
                            + "'"@,
                    ),
                ),
                Some(_) => None,
            },
        }
    }

    /// The grant in the response. Its partition is given by the hash tag.
    pub fn into_grant(self) -> (r: Result<ClaimGrant, SdkError>)
        ensures
            match self.refusal() {
                Some(e) => r matches Err(x) && x@ == e,
                None => r matches Ok(g) && g.execution_id@ == self.execution_id@
                    && g.partition_key@ == (Partition {
                    family: family_of(self.partition_family@)->0,
                    index: self.partition_index,
                }).tag_spec() && g.grant_key == self.grant_key && g.expires_at_ms
                    == self.expires_at_ms,
            },
    {
        let execution_id = match ExecutionId::parse(self.execution_id.as_str()) {
            Ok(id) => id,
            Err(e) => {
                let mut m =
                    "claim_for_worker: server returned malformed execution_id '".to_owned();
                m.append(self.execution_id.as_str());
                m.append("': ");
                m.append(e.as_str());
                return Err(malformed_response(m));
            },
        };
        let word = self.partition_family.as_str();
        let family = if text::same(word, "flow") {
            PartitionFamily::Flow
        } else if text::same(word, "execution") {
            PartitionFamily::Execution
        } else if text::same(word, "budget") {
            PartitionFamily::Budget
        } else if text::same(word, "quota") {
            PartitionFamily::Quota
        } else {
            let mut m = "claim_for_worker: unknown partition_family '".to_owned();
            m.append(word);
            m.append("'");
            return Err(malformed_response(m));
        };
        Ok(
            ClaimGrant {
                execution_id,
                partition_key: Partition { family, index: self.partition_index }.hash_tag(),
                grant_key: self.grant_key,
                expires_at_ms: self.expires_at_ms,
            },
        )
    }
}

} // verus!
