use flowfabric::admin::{
    answer_error, claim_answer, normalize_base_url, rotate_answer, AdminErrorBody, AnswerShape,
    ClaimForWorkerResponse, FlowFabricAdminClient, HttpStage,
};
use flowfabric::partition::PartitionFamily;
use flowfabric::sdk_error::{HttpFault, SdkError};

#[test]
fn base_url_strips_trailing_slash() {
    assert_eq!(normalize_base_url("http://x".into()), "http://x");
    assert_eq!(normalize_base_url("http://x/".into()), "http://x");
    assert_eq!(normalize_base_url("http://x///".into()), "http://x");
}

#[test]
fn normal_urls_stay_normal() {
    for url in ["", "/", "//", "http://x", "http://x//y/"] {
        let once = normalize_base_url(url.to_owned());
        assert!(!once.ends_with('/'));
        assert_eq!(normalize_base_url(once.clone()), once);
    }
}

#[test]
fn with_token_rejects_bad_header_chars() {
    let err = FlowFabricAdminClient::with_token("http://x".to_owned(), "tok\nevil").unwrap_err();
    assert!(matches!(err, SdkError::Config { .. }), "got: {err:?}");
}

#[test]
fn with_token_rejects_empty_or_whitespace() {
    for s in ["", " ", "\t\n ", "   "] {
        let err = FlowFabricAdminClient::with_token("http://x".to_owned(), s).unwrap_err();
        assert!(
            matches!(&err, SdkError::Config { message, .. } if message.contains("empty")),
            "token {s:?} should return Config(empty/whitespace); got: {err:?}"
        );
    }
}

#[test]
fn tokens_become_a_header() {
    let c = FlowFabricAdminClient::with_token("http://x/".to_owned(), "tok").unwrap();
    assert_eq!(c.base_url, "http://x");
    assert_eq!(c.authorization.as_deref(), Some("Bearer tok"));
    assert!(FlowFabricAdminClient::with_token("http://x".to_owned(), "t\u{e9}k").is_ok());
    assert!(FlowFabricAdminClient::with_token("http://x".to_owned(), "a\tb").is_ok());
    assert!(FlowFabricAdminClient::with_token("http://x".to_owned(), "a\u{7f}b").is_err());
}

#[test]
fn claim_url_escapes_the_worker() {
    let c = FlowFabricAdminClient::new("http://host:8080/base/".to_owned());
    assert!(c.authorization.is_none());
    assert_eq!(
        c.claim_url("w 1/x").unwrap(),
        "http://host:8080/base/v1/workers/w%201%2Fx/claim"
    );
    assert_eq!(c.rotate_url(), "http://host:8080/base/v1/admin/rotate-waitpoint-secret");
}

#[test]
fn claim_url_refuses_what_is_no_base() {
    let err = FlowFabricAdminClient::new("not a url".to_owned()).claim_url("w").unwrap_err();
    assert_eq!(
        err.text(),
        "config: admin_client.base_url: invalid base_url 'not a url': relative URL without a base"
    );
    let err = FlowFabricAdminClient::new("mailto:a@b".to_owned()).claim_url("w").unwrap_err();
    assert_eq!(
        err.text(),
        "config: admin_client.base_url: base_url cannot be a base URL: 'mailto:a@b'"
    );
}

#[test]
fn answers_are_sorted_by_status() {
    assert_eq!(claim_answer(204), AnswerShape::Nothing);
    assert_eq!(claim_answer(200), AnswerShape::Response);
    assert_eq!(claim_answer(503), AnswerShape::Error);
    assert_eq!(rotate_answer(204), AnswerShape::Response);
    assert_eq!(rotate_answer(300), AnswerShape::Error);
}

#[test]
fn error_bodies_are_flattened() {
    let body = AdminErrorBody {
        error: "valkey: timed out".to_owned(),
        kind: Some("IoError".to_owned()),
        retryable: Some(true),
    };
    match answer_error(500, "raw".to_owned(), Some(body)) {
        SdkError::AdminApi { status, message, kind, retryable, raw_body } => {
            assert_eq!(status, 500);
            assert_eq!(message, "valkey: timed out");
            assert_eq!(kind.as_deref(), Some("IoError"));
            assert_eq!(retryable, Some(true));
            assert_eq!(raw_body, "raw");
        }
        other => panic!("{other:?}"),
    }
    match answer_error(502, "<html>".to_owned(), None) {
        SdkError::AdminApi { message, kind, retryable, raw_body, .. } => {
            assert_eq!(message, "<html>");
            assert!(kind.is_none());
            assert!(retryable.is_none());
            assert_eq!(raw_body, "<html>");
        }
        other => panic!("{other:?}"),
    }
}

#[test]
fn faults_carry_their_stage() {
    let fault = HttpFault { timed_out: true, not_connected: false, text: "x".to_owned() };
    match (HttpStage::ReadClaimError { status: 503 }).fault(fault) {
        SdkError::Http { context, .. } => {
            assert_eq!(context, "read claim_for_worker error body (status 503)")
        }
        other => panic!("{other:?}"),
    }
}

fn sample_claim_response(family: &str) -> ClaimForWorkerResponse {
    ClaimForWorkerResponse {
        execution_id: "{fp:5}:11111111-1111-1111-1111-111111111111".to_owned(),
        partition_family: family.to_owned(),
        partition_index: 5,
        grant_key: "ff:exec:{fp:5}:11111111-1111-1111-1111-111111111111:claim_grant".to_owned(),
        expires_at_ms: 1_700_000_000_000,
    }
}

#[test]
fn into_grant_accepts_all_known_families() {
    for family in ["flow", "execution", "budget", "quota"] {
        let g = sample_claim_response(family)
            .into_grant()
            .unwrap_or_else(|e| panic!("family {family} should parse: {e:?}"));
        assert_eq!(g.partition().unwrap().index, 5);
        assert_eq!(g.expires_at_ms, 1_700_000_000_000);
    }
    let g = sample_claim_response("budget").into_grant().unwrap();
    assert_eq!(g.partition().unwrap().family, PartitionFamily::Budget);
}

#[test]
fn into_grant_rejects_unknown_family() {
    let resp = sample_claim_response("nonsense");
    let err = resp.into_grant().unwrap_err();
    match err {
        SdkError::AdminApi { message, kind, .. } => {
            assert!(message.contains("unknown partition_family"), "msg: {message}");
            assert_eq!(kind.as_deref(), Some("malformed_response"));
        }
        other => panic!("expected AdminApi, got {other:?}"),
    }
}

#[test]
fn into_grant_rejects_malformed_execution_id() {
    let mut resp = sample_claim_response("flow");
    resp.execution_id = "not-a-valid-eid".to_owned();
    let err = resp.into_grant().unwrap_err();
    match err {
        SdkError::AdminApi { message, kind, .. } => {
            assert!(message.contains("malformed execution_id"), "msg: {message}");
            assert_eq!(kind.as_deref(), Some("malformed_response"));
        }
        other => panic!("expected AdminApi, got {other:?}"),
    }
}
