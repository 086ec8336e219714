//! Requests to providers that are reached with an API key, and what comes of them.

use csswitch_gateway::codex_transport::parse_retry_after;
use csswitch_gateway::config::{GatewayConfig, GatewayIntent};
use csswitch_gateway::duration::Duration;
use csswitch_gateway::messages::{
    auth_headers, get, get_once, inference_headers, inference_operation_timeout,
    models_timeout_secs, models_timeouts, open_stream, post_nonstream, post_once,
    project_api_failure_body, remaining_time, standalone_inference_timeouts, BodyReadFailure,
    BodyReader, ByteEvent, FirstLine, GetStep, ModelsTimeouts, PostOutcome, ReadEvent, Refusal,
    Reply, StreamOutcome, UpstreamBody, UpstreamError, WholeOutcome,
};
use csswitch_gateway::provider_contracts::{
    load_runtime_contract, CachePolicy, InferenceRetryConfig, ProviderContract,
    ProviderContractCatalog, TimeoutPolicy,
};
use csswitch_gateway::provider_failure::{
    ErrorCode, ErrorParam, FailureObservation, NetworkKind, RateKind, RequestId,
};
use csswitch_gateway::redaction::{redact_error_body, MAX_ERROR_BODY_BYTES};

fn test_config(upstream_url: String) -> GatewayConfig {
    GatewayConfig {
        provider: "deepseek".to_string(),
        port: 0,
        auth_secret: None,
        api_key: Some("fake-key".to_string()),
        upstream_url,
        models_url: None,
        relay_thinking: None,
        provider_contract: None,
        intent: GatewayIntent::Formal,
        shim_mode: "off".to_string(),
        codex_state_root: None,
        codex_contract: None,
        launch_id: "timeout-test".to_string(),
        skill_data_dir: None,
        skill_bridge_dir: None,
        skill_bridge_token: None,
    }
}

fn contract(id: &str, adapter: &str, transport: &str, scheme: &str, join: &str) -> ProviderContract {
    let statuses: &[&str] = if transport == "anthropic_messages" {
        &["408", "429", "5xx"]
    } else {
        &["408", "409", "429", "5xx"]
    };
    ProviderContract {
        id: id.into(),
        template_ids: vec![id.into()],
        api_formats: vec![transport.into()],
        adapter: adapter.into(),
        auth_mode: "api_key".into(),
        auth_scheme: scheme.into(),
        credential_sources: vec!["profile".into()],
        default_credential_source: "profile".into(),
        model_policies: vec!["static".into()],
        default_model_policy: "static".into(),
        model_discovery: "models_endpoint".into(),
        transport: transport.into(),
        endpoint_policy: "profile".into(),
        endpoint_join: join.into(),
        api_key_env: Some("PROVIDER_API_KEY".into()),
        scratch_policy: "profile".into(),
        thinking_policy: "".into(),
        inference_retry: Some(InferenceRetryConfig {
            max_posts: 3,
            fallback_delays_ms: [500, 1_000],
            retry_after_cap_seconds: 60,
            retry_statuses: statuses.iter().map(|status| status.to_string()).collect(),
            retry_network_kinds: vec!["connect".into(), "timeout".into()],
        }),
        upstream_client_version: None,
        timeouts: TimeoutPolicy { connect_ms: 10_000, total_ms: 30_000, read_idle_ms: 300_000 },
        cache: CachePolicy { normal_ttl_seconds: 300, stale_ttl_seconds: 86_400 },
    }
}

fn oversized_error_body_with_late_insufficient_quota() -> Vec<u8> {
    let mut body = vec![b' '; MAX_ERROR_BODY_BYTES as usize + 1];
    body.extend_from_slice(br#"{"error":{"code":"insufficient_quota"}}"#);
    body
}

#[test]
fn inference_and_models_timeout_contracts_are_separate() {
    let inference = standalone_inference_timeouts();
    assert_eq!(inference.connect, Duration::from_secs(300));
    assert_eq!(inference.total, Duration::from_secs(300));
    assert_eq!(inference.read_idle, Duration::from_secs(300));

    assert_eq!(models_timeout_secs("qwen"), 300);
    assert_eq!(models_timeout_secs("openai-custom"), 300);
    assert_eq!(models_timeout_secs("openai-responses"), 300);
    assert_eq!(models_timeout_secs("deepseek"), 120);
    assert_eq!(models_timeout_secs("relay"), 120);

    let catalog = ProviderContractCatalog {
        schema_version: 1,
        contracts: vec![contract(
            "deepseek",
            "deepseek",
            "anthropic_messages",
            "anthropic_x_api_key",
            "anthropic_v1",
        )],
    };
    let mut managed = test_config("http://127.0.0.1:9/v1/messages".into());
    managed.provider_contract =
        Some(load_runtime_contract(&catalog, "{}", "deepseek", None, None).unwrap());
    assert_eq!(
        models_timeouts(&managed),
        ModelsTimeouts {
            connect: Duration::from_secs(10),
            total: Duration::from_secs(30),
            read_idle: Duration::from_secs(300),
        }
    );
}

#[test]
fn finite_body_read_obeys_the_remaining_cumulative_deadline() {
    let total = Duration::from_millis(120);
    assert_eq!(
        remaining_time(total, Duration::from_millis(70)),
        Ok(Duration::from_millis(50))
    );
    assert_eq!(
        remaining_time(total, Duration::from_millis(121)),
        Err(BodyReadFailure::Deadline)
    );
}

#[test]
fn json_error_strings_redact_generic_tokens_without_truncation() {
    let safe = redact_error_body(
        br#"{"error":{"message":"Bearer other-bearer and sk-other-key and configured-key","detail":"ok"}}"#,
        "configured-key",
    );
    assert!(!safe.contains("other-bearer"));
    assert!(!safe.contains("other-key"));
    assert!(!safe.contains("configured-key"));
    assert!(safe.contains("Bearer [REDACTED]"));
    assert!(safe.contains("sk-[REDACTED]"));
}

#[test]
fn sensitive_fields_and_keys_are_masked() {
    let safe = redact_error_body(br#"{"api_key":"x","list":["k-1"],"n":1}"#, "k-1");
    let value: serde_json::Value = serde_json::from_str(&safe).unwrap();
    assert_eq!(value["api_key"], "[REDACTED]");
    assert_eq!(value["list"][0], "[REDACTED]");
    assert_eq!(value["n"], 1);
    assert_eq!(redact_error_body(b"plain k-1 text", "k-1"), "plain [REDACTED] text");
    assert_eq!(redact_error_body(&[0xff, b'a'], "k-1"), "\u{fffd}a");
}

#[test]
fn stream_requires_sse_content_type_before_success() {
    let error = open_stream(
        StreamOutcome::Opened { status: 200, content_type: Some("application/json".into()) },
        "fake-key",
    )
    .unwrap_err();
    assert_eq!(error.status, 502);
    assert_eq!(error.upstream_status, Some(200));
    assert!(error.detail.contains("non-SSE"));
}

#[test]
fn upstream_http_status_is_preserved_and_error_body_is_bounded_and_redacted() {
    let key = "fake-key";
    let body = format!(
        "{{\"error\":{{\"message\":\"Bearer other-secret and sk-other-secret and Bearer {key}\",\"api_key\":\"{key}\",\"padding\":\"{}\"}}}}",
        "x".repeat(20_000)
    );
    let error = post_nonstream(
        WholeOutcome::Replied(Reply {
            status: 405,
            content_type: Some("application/json".into()),
            body: Ok(body.into_bytes()),
        }),
        key,
    )
    .unwrap_err();
    assert_eq!(error.status, 405);
    assert_eq!(error.upstream_status, Some(405));
    assert!(!error.detail.contains(key));
    assert!(!error.detail.contains("other-secret"));
    assert!(error.detail.len() < 17_000);
    assert!(error.detail.contains("truncated"));
}

#[test]
fn api_key_post_once_projects_only_closed_failure_facts() {
    let body = br#"{"error":{"code":"insufficient_quota","message":"secret upstream text"}}"#;
    let observation = post_once(PostOutcome::Refused(Refusal {
        status: 429,
        retry_after: Some("90".into()),
        request_id: Some("Req_01.a:b-c".into()),
        body: Ok(body.to_vec()),
    }))
    .expect_err("429 is a closed observation");
    assert_eq!(
        observation,
        FailureObservation::Http {
            status: 429,
            rate_kind: Some(RateKind::Quota),
            retry_after_seconds: Some(90),
            request_id: RequestId::new("Req_01.a:b-c"),
            error_code: ErrorCode::InsufficientQuota,
            error_param: ErrorParam::Absent,
        }
    );
    assert!(!format!("{observation:?}").contains("secret upstream text"));
}

#[test]
fn requests_that_were_not_sent_are_network_failures() {
    let kinds = [
        (PostOutcome::NotBuilt, NetworkKind::Connect),
        (PostOutcome::NotSent { is_timeout: true, is_connect: true }, NetworkKind::Timeout),
        (PostOutcome::NotSent { is_timeout: false, is_connect: true }, NetworkKind::Connect),
        (PostOutcome::NotSent { is_timeout: false, is_connect: false }, NetworkKind::Read),
    ];
    for (outcome, kind) in kinds {
        assert_eq!(post_once(outcome), Err(FailureObservation::Network(kind)));
    }
    assert_eq!(post_once(PostOutcome::Opened), Ok(()));
    let error = post_nonstream(WholeOutcome::Failed("refused".into()), "k").unwrap_err();
    assert_eq!((error.status, error.upstream_status), (502, None));
    assert_eq!(error.detail, "refused");
}

#[test]
fn successful_headers_open_before_body_or_protocol_failure() {
    assert!(post_once(PostOutcome::Opened).is_ok());
    let opened = Reply {
        status: 200,
        content_type: Some("application/json".into()),
        body: Err(BodyReadFailure::Io("unexpected end".into())),
    };
    let observation = opened.into_nonstream().unwrap_err();
    assert!(matches!(
        observation,
        FailureObservation::Network(NetworkKind::Read)
    ));
}

#[test]
fn failure_projection_bounds_body_and_validates_retry_headers() {
    let cases = [
        (
            br#"{"error":{"code":"insufficient_quota"}}"#.as_slice(),
            (Some(RateKind::Quota), ErrorCode::InsufficientQuota),
        ),
        (
            br#"{"error":{"type":"insufficient_quota"}}"#.as_slice(),
            (Some(RateKind::Quota), ErrorCode::InsufficientQuota),
        ),
        (
            br#"{"error":{"code":"rate_limit_exceeded"}}"#.as_slice(),
            (Some(RateKind::RateLimit), ErrorCode::RateLimitExceeded),
        ),
        (
            br#"{"error":{"type":"rate_limit_exceeded"}}"#.as_slice(),
            (Some(RateKind::RateLimit), ErrorCode::RateLimitExceeded),
        ),
        (
            br#"{"error":{"code":"rate_limit_error"}}"#.as_slice(),
            (Some(RateKind::RateLimit), ErrorCode::RateLimitError),
        ),
        (
            br#"{"error":{"type":"rate_limit_error"}}"#.as_slice(),
            (Some(RateKind::RateLimit), ErrorCode::RateLimitError),
        ),
    ];
    for (body, expected) in cases {
        assert_eq!(project_api_failure_body(body), expected);
    }

    let oversized = oversized_error_body_with_late_insufficient_quota();
    assert_eq!(
        project_api_failure_body(&oversized),
        (None, ErrorCode::Absent)
    );
    assert_eq!(parse_retry_after(Some("60")), Some(60));
    assert_eq!(parse_retry_after(Some(" 7 ")), None);
    assert_eq!(
        parse_retry_after(Some("Wed, 30 Jul 2026 00:00:00 GMT")),
        None
    );
    assert!(RequestId::new("bad/request").is_none());
}

#[test]
fn first_byte_idle_timeout_keeps_upstream_error_contract() {
    let line = FirstLine { bytes: Vec::new() };
    let Err(Err(error)) = line.read_first_line(ByteEvent::Failed("timed out".into())) else {
        panic!("a failed read has no line")
    };
    assert_eq!(error.status, 502);
    assert_eq!(error.upstream_status, None);
    assert!(!error.detail.is_empty());
}

#[test]
fn first_line_ends_at_a_newline_or_at_the_end() {
    let mut line = FirstLine { bytes: Vec::new() };
    for byte in b"ok" {
        line = line.read_first_line(ByteEvent::Byte(*byte)).ok().unwrap();
    }
    let Err(Ok(bytes)) = line.read_first_line(ByteEvent::Byte(b'\n')) else {
        panic!("a newline ends the line")
    };
    assert_eq!(bytes, b"ok\n");
    let empty = FirstLine { bytes: Vec::new() };
    let Err(Err(error)) = empty.read_first_line(ByteEvent::End) else {
        panic!("an empty reply has no line")
    };
    assert_eq!(error.detail, "upstream 200 but empty body");
}

#[test]
fn bodies_are_read_up_to_their_limit() {
    let reader = BodyReader::new(Some(3));
    assert_eq!(reader.capacity(8), 3);
    let reader = reader.on_read(ReadEvent::Chunk(b"ab".to_vec())).ok().unwrap();
    assert_eq!(reader.capacity(8), 1);
    let Err(Ok(body)) = reader.on_read(ReadEvent::End) else {
        panic!("the end brings the body")
    };
    assert_eq!(body, b"ab");
}

#[test]
fn auth_headers_follow_the_scheme() {
    let mut cfg = test_config("http://127.0.0.1:9".into());
    assert_eq!(
        auth_headers(&cfg),
        vec![
            ("anthropic-version", "2023-06-01".to_string()),
            ("x-api-key", "fake-key".to_string()),
        ]
    );
    cfg.provider = "qwen".into();
    assert_eq!(auth_headers(&cfg), vec![("authorization", "Bearer fake-key".to_string())]);
    let headers = inference_headers(&cfg, "agent/1");
    assert_eq!(headers[0], ("content-type", "application/json".to_string()));
    assert_eq!(headers[1], ("user-agent", "agent/1".to_string()));
    assert_eq!(headers.len(), 3);
}

#[test]
fn operation_timeouts_bound_whole_replies_only() {
    let mut timeouts = standalone_inference_timeouts();
    timeouts.total = Duration::from_secs(30);
    assert_eq!(inference_operation_timeout(timeouts, true), Duration::from_secs(30));
    assert_eq!(inference_operation_timeout(timeouts, false), Duration::from_secs(300));
}

#[test]
fn model_lists_are_asked_for_three_times_at_most() {
    let lost = || UpstreamError { status: 502, upstream_status: None, detail: "lost".into() };
    let GetStep::Again { attempt, delay } = get(1, Err(lost())) else {
        panic!("the first failure is followed by another request")
    };
    assert_eq!((attempt, delay), (2, Duration::from_millis(800)));
    let GetStep::Again { attempt, delay } = get(2, Err(lost())) else {
        panic!("the second failure is followed by another request")
    };
    assert_eq!((attempt, delay), (3, Duration::from_millis(1_600)));
    assert!(matches!(get(3, Err(lost())), GetStep::Done(Err(_))));
    let refused =
        UpstreamError { status: 404, upstream_status: Some(404), detail: "upstream 404".into() };
    assert!(matches!(get(1, Err(refused)), GetStep::Done(Err(_))));
    let body = UpstreamBody {
        status: 200,
        content_type: "application/json".into(),
        body: b"{}".to_vec(),
    };
    assert!(matches!(get(1, Ok(body)), GetStep::Done(Ok(_))));
}

#[test]
fn model_list_failures_are_told_apart() {
    let late = get_once(
        WholeOutcome::Replied(Reply {
            status: 200,
            content_type: None,
            body: Err(BodyReadFailure::Deadline),
        }),
        "k",
    )
    .unwrap_err();
    assert_eq!(late.detail, "upstream models response exceeded the total timeout");
    let broken = get_once(
        WholeOutcome::Replied(Reply {
            status: 200,
            content_type: None,
            body: Err(BodyReadFailure::Io("reset".into())),
        }),
        "k",
    )
    .unwrap_err();
    assert_eq!(broken.detail, "upstream response body read failed: reset");
    let refused = get_once(
        WholeOutcome::Replied(Reply { status: 404, content_type: None, body: Ok(Vec::new()) }),
        "k",
    )
    .unwrap_err();
    assert_eq!((refused.status, refused.upstream_status), (404, Some(404)));
    assert_eq!(refused.detail, "upstream 404");
    let whole = get_once(
        WholeOutcome::Replied(Reply { status: 200, content_type: None, body: Ok(b"[]".to_vec()) }),
        "k",
    )
    .unwrap();
    assert_eq!(whole.content_type, "application/json");
    assert_eq!(whole.body, b"[]");
}
