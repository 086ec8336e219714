//! Replies of Codex: refusals, their bodies, and the opening of a stream.

use csswitch_gateway::codex_transport::{
    classify_response_prefix, parse_request_id, parse_retry_after, reduce_failure_body,
    request_headers, BodyEvent, CodexOpening, FailureBodyCollector, FailureBodyFacts, PendingBytes,
    ResponseHead, ResponsePrefixKind, SendOutcome, FAILURE_BODY_LIMIT,
};
use csswitch_gateway::failure_json::{FailureJsonScanner, MAX_DEPTH, MAX_FIELDS};
use csswitch_gateway::provider_failure::{
    ErrorCode, ErrorParam, FailureObservation, NetworkKind, RateKind, RequestId,
};

fn head(status: u16) -> ResponseHead {
    ResponseHead {
        status,
        retry_after: None,
        request_id: None,
        content_type: None,
        cf_mitigated: None,
        content_length: None,
    }
}

/// Opens a reply whose whole body comes in one chunk.
fn open(head: ResponseHead, body: &[u8]) -> CodexOpening {
    let mut opening = CodexOpening::open_responses(SendOutcome::Head(head), false);
    let mut chunks = vec![body.to_vec()];
    loop {
        let event = match chunks.pop() {
            Some(chunk) if !chunk.is_empty() => BodyEvent::Chunk(chunk),
            _ => BodyEvent::End,
        };
        opening = match opening {
            CodexOpening::ReadFailureBody(read) => read.on_body(event),
            CodexOpening::Sniff(read) => read.on_body(event),
            done => return done,
        };
    }
}

#[test]
fn single_post_uses_codex_headers_and_preserves_body() {
    let body = b"{\"stream\":true}".to_vec();
    let endpoint = "http://127.0.0.1:9/responses";
    let begun =
        CodexOpening::begin(endpoint, "access-secret", "account-secret", false, body.clone());
    let CodexOpening::Post(post) = begun else { panic!("a request must be sent") };
    assert_eq!(post.endpoint, endpoint);
    assert_eq!(post.body, body);
    let headers = post.headers;
    let find = |name: &str| {
        headers
            .iter()
            .find(|header| header.name.eq_ignore_ascii_case(name))
            .map(|header| (header.value.as_str(), header.sensitive))
    };
    assert_eq!(find("authorization"), Some(("Bearer access-secret", true)));
    assert_eq!(find("chatgpt-account-id"), Some(("account-secret", true)));
    assert_eq!(find("originator"), Some(("codex_cli_rs", false)));
    assert!(find("user-agent").unwrap().0.starts_with("codex_cli_rs"));
    assert_eq!(find("accept"), Some(("text/event-stream", false)));
    assert_eq!(headers.len(), 6);

    let mut labelled = head(200);
    labelled.content_type = Some("text/event-stream; charset=utf-8".into());
    assert!(matches!(
        open(labelled, b""),
        CodexOpening::Opened { pending } if pending.is_empty()
    ));
}

#[test]
fn responses_lite_request_sets_lite_header() {
    let headers = request_headers("access-secret", "account-secret", true).ok().unwrap();
    assert!(headers.iter().any(|header| header.name
        == "x-openai-internal-codex-responses-lite"
        && header.value == "true"));
}

#[test]
fn secrets_that_no_header_can_carry_are_refused_before_anything_is_sent() {
    let error = request_headers("bad\ntoken", "account", false).err().unwrap();
    assert_eq!(error.status, 401);
    assert_eq!(error.detail, "Codex authorization is invalid");
    let error = request_headers("token", "bad\raccount", false).err().unwrap();
    assert_eq!(error.detail, "Codex account authorization is invalid");
}

#[test]
fn upstream_errors_and_content_type_fail_without_a_second_post() {
    let mut json = head(200);
    json.content_type = Some("application/json".into());
    for (head, body) in [(head(401), b"".as_slice()), (json, b"{}".as_slice())] {
        let CodexOpening::Rejected(error) = open(head, body) else {
            panic!("neither reply is a stream")
        };
        if error.upstream_status == Some(401) {
            assert_eq!(error.status, 401);
        } else {
            assert_eq!(error.status, 502);
        }
    }
}

#[test]
fn unexpected_content_type_is_classified_without_exposing_the_body() {
    for (content_type, mitigated, body, expected) in [
        (
            Some("text/html"),
            None,
            "private-html-body",
            "Codex upstream returned HTML instead of an event stream",
        ),
        (
            Some("application/json"),
            None,
            "private-json-body",
            "Codex upstream returned JSON instead of an event stream",
        ),
        (
            Some("text/html"),
            Some("challenge"),
            "private-challenge-body",
            "Codex upstream returned a Cloudflare challenge response",
        ),
        (
            None,
            None,
            "private-missing-content-type-body",
            "Codex upstream returned an unsupported response body",
        ),
    ] {
        let mut reply = head(200);
        reply.content_type = content_type.map(str::to_owned);
        reply.cf_mitigated = mitigated.map(str::to_owned);
        reply.content_length = Some(body.len() as u64);
        let CodexOpening::Rejected(error) = open(reply, body.as_bytes()) else {
            panic!("not a stream")
        };
        assert_eq!(error.detail, expected);
        assert!(!error.detail.contains(body));
    }
}

#[test]
fn missing_content_type_accepts_a_bounded_sse_prefix_without_reposting() {
    let event = b"data: {\"type\":\"response.created\"}\n\n";
    let CodexOpening::Opened { pending } = open(head(200), event) else {
        panic!("an event stream opens")
    };
    assert_eq!(pending, event);
    assert_eq!(classify_response_prefix(b"data: x"), ResponsePrefixKind::Sse);
}

#[test]
fn failed_response_extracts_only_allowlisted_facts() {
    let body = r#"{"error":{"type":"rate_limit_error","code":"rate_limit_exceeded","param":"other","message":"BODY_SECRET"}}"#;
    let mut reply = head(429);
    reply.retry_after = Some("90".into());
    reply.request_id = Some("Req_01.a:b-c".into());
    reply.content_length = Some(body.len() as u64);
    let CodexOpening::Rejected(error) = open(reply, body.as_bytes()) else {
        panic!("synthetic 429 must fail")
    };
    assert_eq!(
        error.observation(),
        FailureObservation::Http {
            status: 429,
            rate_kind: Some(RateKind::RateLimit),
            retry_after_seconds: Some(90),
            request_id: RequestId::new("Req_01.a:b-c"),
            error_code: ErrorCode::RateLimitExceeded,
            error_param: ErrorParam::Other,
        }
    );
    let diagnostic = format!("{} {}", error.debug_text(), error.message());
    assert!(!diagnostic.contains("BODY_SECRET"));
    assert!(!diagnostic.contains("Req_01.a:b-c"));
}

#[test]
fn oversized_failure_frame_is_not_retained_or_parsed_by_the_caller() {
    let mut body = br#"{"error":{"code":"unsupported_value","param":"tool_choice"}}"#.to_vec();
    body.resize(FAILURE_BODY_LIMIT + 1, b' ');
    let mut collector = FailureBodyCollector::new(Some(FAILURE_BODY_LIMIT as u64))
        .expect("the maximum bounded input must be admitted");
    assert!(!collector.retain(&body));
    assert_eq!(collector.retained_len(), 0);
    assert!(FailureBodyCollector::new(Some(body.len() as u64)).is_none());

    let mut reply = head(400);
    reply.content_length = Some(body.len() as u64);
    let CodexOpening::Rejected(error) = open(reply, &body) else {
        panic!("synthetic oversized rejection must fail")
    };
    assert_eq!(
        error.observation(),
        FailureObservation::Http {
            status: 400,
            rate_kind: None,
            retry_after_seconds: None,
            request_id: None,
            error_code: ErrorCode::Absent,
            error_param: ErrorParam::Absent,
        }
    );
}

#[test]
fn requests_that_get_no_reply_are_told_apart() {
    for (outcome, status, observation) in [
        (SendOutcome::Failed, 502, FailureObservation::Network(NetworkKind::Connect)),
        (SendOutcome::TimedOut, 504, FailureObservation::Network(NetworkKind::Timeout)),
        (SendOutcome::RuntimeFailed, 502, FailureObservation::Network(NetworkKind::Connect)),
    ] {
        let CodexOpening::Rejected(error) = CodexOpening::open_responses(outcome, false) else {
            panic!("no reply, no stream")
        };
        assert_eq!(error.status, status);
        assert_eq!(error.upstream_status, None);
        assert_eq!(error.observation(), observation);
    }
    let CodexOpening::Rejected(error) = CodexOpening::open_responses(SendOutcome::Cancelled, true)
    else {
        panic!("a cancelled request has no stream")
    };
    assert!(error.cancelled);
    assert_eq!(error.observation(), FailureObservation::Cancelled);
}

#[test]
fn pending_bytes_are_handed_on_in_order() {
    let mut pending = PendingBytes::new(b"abcdef".to_vec());
    assert_eq!(pending.take(4), b"abcd");
    assert!(!pending.is_empty());
    assert_eq!(pending.take(4), b"ef");
    assert!(pending.is_empty());
    assert_eq!(pending.take_from_chunk(b"gh".to_vec(), 1), b"g");
    assert_eq!(pending.take(8), b"h");
}

#[test]
fn quota_wins_when_type_or_code_proves_insufficient_quota() {
    for body in [
        r#"{"error":{"type":"insufficient_quota","code":"other"}}"#,
        r#"{"error":{"type":"other","code":"insufficient_quota"}}"#,
    ] {
        let facts = reduce_failure_body(body.as_bytes());
        assert_eq!(facts.rate_kind, Some(RateKind::Quota));
        assert_eq!(facts.error_code, ErrorCode::InsufficientQuota);
    }
}

#[test]
fn repair_signal_requires_exact_code_and_parameter() {
    let exact =
        reduce_failure_body(br#"{"error":{"code":"unsupported_value","param":"tool_choice"}}"#);
    assert_eq!(exact.error_code, ErrorCode::UnsupportedValue);
    assert_eq!(exact.error_param, ErrorParam::ToolChoice);
    let escaped = reduce_failure_body(
        br#"{"error":{"code":"unsupported_v\u0061lue","param":"tool_cho\u0069ce"}}"#,
    );
    assert_eq!(escaped.error_code, ErrorCode::UnsupportedValue);
    assert_eq!(escaped.error_param, ErrorParam::ToolChoice);

    for body in [
        br#"{"error":{"message":"unsupported_value tool_choice"}}"#.as_slice(),
        br#"{"error":{"code":"unsupported_value","param":"tools"}}"#.as_slice(),
        br#"{"error":{"code":"other","param":"tool_choice"}}"#.as_slice(),
    ] {
        let facts = reduce_failure_body(body);
        assert!(
            facts.error_code != ErrorCode::UnsupportedValue
                || facts.error_param != ErrorParam::ToolChoice
        );
    }
}

#[test]
fn retry_after_and_request_id_parsers_are_strict() {
    assert_eq!(parse_retry_after(Some("0")), Some(0));
    assert_eq!(parse_retry_after(Some("60")), Some(60));
    assert_eq!(parse_retry_after(Some(" 7 ")), None);
    assert_eq!(parse_retry_after(Some("1.5")), None);
    assert_eq!(
        parse_retry_after(Some("Wed, 29 Jul 2026 00:00:00 GMT")),
        None
    );
    assert_eq!(parse_retry_after(None), None);
    assert_eq!(
        parse_request_id(Some("req:01-A_b.c")).unwrap().as_str(),
        "req:01-A_b.c"
    );
    assert!(parse_request_id(Some("request id")).is_none());
    assert!(parse_request_id(Some(&"r".repeat(257))).is_none());
}

#[test]
fn failure_body_reduction_never_reads_semantics_beyond_16_kib() {
    let mut body = vec![b' '; FAILURE_BODY_LIMIT];
    body.extend_from_slice(br#"{"error":{"code":"unsupported_value","param":"tool_choice"}}"#);
    let facts = reduce_failure_body(&body);
    assert_eq!(facts.error_code, ErrorCode::Absent);
    assert_eq!(facts.error_param, ErrorParam::Absent);
}

#[test]
fn failure_projection_uses_only_fixed_or_borrowed_parser_state() {
    assert!(!std::mem::needs_drop::<FailureJsonScanner<'static>>());
    assert!(!std::mem::needs_drop::<FailureBodyCollector>());
    assert!(
        std::mem::size_of::<FailureJsonScanner<'static>>() <= 5 * std::mem::size_of::<usize>()
    );
}

#[test]
fn near_limit_late_escape_reduces_directly_to_closed_facts() {
    let prefix = br#"{"error":{"code":""#;
    let suffix = br#"\u0061","param":"tool_choice"}}"#;
    let fill = FAILURE_BODY_LIMIT - prefix.len() - suffix.len();
    let mut body = Vec::with_capacity(FAILURE_BODY_LIMIT);
    body.extend_from_slice(prefix);
    body.resize(body.len() + fill, b'x');
    body.extend_from_slice(suffix);
    assert_eq!(body.len(), FAILURE_BODY_LIMIT);

    let facts = reduce_failure_body(&body);

    assert_eq!(facts.error_code, ErrorCode::Other);
    assert_eq!(facts.error_param, ErrorParam::ToolChoice);
}

#[test]
fn over_budget_failure_body_is_not_parsed_or_projected() {
    let mut body = br#"{"error":{"code":"unsupported_value","param":"tool_choice"}}"#.to_vec();
    body.resize(FAILURE_BODY_LIMIT + 1, b' ');

    let facts = reduce_failure_body(&body);

    assert_eq!(facts.error_code, ErrorCode::Absent);
    assert_eq!(facts.error_param, ErrorParam::Absent);
}

#[test]
fn failure_projection_ignores_nested_unknown_data_without_retaining_it() {
    let facts = reduce_failure_body(
        br#"{"meta":{"error":{"code":"unsupported_value"},"items":[{"private":"x"}]},"error":{"unknown":{"deep":[true,null,{"secret":"y"}]},"type":"rate_limit_error","code":"rate_limit_exceeded","param":"other"}}"#,
    );
    assert_eq!(facts.rate_kind, Some(RateKind::RateLimit));
    assert_eq!(facts.error_code, ErrorCode::RateLimitExceeded);
    assert_eq!(facts.error_param, ErrorParam::Other);
}

#[test]
fn failure_projection_rejects_malformed_json_and_invalid_unicode_escapes() {
    for body in [
        br#"{"error":{"code":"unsupported_value",}}"#.as_slice(),
        br#"{"error":{"code":"unsupported_value"}} trailing"#.as_slice(),
        br#"{"error":{"code":"unsupported_\uD800value"}}"#.as_slice(),
        br#"{"error":{"code":17}}"#.as_slice(),
    ] {
        assert_eq!(reduce_failure_body(body), FailureBodyFacts::empty());
    }
}

#[test]
fn failure_projection_enforces_fixed_depth_and_field_limits() {
    let mut at_depth = String::from("{\"unknown\":");
    at_depth.push_str(&"[".repeat(MAX_DEPTH - 1));
    at_depth.push_str("null");
    at_depth.push_str(&"]".repeat(MAX_DEPTH - 1));
    at_depth.push_str(",\"error\":{\"code\":\"unsupported_value\"}}");
    assert_eq!(
        reduce_failure_body(at_depth.as_bytes()).error_code,
        ErrorCode::UnsupportedValue
    );

    let mut too_deep = String::from("{\"unknown\":");
    too_deep.push_str(&"[".repeat(MAX_DEPTH));
    too_deep.push_str("null");
    too_deep.push_str(&"]".repeat(MAX_DEPTH));
    too_deep.push_str(",\"error\":{\"code\":\"unsupported_value\"}}");
    assert_eq!(
        reduce_failure_body(too_deep.as_bytes()),
        FailureBodyFacts::empty()
    );

    let fields = (0..MAX_FIELDS)
        .map(|index| format!("\"f{index}\":null"))
        .collect::<Vec<_>>()
        .join(",");
    let too_many = format!("{{{fields},\"error\":{{\"code\":\"unsupported_value\"}}}}");
    assert_eq!(
        reduce_failure_body(too_many.as_bytes()),
        FailureBodyFacts::empty()
    );
}

#[test]
fn refusals_are_shown_without_their_observation() {
    let CodexOpening::Rejected(error) = open(head(503), b"") else {
        panic!("a refusal must be rejected");
    };
    assert_eq!(
        error.debug_text(),
        "CodexTransportError { status: 502, upstream_status: Some(503), detail: \"Codex upstream rejected the request\", cancelled: false }"
    );
    assert_eq!(error.message(), "Codex upstream rejected the request");
    let opening = CodexOpening::open_responses(SendOutcome::Cancelled, true);
    let CodexOpening::Rejected(error) = opening else {
        panic!("a cancelled request must be rejected");
    };
    assert_eq!(
        error.debug_text(),
        "CodexTransportError { status: 499, upstream_status: None, detail: \"Codex request was cancelled\", cancelled: true }"
    );
}

#[test]
fn spaces_behind_an_error_body_change_nothing_up_to_the_limit() {
    let body = br#"{"error":{"code":"unsupported_value","param":"tool_choice"}}"#;
    let facts = reduce_failure_body(body);
    assert_ne!(facts, FailureBodyFacts::empty());
    let mut padded = body.to_vec();
    padded.resize(FAILURE_BODY_LIMIT, b' ');
    assert_eq!(reduce_failure_body(&padded), facts);
    padded.push(b' ');
    assert_eq!(reduce_failure_body(&padded), FailureBodyFacts::empty());
    let mut broken = body[..body.len() - 1].to_vec();
    broken.resize(512, b' ');
    assert_eq!(reduce_failure_body(&broken), FailureBodyFacts::empty());
}

#[test]
fn account_that_no_header_carries_is_refused_before_anything_is_sent() {
    let begin = |token: &str, account: &str| {
        CodexOpening::begin("http://127.0.0.1:9/responses", token, account, true, vec![1])
    };
    assert!(matches!(begin("bad\ntoken", "account"), CodexOpening::Rejected(error)
        if error.detail == "Codex authorization is invalid"));
    assert!(matches!(begin("token", "bad\raccount"), CodexOpening::Rejected(error)
        if error.detail == "Codex account authorization is invalid"));
    assert!(matches!(begin("token", "account"), CodexOpening::Post(post)
        if post.headers.len() == 7 && post.body == [1]));
}
