//! Requests to the gateway, and what they are answered.

use csswitch_gateway::codex_auth::oauth::{OAuthErrorCode, OAuthFlowError};
use csswitch_gateway::config::{GatewayConfig, GatewayIntent};
use csswitch_gateway::json::JsonValue;
use csswitch_gateway::messages::UpstreamError;
use csswitch_gateway::name_map::NameMap;
use csswitch_gateway::provider_failure::{
    AttemptDiagnostic, CorrelationId, ErrorCode, ErrorParam, FailureObservation, NetworkKind,
    ProviderFailure, RateKind, RequestId, RouteContext, RouteMode,
};
use csswitch_gateway::server::codex_attempt::{
    caller_allows_automatic_tool_choice, codex_obstacle_reply, load_codex_inference_secrets,
    map_codex_auth_error, must_refresh, requested_model, state_root_unavailable, CodexAnswer,
    CodexAttempt, CodexEvent, CodexObstacle, CodexRefusal, CodexTask, SecretsEvent, SecretsTask,
    TranslationError,
};
use csswitch_gateway::server::codex_pump::{
    downstream_closed, forward_codex_stream, CodexNonstreamError, CodexPump, CodexPumpError,
    CodexStreamOutcome, PumpAction, PumpEnd, PumpEvent, ReadFault,
};
use csswitch_gateway::server::head::{
    content_length, dequery, read_head, HeadRead, RequestHeadReader, MAX_REQUEST_HEAD,
};
use csswitch_gateway::server::log::{
    count_in, log_relay_metadata, log_responses_metadata, FilterStats,
};
use csswitch_gateway::server::nonce::{CorrelationSequence, RequestNonceGenerator};
use csswitch_gateway::server::reply::{
    finish_codex_stream_error, json_bytes, sse_event, status_reason, stream_error_event,
    write_chunk, write_provider_failure, HttpReply, LAST_CHUNK, STREAM_HEAD,
};
use csswitch_gateway::server::routing::{
    auth_error_reply, codex_models_failure_reply, codex_selector, codex_target, handle_get,
    handle_messages, handle_one, handle_post, inference_fault_reply, is_kimi,
    known_tools_from_request, live_models_failure_reply, openai_chat_reasoning_signer, pass_reply,
    plan_messages, read_inference_reply, read_live_models, refreshes_credentials, resolve_inference,
    route_post, serve, write_codex_models_response, CodexModelsFailure, CodexResolution, Dispatch,
    GetPlan, InferenceFault, InferenceRoute, MessagesPlan, PostPlan,
};
use csswitch_gateway::server::stream::{
    dsml_stream_filter, ForwardAction, ForwardEvent, StreamFilterKind, StreamForward,
    StreamTermination, Validated,
};
use serde_json::Value;
use std::collections::HashSet;

fn json(text: &str) -> JsonValue {
    JsonValue::parse(text.as_bytes()).unwrap()
}

fn value(text: &str) -> Value {
    serde_json::from_str(text).unwrap()
}

fn body_of(reply: &HttpReply) -> Value {
    serde_json::from_slice(&reply.body).unwrap()
}

fn config(provider: &str) -> GatewayConfig {
    GatewayConfig {
        provider: provider.into(),
        port: 0,
        auth_secret: Some("launch-token-a".into()),
        api_key: Some("stable-provider-key".into()),
        upstream_url: "https://example.invalid/v1/chat/completions".into(),
        models_url: None,
        relay_thinking: None,
        provider_contract: None,
        intent: GatewayIntent::Formal,
        shim_mode: "off".into(),
        codex_state_root: None,
        codex_contract: None,
        launch_id: "launch-a".into(),
        skill_data_dir: None,
        skill_bridge_dir: None,
        skill_bridge_token: None,
    }
}

// Codex requests

#[test]
fn safe_repair_caller_eligibility_is_closed_to_absent_or_auto() {
    assert!(caller_allows_automatic_tool_choice(&json("{}")));
    assert!(caller_allows_automatic_tool_choice(&json(r#"{"tool_choice":{"type":"auto"}}"#)));
    for request in [
        r#"{"tool_choice":{"type":"none"}}"#,
        r#"{"tool_choice":{"type":"any"}}"#,
        r#"{"tool_choice":{"type":"tool","name":"read"}}"#,
        r#"{"tool_choice":"auto"}"#,
    ] {
        assert!(!caller_allows_automatic_tool_choice(&json(request)));
    }
}

/// What one request came to.
struct Attempted {
    posts: usize,
    bodies: Vec<String>,
    waits: Vec<u64>,
    rejections: Vec<u16>,
    record: Option<AttemptDiagnostic>,
    answer: CodexAnswer,
}

/// Runs a request through these events.
fn attempt(raw: &str, translated: &str, lite: bool, events: Vec<CodexEvent>) -> Attempted {
    let mut attempt = CodexAttempt::new(
        &json(raw),
        value(translated),
        lite,
        CorrelationId::new("codex-0000000000000001").unwrap(),
    );
    let mut seen = Attempted {
        posts: 0,
        bodies: Vec::new(),
        waits: Vec::new(),
        rejections: Vec::new(),
        record: None,
        answer: CodexAnswer::Nothing,
    };
    let mut task = attempt.begin();
    let mut events = events.into_iter();
    loop {
        match task {
            CodexTask::Post => {
                seen.posts += 1;
                seen.bodies.push(attempt.encoded().unwrap());
            }
            CodexTask::Wait(delay) => seen.waits.push(delay),
            CodexTask::Relay => {}
            CodexTask::Finish { record, answer } => {
                seen.record = record;
                seen.answer = answer;
                assert!(events.next().is_none());
                return seen;
            }
        }
        let (next, rejected) = attempt.step(events.next().expect("the request is not over"));
        seen.rejections.extend(rejected);
        task = next;
    }
}

fn refused(status: u16) -> CodexEvent {
    CodexEvent::Refused(CodexRefusal {
        upstream_status: Some(status),
        observation: FailureObservation::Http {
            status,
            rate_kind: None,
            retry_after_seconds: None,
            request_id: None,
            error_code: ErrorCode::Absent,
            error_param: ErrorParam::Absent,
        },
    })
}

#[test]
fn codex_handler_streams_upstream_once_for_stream_and_nonstream() {
    let streamed = attempt(
        "{}",
        r#"{"model":"gpt-test"}"#,
        false,
        vec![CodexEvent::Opened, CodexEvent::Streamed(CodexStreamOutcome::Completed)],
    );
    assert_eq!(streamed.posts, 1);
    assert!(matches!(streamed.answer, CodexAnswer::Nothing));
    assert_eq!(streamed.bodies, [r#"{"model":"gpt-test"}"#]);
    let collected = attempt(
        "{}",
        "{}",
        false,
        vec![CodexEvent::Opened, CodexEvent::Collected { result: Ok(()), has_response: true }],
    );
    assert_eq!(collected.posts, 1);
    assert!(matches!(collected.answer, CodexAnswer::Response));
    assert!(collected.record.is_some());
}

#[test]
fn codex_401_refreshes_only_for_next_request_and_never_reposts() {
    let seen = attempt("{}", "{}", false, vec![refused(401)]);
    assert_eq!(seen.posts, 1);
    assert_eq!(seen.rejections, [401]);
    assert!(matches!(seen.answer, CodexAnswer::Failure(failure) if failure.status == 401));
}

#[test]
fn codex_inference_401_and_403_invalidate_catalog_without_repost() {
    for (status, expected_refreshes) in [(401, 1), (403, 0)] {
        let seen = attempt("{}", r#"{"model":"gpt-known"}"#, false, vec![refused(status)]);
        assert_eq!(seen.posts, 1);
        assert_eq!(seen.rejections, [status]);
        let refreshes =
            seen.rejections.iter().filter(|status| refreshes_credentials(**status)).count();
        assert_eq!(refreshes, expected_refreshes);
        assert!(matches!(seen.answer, CodexAnswer::Failure(failure)
            if failure.status == status));
    }
}

#[test]
fn lite_request_is_repaired_once_without_its_tool_choice() {
    let rejected = || {
        CodexEvent::Refused(CodexRefusal {
            upstream_status: Some(400),
            observation: FailureObservation::Http {
                status: 400,
                rate_kind: None,
                retry_after_seconds: None,
                request_id: None,
                error_code: ErrorCode::UnsupportedValue,
                error_param: ErrorParam::ToolChoice,
            },
        })
    };
    let translated = r#"{"model":"gpt-lite","tool_choice":"auto","x":[1.5,null]}"#;
    let repaired = attempt(
        "{}",
        translated,
        true,
        vec![
            rejected(),
            CodexEvent::Opened,
            CodexEvent::Streamed(CodexStreamOutcome::Completed),
        ],
    );
    assert_eq!(repaired.bodies, [translated, r#"{"model":"gpt-lite","x":[1.5,null]}"#]);
    assert!(repaired.waits.is_empty());
    let named = attempt(
        r#"{"tool_choice":{"type":"tool","name":"read"}}"#,
        translated,
        true,
        vec![rejected()],
    );
    assert_eq!(named.posts, 1);
    assert!(matches!(named.answer, CodexAnswer::Failure(_)));
}

#[test]
fn network_failure_is_posted_again_after_a_wait() {
    let lost = || {
        CodexEvent::Refused(CodexRefusal {
            upstream_status: None,
            observation: FailureObservation::Network(NetworkKind::Connect),
        })
    };
    let seen = attempt(
        "{}",
        "{}",
        false,
        vec![
            lost(),
            CodexEvent::Waited { wanted: true },
            CodexEvent::Opened,
            CodexEvent::Streamed(CodexStreamOutcome::Failed),
        ],
    );
    assert_eq!(seen.posts, 2);
    assert_eq!(seen.waits.len(), 1);
    assert!(matches!(seen.answer, CodexAnswer::Nothing));
    let given_up =
        attempt("{}", "{}", false, vec![lost(), CodexEvent::Waited { wanted: false }]);
    assert_eq!(given_up.posts, 1);
    assert!(matches!(given_up.answer, CodexAnswer::Nothing));
    let broken = attempt(
        "{}",
        "{}",
        false,
        vec![
            CodexEvent::Opened,
            CodexEvent::Collected {
                result: Err(CodexNonstreamError::Protocol),
                has_response: false,
            },
        ],
    );
    assert!(matches!(broken.answer, CodexAnswer::Failure(failure) if failure.status == 502));
    let unwritable = attempt("{}", "{}", false, vec![CodexEvent::EncodingFailed]);
    assert!(matches!(unwritable.answer, CodexAnswer::Refusal(reply) if reply.status == 400));
}

#[test]
fn codex_disconnect_cancels_stalled_upstream_for_stream_and_nonstream() {
    for end in [
        CodexEvent::Streamed(CodexStreamOutcome::Cancelled),
        CodexEvent::Collected {
            result: Err(CodexNonstreamError::DownstreamClosed),
            has_response: false,
        },
    ] {
        let seen = attempt("{}", "{}", false, vec![CodexEvent::Opened, end]);
        let record = seen.record.unwrap();
        assert_eq!(record.outcome.as_str(), "cancelled");
        assert_eq!(record.posts, 1);
        assert!(record.failure_class.is_none());
        assert!(matches!(seen.answer, CodexAnswer::Nothing));
    }
}

#[test]
fn codex_auth_errors_distinguish_login_from_transient_refresh_failure() {
    let missing = map_codex_auth_error(&OAuthFlowError::new(
        OAuthErrorCode::NotAuthenticated,
        false,
        "missing",
    ));
    assert_eq!(missing.status, 401);
    assert_eq!(missing.error_type, "authentication_error");

    let network = map_codex_auth_error(&OAuthFlowError::new(
        OAuthErrorCode::OAuthNetwork,
        true,
        "network",
    ));
    assert_eq!(network.status, 503);
    assert_eq!(network.error_type, "api_error");
    assert_ne!(network.message, "Codex login is required");

    let broken =
        map_codex_auth_error(&OAuthFlowError::new(OAuthErrorCode::Storage, false, "broken"));
    assert_eq!(broken.status, 500);
    let reply = auth_error_reply(&state_root_unavailable());
    assert_eq!(body_of(&reply)["error"]["message"], "Codex auth state root is unavailable");
    assert!(must_refresh(Some(10), 10));
    assert!(!must_refresh(Some(11), 10));
    assert!(!must_refresh(None, 10));
}

#[test]
fn obstacles_are_answered_before_a_post() {
    let status = |obstacle| codex_obstacle_reply(&obstacle).status;
    assert_eq!(status(CodexObstacle::NoModel), 400);
    assert_eq!(status(CodexObstacle::NoThinkingKey), 500);
    assert_eq!(status(CodexObstacle::NoCancellationWatch), 500);
    let untranslatable = |out_of_bounds| {
        CodexObstacle::Untranslatable(TranslationError { out_of_bounds, detail: "why".into() })
    };
    assert_eq!(status(untranslatable(true)), 413);
    let reply = codex_obstacle_reply(&untranslatable(false));
    assert_eq!(body_of(&reply)["error"]["message"], "why");
    assert_eq!(requested_model(&json(r#"{"model":" "}"#)), None);
    assert_eq!(requested_model(&json(r#"{"model":"m"}"#)), Some("m"));
}

#[test]
fn codex_raw_or_unknown_account_model_is_rejected_before_inference_post() {
    let reply = codex_target(CodexResolution::UnknownSelector).err().unwrap();
    let response = String::from_utf8(reply.write_response()).unwrap();
    assert!(response.starts_with("HTTP/1.1 400 Bad Request"));
    assert!(response.contains("\"type\":\"route_unknown\""));
    assert!(response.contains("model selector is not available for this Codex account"));
    assert!(matches!(codex_target(CodexResolution::Model("gpt".into())), Ok(model) if model == "gpt"));
    let unavailable = CodexResolution::NoCompatibleModel { family: "Opus".into() };
    let unavailable = codex_target(unavailable).err().unwrap();
    let response = String::from_utf8(unavailable.write_response()).unwrap();
    assert!(response.starts_with("HTTP/1.1 503 Service Unavailable"));
    assert!(response.contains("codex_model_unavailable"));
    assert_eq!(
        body_of(&unavailable)["error"]["message"],
        "this Codex account has no compatible standard Responses model for the requested Opus role"
    );
    assert!(matches!(codex_selector(&json(r#"{"model":"a"}"#)), Ok("a")));
    assert!(codex_selector(&json("{}")).is_err());
}

#[test]
fn codex_models_response_exposes_science_aliases_and_cache_diagnostics() {
    let body = br#"{"data":[],"diagnostics":{"source":"live","stale":false}}"#;
    let response = write_codex_models_response("live", 0, body);
    let end = response.windows(4).position(|part| part == b"\r\n\r\n").unwrap();
    let head = String::from_utf8_lossy(&response[..end]);
    assert!(head.contains("x-csswitch-model-source: live"));
    assert!(head.contains("x-csswitch-model-age-seconds: 0"));
    assert!(head.contains(&format!("content-length: {}", body.len())));
    assert_eq!(&response[end + 4..], body);
}

// Reading a reply of Codex

/// An event is what stands before a semicolon; `end` completes the reply.
fn decode(bytes: &[u8]) -> (Option<String>, usize) {
    match bytes.iter().position(|byte| *byte == b';') {
        Some(at) => (Some(String::from_utf8(bytes[..at].to_vec()).unwrap()), at + 1),
        None => (None, bytes.len()),
    }
}

/// Reads a reply. Returns how it ended, how often was read, and what was sent.
fn pump(
    collect: bool,
    closed: bool,
    reads: Vec<Result<Vec<u8>, ReadFault>>,
    write_fails: bool,
) -> (PumpEnd, usize, Vec<Vec<u8>>) {
    let mut pump = CodexPump::<String>::new(collect);
    let mut reads = reads.into_iter();
    let mut count = 0;
    let mut sent = Vec::new();
    let mut action: PumpAction<String> = PumpAction::Read;
    loop {
        let event = match action {
            PumpAction::Read => {
                if collect && closed {
                    PumpEvent::Closed
                } else {
                    count += 1;
                    PumpEvent::Read(reads.next().unwrap_or(Ok(Vec::new())))
                }
            }
            PumpAction::Decode(bytes) => PumpEvent::Decoded(Ok(decode(&bytes))),
            PumpAction::Apply(event) => PumpEvent::Applied(if event == "bad" {
                Err(())
            } else {
                Ok((vec![event.clone().into_bytes()], event == "end"))
            }),
            PumpAction::Emit(bytes) => {
                sent.push(bytes);
                PumpEvent::Emitted(!write_fails)
            }
            PumpAction::EndDecoder => PumpEvent::DecoderEnded(Ok(Vec::new())),
            PumpAction::EndReducer => PumpEvent::ReducerEnded(Err(())),
            PumpAction::Stop(end) => return (end, count, sent),
        };
        action = pump.pump_codex_stream(event);
    }
}

#[test]
fn codex_downstream_cancellation_stops_before_another_upstream_read() {
    let (end, reads, _) = pump(false, false, vec![Ok(b"created;".to_vec())], true);
    assert_eq!(end.streamed(), Err(CodexPumpError::DownstreamWrite));
    assert_eq!(reads, 1);
}

#[test]
fn codex_terminal_event_stops_stream_and_nonstream_before_another_read() {
    let bytes = b"created;delta;end;[DONE];".to_vec();
    let (end, reads, sent) = pump(false, false, vec![Ok(bytes.clone())], false);
    assert_eq!(end.streamed(), Ok(()));
    assert_eq!(reads, 1);
    assert_eq!(sent, [b"created".to_vec(), b"delta".to_vec(), b"end".to_vec()]);

    let (end, reads, sent) = pump(true, false, vec![Ok(bytes)], false);
    assert_eq!(end.collected(), Ok(()));
    assert_eq!(reads, 1);
    assert!(sent.is_empty());
}

#[test]
fn codex_nonstream_closed_downstream_cancels_before_upstream_read() {
    let (end, reads, _) = pump(true, true, Vec::new(), false);
    assert_eq!(end.collected(), Err(CodexNonstreamError::DownstreamClosed));
    assert_eq!(reads, 0);
}

#[test]
fn codex_429_empty_200_and_interrupted_sse_do_not_retry() {
    let mut limited = attempt("{}", "{}", false, vec![CodexEvent::Refused(CodexRefusal {
        upstream_status: Some(429),
        observation: FailureObservation::Http {
            status: 429,
            rate_kind: Some(csswitch_gateway::provider_failure::RateKind::Quota),
            retry_after_seconds: None,
            request_id: None,
            error_code: ErrorCode::InsufficientQuota,
            error_param: ErrorParam::Absent,
        },
    })]);
    assert_eq!(limited.posts, 1);
    assert!(limited.rejections.is_empty());
    assert!(matches!(&mut limited.answer, CodexAnswer::Failure(failure)
        if failure.status == 429));

    let (empty, reads, _) = pump(true, false, Vec::new(), false);
    assert_eq!(empty.collected(), Err(CodexNonstreamError::Protocol));
    assert_eq!(reads, 1);

    let (interrupted, _, sent) = pump(false, false, vec![Ok(b"created;partial;".to_vec())], false);
    assert_eq!(sent.len(), 2);
    let (error_event, last_chunk, outcome) = forward_codex_stream(interrupted.streamed());
    assert!(error_event && last_chunk);
    assert_eq!(outcome, CodexStreamOutcome::Failed);
}

#[test]
fn read_faults_are_told_apart() {
    let fault = |aborted, downstream_closed| Err(ReadFault { aborted, downstream_closed });
    assert_eq!(pump(false, false, vec![fault(true, false)], false).0, PumpEnd::Cancelled);
    assert_eq!(pump(false, false, vec![fault(false, true)], false).0, PumpEnd::UpstreamRead);
    assert_eq!(pump(true, false, vec![fault(false, true)], false).0, PumpEnd::DownstreamClosed);
    assert_eq!(pump(true, false, vec![fault(false, false)], false).0, PumpEnd::UpstreamRead);
    assert_eq!(pump(false, false, vec![Ok(b"bad;".to_vec())], false).0, PumpEnd::Protocol);
    assert_eq!(
        forward_codex_stream(Err(CodexPumpError::Cancelled)),
        (false, false, CodexStreamOutcome::Cancelled)
    );
    assert_eq!(forward_codex_stream(Ok(())), (false, true, CodexStreamOutcome::Completed));
}

// Routing

#[test]
fn codex_request_body_limit_returns_413_before_reading_body() {
    let limit = 10;
    let mut headers = NameMap::new();
    headers.insert("content-length".to_string(), (limit + 1).to_string());
    let PostPlan::Reply(reply) =
        handle_post("codex", true, content_length(&headers), limit)
    else {
        panic!("the body is not read")
    };
    assert!(reply.write_response().starts_with(b"HTTP/1.1 413 Payload Too Large"));
    assert!(matches!(handle_post("relay", true, Ok(limit + 1), limit), PostPlan::ReadBody(11)));
    assert!(matches!(handle_post("codex", true, Ok(limit), limit), PostPlan::ReadBody(10)));
    assert!(matches!(handle_post("codex", true, Ok(0), limit), PostPlan::EmptyObject));
    assert!(matches!(handle_post("codex", false, Ok(0), limit),
        PostPlan::Reply(reply) if reply.status == 403));
    assert!(matches!(handle_post("codex", true, Err("why".into()), limit),
        PostPlan::Reply(reply) if reply.status == 400));
}

#[test]
fn heads_are_read_strictly() {
    let request = read_head(
        b"POST /v1/messages?x=1 HTTP/1.1\r\nContent-Length: 12\r\nX-A:  b \r\n\r\n",
    )
    .ok()
    .unwrap();
    assert_eq!(request.method, "POST");
    assert_eq!(dequery(&request.target), "/v1/messages");
    assert_eq!(content_length(&request.headers), Ok(12));
    assert_eq!(request.headers.get("x-a").map(String::as_str), Some("b"));
    assert_eq!(content_length(&NameMap::new()), Ok(0));
    let mut bad = NameMap::new();
    bad.insert("content-length".to_string(), "-1".to_string());
    assert_eq!(content_length(&bad), Err("invalid Content-Length".to_string()));
    assert!(read_head(&[0xff, b'\r', b'\n']).is_err());
    let mut reader = RequestHeadReader::new();
    assert!(reader.read(HeadRead::Read(b"GET / HTTP/1.1\r\n".to_vec())).is_ok());
    assert!(!reader.complete());
    assert!(reader.read(HeadRead::Read(b"\r\n".to_vec())).is_ok());
    assert!(reader.complete());
    assert!(reader.read(HeadRead::Read(vec![b'x'; MAX_REQUEST_HEAD])).is_err());
    assert!(reader.read(HeadRead::Failed("reset".into())).is_err());
    assert!(reader.read(HeadRead::Read(Vec::new())).is_err());
}

#[test]
fn methods_and_paths_are_dispatched() {
    assert!(matches!(handle_one("CONNECT", "a:443"), Dispatch::Connect));
    assert!(matches!(handle_one("GET", "/"), Dispatch::Get));
    assert!(matches!(handle_one("POST", "/"), Dispatch::Post));
    assert!(matches!(handle_one("PUT", "/x"), Dispatch::Refuse(reply) if reply.status == 404));
    assert!(route_post("/v1/messages").is_none());
    assert_eq!(route_post("/other").unwrap().status, 404);
}

#[test]
fn gateway_serves_codex_only_with_a_contract() {
    assert_eq!(
        serve(&config("codex"), true).unwrap_err(),
        "Codex provider contract is unavailable"
    );
    let plan = serve(&config("relay"), false).unwrap();
    assert!(!plan.codex && !plan.request_nonces);
    let mut rewrite = config("deepseek");
    rewrite.shim_mode = "rewrite".into();
    assert!(serve(&rewrite, false).unwrap().request_nonces);
}

#[test]
fn health_and_models_are_answered() {
    let GetPlan::Reply(health) =
        handle_get(&config("relay"), Some("/health"), "formal", Some("fp"), false)
    else {
        panic!("health is answered at once")
    };
    let body = body_of(&health);
    assert_eq!(body["status"], "ok");
    assert_eq!(body["provider"], "relay");
    assert_eq!(body["launch_id"], "launch-a");
    assert_eq!(body["catalog_fp"], "fp");
    assert_eq!(body["shim"], "off");

    let models = |cfg: &GatewayConfig, fp: Option<&str>, codex: bool| {
        handle_get(cfg, Some("/v1/models"), "formal", fp, codex)
    };
    assert!(matches!(models(&config("relay"), Some("fp"), false), GetPlan::StaticCatalog));
    assert!(matches!(models(&config("relay"), None, false),
        GetPlan::Reply(reply) if reply.status == 503));
    assert!(matches!(models(&config("codex"), None, true),
        GetPlan::CodexModels { refresh: false }));
    assert!(matches!(models(&config("codex"), None, false),
        GetPlan::Reply(reply) if reply.status == 502));
    let mut scratch = config("relay");
    scratch.intent = GatewayIntent::ScratchModels;
    assert!(matches!(models(&scratch, None, false),
        GetPlan::Reply(reply) if body_of(&reply)["message"] == "missing models URL"));
    scratch.models_url = Some("https://example.invalid/models".into());
    assert!(matches!(models(&scratch, None, false),
        GetPlan::LiveModels { url } if url == "https://example.invalid/models"));
    scratch.provider = "qwen".into();
    assert!(matches!(models(&scratch, None, false), GetPlan::QwenModels));
    scratch.provider = "deepseek".into();
    assert!(matches!(models(&scratch, None, false), GetPlan::DeepseekModels));
    scratch.provider = "codex".into();
    assert!(matches!(models(&scratch, None, true), GetPlan::CodexModels { refresh: true }));
    assert!(matches!(handle_get(&scratch, None, "formal", None, false),
        GetPlan::Reply(reply) if reply.status == 403));
    assert!(matches!(handle_get(&scratch, Some("/x"), "formal", None, false),
        GetPlan::Reply(reply) if reply.status == 404));
}

#[test]
fn failed_model_lists_are_answered() {
    let (reply, refresh) = codex_models_failure_reply(&CodexModelsFailure {
        status: 401,
        error_kind: "auth".into(),
        upstream_status: Some(401),
        detail: "why".into(),
    });
    assert!(refresh);
    assert_eq!(reply.status, 401);
    let lost = UpstreamError { status: 502, upstream_status: None, detail: "lost".into() };
    let reply = live_models_failure_reply(&lost);
    assert_eq!(body_of(&reply)["message"], "lost");
    assert_eq!(body_of(&reply)["error_kind"], "network");
    assert!(body_of(&reply)["upstream_status"].is_null());
    assert!(read_live_models(b"{\"data\":[]}").is_ok());
    let reply = read_live_models(b"{").err().unwrap();
    assert!(String::from_utf8(reply.body).unwrap().contains("upstream models JSON parse failed: "));
}

#[test]
fn inference_requests_are_routed() {
    let plan = |cfg: &GatewayConfig, body: &str, codex: bool, fixed: bool| {
        handle_messages(cfg, body.as_bytes(), codex, codex, fixed).1
    };
    let relay = config("relay");
    assert!(matches!(plan(&relay, r#"{"model":"m","stream":true}"#, false, true),
        MessagesPlan::Resolve { model, stream: true } if model == "m"));
    assert!(matches!(plan(&relay, "[]", false, true),
        MessagesPlan::Reply(reply)
            if body_of(&reply)["error"]["message"] == "request body must be a JSON object"));
    assert!(matches!(plan(&relay, "{", false, true),
        MessagesPlan::Reply(reply) if reply.status == 400));
    assert!(matches!(plan(&relay, "{}", false, true),
        MessagesPlan::Reply(reply)
            if body_of(&reply)["error"]["message"] == "model selector is required"));
    assert!(matches!(plan(&relay, r#"{"model":"m"}"#, false, false),
        MessagesPlan::Reply(reply)
            if body_of(&reply)["error"]["message"] == "static model catalog is unavailable"));
    assert!(matches!(plan(&config("codex"), r#"{"model":"m"}"#, true, false),
        MessagesPlan::Codex { stream: false }));
    assert!(matches!(plan(&config("codex"), "{}", false, false),
        MessagesPlan::Reply(reply) if reply.status == 502));
    let mut scratch = config("relay");
    scratch.intent = GatewayIntent::ScratchModels;
    assert!(matches!(plan(&scratch, r#"{"model":"m"}"#, false, true), MessagesPlan::Reply(_)));
    let refused = Err("no JSON".to_string());
    assert!(matches!(plan_messages(&relay, &refused, false, false, true),
        MessagesPlan::Reply(reply) if body_of(&reply)["error"]["message"] == "no JSON"));

    let routes = [
        ("qwen", InferenceRoute::OpenAiChat),
        ("openai-custom", InferenceRoute::OpenAiCustomChat),
        ("openai-responses", InferenceRoute::OpenAiResponses),
        ("relay", InferenceRoute::Relay),
        ("deepseek", InferenceRoute::Native),
    ];
    for (provider, route) in routes {
        let resolved = resolve_inference(&config(provider), Some("target"), true).ok().unwrap();
        assert_eq!(resolved.route, route);
        assert!(!resolved.needs_nonce);
    }
    assert_eq!(resolve_inference(&relay, None, false).err().unwrap().status, 400);
    assert!(is_kimi("Moonshot/KIMI-k3"));
    assert!(!is_kimi("glm"));
}

#[test]
fn inference_faults_are_answered() {
    let faults = [
        (InferenceFault::NoSigner("why".into()), 500),
        (InferenceFault::Untranslatable("why".into()), 400),
        (InferenceFault::Unencodable("why".into()), 400),
        (
            InferenceFault::Refused(UpstreamError {
                status: 429,
                upstream_status: Some(429),
                detail: "why".into(),
            }),
            429,
        ),
        (InferenceFault::UntranslatableReply("why".into()), 502),
    ];
    for (fault, status) in faults {
        let reply = inference_fault_reply(&fault);
        assert_eq!(reply.status, status);
        assert_eq!(body_of(&reply)["error"]["message"], "why");
    }
    assert_eq!(read_inference_reply(b"").err().unwrap().status, 502);
    let read = read_inference_reply(br#"{"a":[1,-2,1.5,"x",true,null]}"#).ok().unwrap();
    let JsonValue::List(values) = read.get("a").unwrap() else {
        panic!("a list was sent")
    };
    assert_eq!(values[0], JsonValue::Number(1));
    assert_eq!(values[1], JsonValue::Decimal("-2".into()));
    assert_eq!(values[2], JsonValue::Decimal("1.5".into()));
    assert_eq!(values[3], JsonValue::Text("x".into()));
    assert_eq!(values[4], JsonValue::Bool(true));
    assert_eq!(values[5], JsonValue::Null);
    let passed = pass_reply(418, "text/plain".into(), b"short".to_vec());
    assert!(passed.write_response().starts_with(b"HTTP/1.1 418 I'm a teapot"));
    assert_eq!(status_reason(299), "Error");
}

#[test]
fn declared_tools_are_known_by_name() {
    let request = json(
        r#"{"tools":[{"name":"a","input_schema":{"x":1}},{"name":"a"},{"name":""},{"name":"b","input_schema":{"y":2}},3]}"#,
    );
    let known = known_tools_from_request(&request);
    assert_eq!(known.len(), 2);
    assert!(matches!(known.get("a"), Some(None)));
    assert!(matches!(known.get("b"), Some(Some(schema)) if schema.get("y").is_some()));
    assert_eq!(known_tools_from_request(&json("{}")).len(), 0);
}

#[test]
fn openai_reasoning_history_survives_loopback_token_rotation_but_not_profile_changes() {
    let base = config("openai-custom");
    let first = openai_chat_reasoning_signer(&base);
    let mut restarted = config("openai-custom");
    restarted.auth_secret = Some("launch-token-b".into());
    restarted.launch_id = "launch-b".into();
    assert_eq!(openai_chat_reasoning_signer(&restarted), first);

    restarted.api_key = Some("different-provider-key".into());
    assert_ne!(openai_chat_reasoning_signer(&restarted).0, first.0);
    restarted.api_key = Some("stable-provider-key".into());
    restarted.upstream_url = "https://other.invalid/v1/chat/completions".into();
    assert_ne!(openai_chat_reasoning_signer(&restarted).1, first.1);
}

// Nonces

#[test]
fn request_nonce_generator_is_sequential_and_id_safe() {
    let mut generator = RequestNonceGenerator::with_prefix([0xab; 16]);
    let first = generator.next_nonce();
    let second = generator.next_nonce();

    assert_eq!(first, format!("{}0000000000000001", "ab".repeat(16)));
    assert_eq!(second, format!("{}0000000000000002", "ab".repeat(16)));
    assert!(first.bytes().all(|byte| byte.is_ascii_hexdigit()));
    assert!(second.bytes().all(|byte| byte.is_ascii_hexdigit()));
}

#[test]
fn request_nonces_are_unique() {
    let mut generator = RequestNonceGenerator::with_prefix([0x3c; 16]);
    let nonces = (0..16 * 128).map(|_| generator.next_nonce()).collect::<Vec<_>>();
    let unique = nonces.iter().collect::<HashSet<_>>();

    assert_eq!(nonces.len(), 16 * 128);
    assert_eq!(unique.len(), nonces.len());
    assert!(nonces.iter().all(|nonce| nonce.len() == 48));
    assert!(nonces.iter().all(|nonce| nonce
        .bytes()
        .all(|byte| byte.is_ascii_hexdigit() && !byte.is_ascii_uppercase())));
}

#[test]
fn processes_have_their_own_prefix() {
    let first = RequestNonceGenerator::new().ok().unwrap();
    let second = RequestNonceGenerator::new().ok().unwrap();
    assert_eq!(first.process_prefix.len(), 32);
    assert_ne!(first.process_prefix, second.process_prefix);
    let mut sequence = CorrelationSequence::new();
    assert_eq!(sequence.next_codex_correlation_id().as_str(), "codex-0000000000000001");
    sequence.next = u64::MAX;
    assert_eq!(sequence.next_codex_correlation_id().as_str(), "codex-ffffffffffffffff");
    assert_eq!(sequence.next_codex_correlation_id().as_str(), "codex-0000000000000000");
}

// Streams

/// A filter that holds an unfinished event back.
trait Filter {
    fn feed(&mut self, bytes: &[u8]) -> Result<Vec<u8>, ()>;
    fn finalize(&mut self) -> Result<Vec<u8>, ()>;
}

/// Leaves the server tools out of a reply, and refuses thinking that is not signed.
#[derive(Default)]
struct KimiStandIn {
    held: String,
    dropped: usize,
    dropping: bool,
    unsigned: bool,
}

impl Filter for KimiStandIn {
    fn feed(&mut self, bytes: &[u8]) -> Result<Vec<u8>, ()> {
        self.held.push_str(std::str::from_utf8(bytes).unwrap());
        let mut passed = String::new();
        while let Some(end) = self.held.find("\n\n") {
            let event = self.held[..end + 2].to_string();
            self.held.drain(..end + 2);
            if event.contains("server_tool_use") {
                self.dropped += 1;
                self.dropping = true;
                continue;
            }
            if event.contains("\"signature\":\"\"") {
                self.unsigned = true;
                continue;
            }
            if event.contains("content_block_stop") {
                if self.unsigned {
                    return Err(());
                }
                if self.dropping {
                    self.dropping = false;
                    continue;
                }
            }
            let index = |n: usize| format!("\"index\":{n}");
            let renamed = (0..4)
                .filter(|n| *n >= self.dropped)
                .fold(event, |event, n| event.replace(&index(n), &index(n - self.dropped)));
            passed.push_str(&renamed);
        }
        Ok(passed.into_bytes())
    }

    fn finalize(&mut self) -> Result<Vec<u8>, ()> {
        if self.held.is_empty() { Ok(Vec::new()) } else { Err(()) }
    }
}

/// Turns what it holds back at the end into a tool call.
#[derive(Default)]
struct DsmlStandIn {
    held: String,
}

impl Filter for DsmlStandIn {
    fn feed(&mut self, bytes: &[u8]) -> Result<Vec<u8>, ()> {
        self.held.push_str(std::str::from_utf8(bytes).unwrap());
        let end = self.held.rfind("\n\n").map_or(0, |at| at + 2);
        Ok(self.held.drain(..end).collect::<String>().into_bytes())
    }

    fn finalize(&mut self) -> Result<Vec<u8>, ()> {
        if self.held.contains("invoke") {
            Ok(b"event: content_block_start\ndata: {\"type\":\"tool_use\"}\n\n".to_vec())
        } else {
            Ok(Vec::new())
        }
    }
}

/// Forwards a stream. It is complete once `message_stop` was seen.
fn forward_stream_body(
    first: &[u8],
    upstream: Vec<Result<Vec<u8>, ()>>,
    mut filter: Option<&mut dyn Filter>,
    write_fails: bool,
) -> (StreamTermination, String, usize) {
    let mut reads = 0;
    let mut upstream = upstream.into_iter();
    let mut stopped = false;
    let mut output = Vec::new();
    let (mut forward, mut action) = StreamForward::start(filter.is_some(), first.to_vec());
    loop {
        let event = match action {
            ForwardAction::Filter(bytes) => {
                ForwardEvent::Filtered(filter.as_mut().unwrap().feed(&bytes))
            }
            ForwardAction::FinishFilter => {
                ForwardEvent::Filtered(filter.as_mut().unwrap().finalize())
            }
            ForwardAction::Check(bytes) => {
                let text = String::from_utf8_lossy(&bytes);
                stopped = stopped || text.contains("event: message_stop");
                let terminal_error = text.contains("event: error");
                ForwardEvent::Checked(Ok(Validated { bytes, terminal_error }))
            }
            ForwardAction::FinishCheck => {
                ForwardEvent::Finished(if stopped { Ok(Vec::new()) } else { Err(()) })
            }
            ForwardAction::Emit(bytes) => {
                if !write_fails {
                    output.extend_from_slice(&bytes);
                }
                ForwardEvent::Emitted(!write_fails)
            }
            ForwardAction::Read => {
                reads += 1;
                ForwardEvent::Read(upstream.next().unwrap_or(Ok(Vec::new())))
            }
            ForwardAction::Stop(end) => {
                return (end, String::from_utf8(output).unwrap(), reads);
            }
        };
        action = forward.forward_stream_body(event);
    }
}

fn kimi_complete_then_partial() -> Vec<u8> {
    [
        "event: message_start\n",
        "data: {\"type\":\"message_start\",\"message\":{\"id\":\"m\",\"type\":\"message\"}}\n\n",
        "event: content_block_start\n",
        "data: {\"type\":\"content_block_start\",\"index\":0,\"content_block\":{\"type\":\"text\",\"text\":\"\"}}\n\n",
        "event: content_block_delta\n",
        "data: {\"type\":\"content_block_delta\",\"index\":0,\"delta\":{\"type\":\"text_delta\",\"text\":\"buffered\"}}",
    ]
    .concat()
    .into_bytes()
}

fn complete_kimi_envelope() -> Vec<u8> {
    [
        "event: message_start\n",
        "data: {\"type\":\"message_start\",\"message\":{\"id\":\"m\",\"type\":\"message\"}}\n\n",
        "event: content_block_start\n",
        "data: {\"type\":\"content_block_start\",\"index\":0,\"content_block\":{\"type\":\"thinking\",\"thinking\":\"plan\",\"signature\":\"opaque\"}}\n\n",
        "event: content_block_stop\n",
        "data: {\"type\":\"content_block_stop\",\"index\":0}\n\n",
        "event: content_block_start\n",
        "data: {\"type\":\"content_block_start\",\"index\":1,\"content_block\":{\"type\":\"server_tool_use\",\"name\":\"web_search\"}}\n\n",
        "event: content_block_stop\n",
        "data: {\"type\":\"content_block_stop\",\"index\":1}\n\n",
        "event: content_block_start\n",
        "data: {\"type\":\"content_block_start\",\"index\":2,\"content_block\":{\"type\":\"text\",\"text\":\"\"}}\n\n",
        "event: content_block_delta\n",
        "data: {\"type\":\"content_block_delta\",\"index\":2,\"delta\":{\"type\":\"text_delta\",\"text\":\"answer\"}}\n\n",
        "event: content_block_stop\n",
        "data: {\"type\":\"content_block_stop\",\"index\":2}\n\n",
        "event: message_delta\n",
        "data: {\"type\":\"message_delta\",\"delta\":{\"stop_reason\":\"end_turn\"},\"usage\":{\"output_tokens\":9}}\n\n",
        "event: message_stop\n",
        "data: {\"type\":\"message_stop\"}\n\n",
    ]
    .concat()
    .into_bytes()
}

fn dsml_complete_start_then_partial_tool_delta() -> Vec<u8> {
    [
        "event: message_start\ndata: {\"type\":\"message_start\",\"message\":{\"id\":\"m\",\"type\":\"message\"}}\n\n",
        "event: content_block_start\ndata: {\"type\":\"content_block_start\",\"index\":0,\"content_block\":{\"type\":\"text\",\"text\":\"\"}}\n\n",
        "event: content_block_delta\ndata: {\"type\":\"content_block_delta\",\"index\":0,\"delta\":{\"type\":\"text_delta\",\"text\":\"<｜｜DSML｜｜invoke name=web_search>\"}}",
    ]
    .concat()
    .into_bytes()
}

fn text_of(event: Vec<u8>) -> String {
    String::from_utf8(event).unwrap()
}

#[test]
fn kimi_read_error_is_terminal_and_does_not_finalize_buffer() {
    let first = [
        "event: message_start\n",
        "data: {\"type\":\"message_start\",\"message\":{\"id\":\"m\",\"type\":\"message\"}}\n\n",
        "event: content_block_start\n",
        "data: {\"type\":\"content_block_start\"}",
    ]
    .concat();
    let mut filter = KimiStandIn::default();
    let (termination, output, _) =
        forward_stream_body(first.as_bytes(), vec![Err(())], Some(&mut filter), false);
    assert_eq!(termination, StreamTermination::UpstreamReadError);
    assert!(output.contains("event: message_start"));
    assert!(output.ends_with(&text_of(stream_error_event("upstream stream read failed"))));
    assert!(filter.finalize().is_err(), "buffer must remain unflushed");
}

#[test]
fn kimi_complete_envelope_preserves_thinking_usage_terminal_and_compacts_indexes() {
    let mut filter = KimiStandIn::default();
    let (termination, text, _) =
        forward_stream_body(&complete_kimi_envelope(), Vec::new(), Some(&mut filter), false);
    assert_eq!(termination, StreamTermination::NormalEof);
    assert!(text.contains("\"thinking\":\"plan\""));
    assert!(text.contains("\"signature\":\"opaque\""));
    assert!(!text.contains("server_tool_use"));
    assert!(text.contains("\"index\":1"));
    assert!(text.contains("\"stop_reason\":\"end_turn\""));
    assert!(text.contains("\"output_tokens\":9"));
    assert_eq!(text.matches("event: message_stop").count(), 1);
    assert!(!text.contains("event: error"));
}

#[test]
fn kimi_invalid_thinking_emits_one_terminal_error_without_message_stop() {
    let first = [
        "event: message_start\n",
        "data: {\"type\":\"message_start\",\"message\":{\"id\":\"m\",\"type\":\"message\"}}\n\n",
        "event: content_block_start\n",
        "data: {\"type\":\"content_block_start\",\"index\":0,\"content_block\":{\"type\":\"thinking\",\"thinking\":\"secret\",\"signature\":\"\"}}\n\n",
    ]
    .concat();
    let tail = [
        "event: content_block_stop\n",
        "data: {\"type\":\"content_block_stop\",\"index\":0}\n\n",
        "event: message_delta\n",
        "data: {\"type\":\"message_delta\",\"delta\":{\"stop_reason\":\"end_turn\"},\"usage\":{\"output_tokens\":1}}\n\n",
        "event: message_stop\n",
        "data: {\"type\":\"message_stop\"}\n\n",
    ]
    .concat();
    let mut filter = KimiStandIn::default();
    let (termination, text, _) = forward_stream_body(
        first.as_bytes(),
        vec![Ok(tail.into_bytes())],
        Some(&mut filter),
        false,
    );
    assert_eq!(termination, StreamTermination::ProtocolError);
    assert!(text.contains("event: message_start"));
    assert_eq!(text.matches("event: error").count(), 1);
    assert!(!text.contains("message_stop"));
    assert!(!text.contains("secret"));
}

#[test]
fn deepseek_dsml_modes_never_select_or_apply_kimi_rules() {
    assert_eq!(dsml_stream_filter("deepseek", "off", true, true), None);
    assert_eq!(
        dsml_stream_filter("deepseek", "detect", true, true),
        Some(StreamFilterKind::DsmlDetect)
    );
    assert_eq!(
        dsml_stream_filter("deepseek", "rewrite", true, true),
        Some(StreamFilterKind::DsmlRewrite)
    );
    assert_eq!(dsml_stream_filter("deepseek", "rewrite", true, false), None);
    assert_eq!(dsml_stream_filter("deepseek", "rewrite", false, true), None);
    assert_eq!(dsml_stream_filter("relay", "rewrite", true, true), None);
}

#[test]
fn dsml_read_error_is_terminal_and_does_not_synthesize_buffered_tool() {
    let mut filter = DsmlStandIn::default();
    let (termination, output, _) = forward_stream_body(
        &dsml_complete_start_then_partial_tool_delta(),
        vec![Err(())],
        Some(&mut filter),
        false,
    );
    assert_eq!(termination, StreamTermination::UpstreamReadError);
    assert!(output.ends_with(&text_of(stream_error_event("upstream stream read failed"))));
    assert!(!output.contains("tool_use"));
    let withheld = filter.finalize().unwrap();
    assert!(
        text_of(withheld).contains("tool_use"),
        "the buffered tool must still be present, proving the error path did not finalize it"
    );
}

#[test]
fn incomplete_clean_eof_finalizes_filters_but_fails_protocol() {
    let mut kimi = KimiStandIn::default();
    let (termination, output, _) =
        forward_stream_body(&kimi_complete_then_partial(), Vec::new(), Some(&mut kimi), false);
    assert_eq!(termination, StreamTermination::ProtocolError);
    assert!(output.contains("message_start"));
    assert!(output.contains("event: error"));
    assert!(!output.contains("message_stop"));

    let mut dsml = DsmlStandIn::default();
    let (termination, output, _) = forward_stream_body(
        &dsml_complete_start_then_partial_tool_delta(),
        Vec::new(),
        Some(&mut dsml),
        false,
    );
    assert_eq!(termination, StreamTermination::ProtocolError);
    assert!(output.contains("tool_use"));
    assert!(output.contains("event: error"));
    assert!(!output.contains("message_stop"));
}

#[test]
fn downstream_write_error_stops_before_more_reads_or_finalize() {
    let mut filter = KimiStandIn::default();
    let (termination, _, reads) =
        forward_stream_body(&kimi_complete_then_partial(), Vec::new(), Some(&mut filter), true);
    assert_eq!(termination, StreamTermination::DownstreamWriteError);
    assert!(!termination.sends_last_chunk());
    assert_eq!(reads, 0, "must stop reading after client write failure");
    assert!(
        filter.finalize().is_err(),
        "buffer must remain unflushed after client write failure"
    );
}

#[test]
fn upstream_error_event_ends_the_stream() {
    let (termination, output, reads) =
        forward_stream_body(b"event: error\ndata: {}\n\n", vec![Err(())], None, false);
    assert_eq!(termination, StreamTermination::UpstreamTerminalError);
    assert_eq!(output, "event: error\ndata: {}\n\n");
    assert_eq!(reads, 0);
    let (termination, _, _) =
        forward_stream_body(b"event: message_stop\n\n", Vec::new(), None, false);
    assert_eq!(termination, StreamTermination::NormalEof);
}

#[test]
fn replies_are_framed() {
    assert_eq!(write_chunk(&[b'x'; 26]), [b"1a\r\n".to_vec(), vec![b'x'; 26], b"\r\n".to_vec()].concat());
    assert_eq!(sse_event("ping", None), b"event: ping\ndata: {}\n\n");
    assert_eq!(json_bytes(None), b"{\"error\":\"internal\"}");
    let reply = HttpReply {
        status: 200,
        reason: "OK".into(),
        content_type: "text/plain".into(),
        body: b"hi".to_vec(),
    };
    assert_eq!(
        text_of(reply.write_response()),
        "HTTP/1.1 200 OK\r\ncontent-type: text/plain\r\ncontent-length: 2\r\nconnection: close\r\n\r\nhi"
    );
}

#[test]
fn provider_failures_are_written_as_errors() {
    let context =
        RouteContext::codex(RouteMode::ResponsesLite, CorrelationId::new("codex-7").unwrap());
    let observation = FailureObservation::Http {
        status: 429,
        rate_kind: Some(RateKind::RateLimit),
        retry_after_seconds: Some(12),
        request_id: RequestId::new("req_9"),
        error_code: ErrorCode::RateLimitExceeded,
        error_param: ErrorParam::Absent,
    };
    let failure = ProviderFailure::from_observation(&context, &observation, true);
    let reply = write_provider_failure(&failure);
    assert_eq!(reply.status, 429);
    assert_eq!(reply.reason, "Too Many Requests");
    assert_eq!(reply.content_type, "application/json");
    let body = body_of(&reply);
    assert_eq!(body["type"], "error");
    let error = &body["error"];
    assert_eq!(error["correlation_id"], "codex-7");
    assert_eq!(error["failure_class"], "rate_limit");
    assert_eq!(error["provider"], "codex");
    assert_eq!(error["request_id"], "req_9");
    assert_eq!(error["retry_after_seconds"], 12);
    assert_eq!(error["route"], "responses_lite");
    assert_eq!(error["upstream_status"], 429);
    assert_eq!(error.as_object().unwrap().len(), 11);
    assert_eq!(
        failure.debug_text(),
        "ProviderFailure { status: 429, error_type: \"rate_limit_error\", failure_class: RateLimit, upstream_status: Some(429), retryable: true, correlation_id: \"codex-7\" }"
    );

    let lost = ProviderFailure::from_observation(
        &context,
        &FailureObservation::Network(NetworkKind::Connect),
        true,
    );
    let body = body_of(&write_provider_failure(&lost));
    assert!(body["error"].get("request_id").is_none());
    assert!(body["error"].get("retry_after_seconds").is_none());
    assert!(body["error"].get("upstream_status").is_none());
}

#[test]
fn expired_credentials_are_refreshed_before_use() {
    let start = |has_state_root| SecretsEvent::Started { has_state_root };
    assert!(matches!(load_codex_inference_secrets(start(true), 10), SecretsTask::Load));
    match load_codex_inference_secrets(start(false), 10) {
        SecretsTask::Fail(error) => {
            assert_eq!(error.status, 500);
            assert_eq!(error.message, "Codex auth state root is unavailable");
        }
        _ => panic!("no store must fail"),
    }
    let loaded = |expires_at| load_codex_inference_secrets(SecretsEvent::Loaded(Ok(expires_at)), 10);
    assert!(matches!(loaded(Some(10)), SecretsTask::Refresh));
    assert!(matches!(loaded(Some(11)), SecretsTask::Use));
    assert!(matches!(loaded(None), SecretsTask::Use));
    assert!(matches!(
        load_codex_inference_secrets(SecretsEvent::Refreshed(Ok(())), 10),
        SecretsTask::Reload
    ));
    assert!(matches!(
        load_codex_inference_secrets(SecretsEvent::Reloaded(Ok(())), 10),
        SecretsTask::Use
    ));
    let missing = OAuthFlowError::new(OAuthErrorCode::NotAuthenticated, false, "gone");
    match load_codex_inference_secrets(SecretsEvent::Refreshed(Err(missing)), 10) {
        SecretsTask::Fail(error) => assert_eq!(error.status, 401),
        _ => panic!("a failed refresh must fail"),
    }
}

#[test]
fn a_silent_client_is_not_a_closed_one() {
    assert!(downstream_closed(0, false));
    assert!(!downstream_closed(1, false));
    assert!(!downstream_closed(-1, true));
    assert!(downstream_closed(-1, false));
}

#[test]
fn broken_codex_streams_end_with_an_error_event() {
    assert_eq!(
        STREAM_HEAD,
        "HTTP/1.1 200 OK\r\ncontent-type: text/event-stream\r\ntransfer-encoding: chunked\r\nconnection: close\r\n\r\n"
    );
    let event = stream_error_event("Codex upstream protocol error");
    let expected = [write_chunk(&event), LAST_CHUNK.as_bytes().to_vec()].concat();
    assert_eq!(finish_codex_stream_error(), expected);
    assert_eq!(LAST_CHUNK, "0\r\n\r\n");
}

#[test]
fn relayed_requests_are_logged_by_name_and_count() {
    let rules = ["tool.first".to_string(), "tool.second".to_string()];
    assert_eq!(
        log_relay_metadata("glm-5", true, 12, &rules),
        "POST /v1/messages relay target=glm-5 stream=true msgs=12 rules=tool.first,tool.second"
    );
    assert_eq!(
        log_relay_metadata("m", false, 0, &[]),
        "POST /v1/messages relay target=m stream=false msgs=0 rules=-"
    );
    let request = JsonValue::parse(br#"{"model":"gpt","input":[1,2],"tools":{}}"#).unwrap();
    assert_eq!(count_in(&request, "input"), 2);
    assert_eq!(
        log_responses_metadata(&request, true, &rules[..1]),
        "POST /v1/messages provider=openai-responses target=gpt stream=true input=2 tools=0 \
         rules=tool.first"
    );
    let empty = JsonValue::parse(b"[]").unwrap();
    assert_eq!(
        log_responses_metadata(&empty, false, &[]),
        "POST /v1/messages provider=openai-responses target= stream=false input=0 tools=0 rules=-"
    );
}

#[test]
fn filters_are_logged_only_where_they_did_something() {
    let line = |stats: FilterStats| stats.log_stats();
    assert_eq!(line(FilterStats::Kimi { dropped: 0 }), None);
    assert_eq!(
        line(FilterStats::Kimi { dropped: 3 }).as_deref(),
        Some("relay stream rules=tool.kimi.web_search.server-tool-filter dropped=3")
    );
    assert_eq!(line(FilterStats::DsmlDetect { found: false }), None);
    assert_eq!(
        line(FilterStats::DsmlDetect { found: true }).as_deref(),
        Some("deepseek stream DSML detect found=true")
    );
    assert_eq!(line(FilterStats::DsmlRewrite { synthesized: false, tool_uses: 2 }), None);
    assert_eq!(
        line(FilterStats::DsmlRewrite { synthesized: true, tool_uses: 2 }).as_deref(),
        Some("deepseek stream DSML rewrite tool_use=2")
    );
}

#[test]
fn skills_need_all_three_settings() {
    let mut cfg = config("codex");
    assert!(!cfg.has_skill_bridge());
    cfg.skill_bridge_dir = Some(b"/srv/bridge".to_vec());
    cfg.skill_data_dir = Some(b"/srv/data".to_vec());
    assert!(!cfg.has_skill_bridge());
    cfg.skill_bridge_token = Some("token".into());
    assert!(cfg.has_skill_bridge());
}
