//! Requests for inference on their way to a provider and back.

use csswitch_gateway::config::{GatewayConfig, GatewayIntent};
use csswitch_gateway::json::JsonValue;
use csswitch_gateway::messages::{
    open_stream, post_nonstream, BodyReadFailure, Reply, StreamOutcome, UpstreamBody,
    UpstreamError, WholeOutcome,
};
use csswitch_gateway::server::codex_attempt::{CodexAuthLoadError, TranslationError};
use csswitch_gateway::server::codex_intake::{
    handle_codex_messages_with_catalog, IntakeEvent, IntakeTask,
};
use csswitch_gateway::server::inference::{
    InferenceEvent, InferencePhase, InferenceRun, InferenceTask,
};
use csswitch_gateway::server::reply::HttpReply;
use csswitch_gateway::server::routing::{
    CodexModelsFailure, CodexResolution, InferenceFault, InferenceRoute,
};
use csswitch_gateway::server::stream::StreamFilterKind;
use serde_json::Value;

fn config(provider: &str, shim_mode: &str) -> GatewayConfig {
    GatewayConfig {
        provider: provider.into(),
        port: 0,
        auth_secret: None,
        api_key: None,
        upstream_url: "https://example.invalid/v1".into(),
        models_url: None,
        relay_thinking: None,
        provider_contract: None,
        intent: GatewayIntent::Formal,
        shim_mode: shim_mode.into(),
        codex_state_root: None,
        codex_contract: None,
        launch_id: "launch".into(),
        skill_data_dir: None,
        skill_bridge_dir: None,
        skill_bridge_token: None,
    }
}

fn body_of(reply: &HttpReply) -> Value {
    serde_json::from_slice(&reply.body).unwrap()
}

fn encoded(model: &str) -> InferenceEvent {
    InferenceEvent::Encoded(Ok((b"request".to_vec(), model.into())))
}

fn replied(body: &[u8]) -> InferenceEvent {
    InferenceEvent::Posted(Ok(UpstreamBody {
        status: 201,
        content_type: "application/json; charset=utf-8".into(),
        body: body.to_vec(),
    }))
}

fn refused() -> UpstreamError {
    UpstreamError { status: 429, upstream_status: Some(429), detail: "upstream 429: busy".into() }
}

fn sent(task: InferenceTask) -> HttpReply {
    match task {
        InferenceTask::Send(reply) => reply,
        _ => panic!("a whole reply must be sent"),
    }
}

fn posts(task: InferenceTask) {
    match task {
        InferenceTask::Post(body) => assert_eq!(body, b"request"),
        _ => panic!("the request must be posted"),
    }
}

#[test]
fn foreign_replies_reach_the_client_in_translation() {
    for (stream, route) in [
        (false, InferenceRoute::OpenAiChat),
        (true, InferenceRoute::OpenAiCustomChat),
        (true, InferenceRoute::OpenAiResponses),
    ] {
        let mut run = InferenceRun::new(&config("qwen", "off"), route, stream, true, false);
        posts(run.step(encoded("kimi-like")));
        match run.step(replied(br#"{"choices":[]}"#)) {
            InferenceTask::Translate(reply) => assert!(reply.get("choices").is_some()),
            _ => panic!("the reply must be translated"),
        }
        let task = run.step(InferenceEvent::Translated(Ok(r#"{"id":"msg"}"#.into())));
        if stream {
            assert!(matches!(task, InferenceTask::Replay(text) if text == r#"{"id":"msg"}"#));
        } else {
            let reply = sent(task);
            assert_eq!((reply.status, reply.reason.as_str()), (200, "OK"));
            assert_eq!(reply.body, br#"{"id":"msg"}"#);
        }
        assert!(matches!(run.phase, InferencePhase::Done));
    }
    let mut run =
        InferenceRun::new(&config("qwen", "off"), InferenceRoute::OpenAiChat, false, false, false);
    posts(run.step(encoded("m")));
    let reply = sent(run.step(replied(b"<html>")));
    assert_eq!(reply.status, 502);
    assert_eq!(body_of(&reply)["error"]["type"], "api_error");
}

#[test]
fn untranslatable_requests_are_refused_unsent() {
    let mut run =
        InferenceRun::new(&config("relay", "off"), InferenceRoute::Relay, true, false, false);
    let fault = InferenceFault::Untranslatable("unsupported block".into());
    let reply = sent(run.step(InferenceEvent::Encoded(Err(fault))));
    assert_eq!(reply.status, 400);
    assert_eq!(body_of(&reply)["error"]["message"], "unsupported block");
    assert!(matches!(run.phase, InferencePhase::Done));
}

#[test]
fn relayed_kimi_replies_are_filtered() {
    let relay = |stream| {
        InferenceRun::new(&config("relay", "rewrite"), InferenceRoute::Relay, stream, true, true)
    };
    let mut run = relay(true);
    assert!(matches!(
        run.step(encoded("moonshot/Kimi-K2")),
        InferenceTask::Open { filter: Some(StreamFilterKind::Kimi), .. }
    ));
    assert!(matches!(run.step(InferenceEvent::Opened(Ok(()))), InferenceTask::Forward));
    let mut run = relay(true);
    assert!(matches!(run.step(encoded("glm-5")), InferenceTask::Open { filter: None, .. }));
    assert_eq!(sent(run.step(InferenceEvent::Opened(Err(refused())))).status, 429);

    let mut run = relay(false);
    posts(run.step(encoded("KIMI")));
    match run.step(replied(b"raw")) {
        InferenceTask::Filter { kind: StreamFilterKind::Kimi, body } => assert_eq!(body, b"raw"),
        _ => panic!("the reply must be filtered"),
    }
    let reply = sent(run.step(InferenceEvent::Filtered(Ok(b"clean".to_vec()))));
    assert_eq!((reply.status, reply.reason.as_str()), (201, "Created"));
    assert_eq!(reply.content_type, "application/json; charset=utf-8");
    assert_eq!(reply.body, b"clean");

    let mut run = relay(false);
    posts(run.step(encoded("kimi")));
    run.step(replied(b"raw"));
    let reply = sent(run.step(InferenceEvent::Filtered(Err("bad reply".into()))));
    assert_eq!(reply.status, 502);
    assert_eq!(body_of(&reply)["error"]["message"], "bad reply");
}

#[test]
fn deepseek_replies_are_rewritten_only_where_asked() {
    let native = |shim_mode: &str, stream, tools, nonce| {
        let cfg = config("deepseek", shim_mode);
        InferenceRun::new(&cfg, InferenceRoute::Native, stream, tools, nonce)
    };
    let mut run = native("rewrite", false, true, true);
    posts(run.step(encoded("deepseek-chat")));
    assert!(matches!(
        run.step(replied(b"raw")),
        InferenceTask::Filter { kind: StreamFilterKind::DsmlRewrite, .. }
    ));
    for (mode, tools, nonce) in
        [("detect", true, true), ("rewrite", false, true), ("rewrite", true, false), ("off", true, true)]
    {
        let mut run = native(mode, false, tools, nonce);
        posts(run.step(encoded("kimi")));
        assert_eq!(sent(run.step(replied(b"raw"))).body, b"raw");
    }
    let mut run = native("detect", true, true, false);
    assert!(matches!(
        run.step(encoded("deepseek-chat")),
        InferenceTask::Open { filter: Some(StreamFilterKind::DsmlDetect), .. }
    ));
    let mut run = native("off", false, false, false);
    posts(run.step(encoded("deepseek-chat")));
    let reply = sent(run.step(InferenceEvent::Posted(Err(refused()))));
    assert_eq!(reply.status, 429);
    assert_eq!(body_of(&reply)["error"]["message"], "upstream 429: busy");
}

fn intake(event: IntakeEvent) -> IntakeTask {
    let request = JsonValue::parse(br#"{"model":"opus"}"#).unwrap();
    handle_codex_messages_with_catalog(&request, event)
}

fn refusal(task: IntakeTask) -> (u16, Value, Option<u16>) {
    match task {
        IntakeTask::Refuse { reply, auth_rejected } => {
            (reply.status, body_of(&reply), auth_rejected)
        }
        _ => panic!("the request must be refused"),
    }
}

#[test]
fn codex_requests_pass_every_step_in_turn() {
    assert!(matches!(
        intake(IntakeEvent::Loaded(Ok(()))),
        IntakeTask::Resolve { selector } if selector == "opus"
    ));
    assert!(matches!(
        intake(IntakeEvent::Resolved(Ok(CodexResolution::Model("gpt-5".into())))),
        IntakeTask::FindKey { model } if model == "gpt-5"
    ));
    assert!(matches!(intake(IntakeEvent::FoundKey(true)), IntakeTask::Translate));
    assert!(matches!(intake(IntakeEvent::Translated(Ok(()))), IntakeTask::Watch));
    assert!(matches!(intake(IntakeEvent::Watching(true)), IntakeTask::Attempt));
}

#[test]
fn codex_requests_are_refused_before_a_post() {
    let login = CodexAuthLoadError {
        status: 401,
        error_type: "authentication_error",
        message: "Codex login is required",
    };
    let (status, body, rejected) = refusal(intake(IntakeEvent::Loaded(Err(login))));
    assert_eq!((status, rejected), (401, None));
    assert_eq!(body["error"]["message"], "Codex login is required");

    let anonymous = JsonValue::parse(br#"{"model":"  "}"#).unwrap();
    let task = handle_codex_messages_with_catalog(&anonymous, IntakeEvent::Loaded(Ok(())));
    let (status, body, _) = refusal(task);
    assert_eq!(status, 400);
    assert_eq!(body["error"]["type"], "route_unknown");

    let unknown = IntakeEvent::Resolved(Ok(CodexResolution::UnknownSelector));
    let (status, body, _) = refusal(intake(unknown));
    assert_eq!(status, 400);
    assert_eq!(
        body["error"]["message"],
        "model selector is not available for this Codex account"
    );
    let none = CodexResolution::NoCompatibleModel { family: "Opus".into() };
    let (status, body, _) = refusal(intake(IntakeEvent::Resolved(Ok(none))));
    assert_eq!(status, 503);
    assert_eq!(body["error"]["type"], "codex_model_unavailable");

    for (upstream_status, expected) in [(Some(401), Some(401)), (Some(403), None), (None, None)] {
        let failure = CodexModelsFailure {
            status: 502,
            error_kind: "upstream".into(),
            upstream_status,
            detail: "models unavailable".into(),
        };
        let (status, body, rejected) = refusal(intake(IntakeEvent::Resolved(Err(failure))));
        assert_eq!((status, rejected), (502, expected));
        assert_eq!(body["error_kind"], "upstream");
    }
    let blank = IntakeEvent::Resolved(Ok(CodexResolution::Model(" ".into())));
    assert_eq!(refusal(intake(blank)).0, 400);
    assert_eq!(refusal(intake(IntakeEvent::FoundKey(false))).0, 500);
    let large = TranslationError { out_of_bounds: true, detail: String::new() };
    assert_eq!(refusal(intake(IntakeEvent::Translated(Err(large)))).0, 413);
    let odd = TranslationError { out_of_bounds: false, detail: "unknown tool".into() };
    let (status, body, _) = refusal(intake(IntakeEvent::Translated(Err(odd))));
    assert_eq!((status, body["error"]["message"].as_str()), (400, Some("unknown tool")));
    assert_eq!(refusal(intake(IntakeEvent::Watching(false))).0, 500);
}

/// Runs a request whose provider answers this, and counts what is sent to it.
fn count_posts(stream: bool, whole: impl Fn() -> WholeOutcome) -> (usize, Option<HttpReply>) {
    let mut run =
        InferenceRun::new(&config("deepseek", "off"), InferenceRoute::Native, stream, false, false);
    let mut posts = 0;
    let mut event = encoded("deepseek-chat");
    loop {
        event = match run.step(event) {
            InferenceTask::Post(_) => {
                posts += 1;
                InferenceEvent::Posted(post_nonstream(whole(), "fake-key"))
            }
            InferenceTask::Open { .. } => {
                posts += 1;
                let opened = StreamOutcome::Opened {
                    status: 200,
                    content_type: Some("text/event-stream".into()),
                };
                InferenceEvent::Opened(open_stream(opened, "fake-key").map(|_| ()))
            }
            InferenceTask::Send(reply) => return (posts, Some(reply)),
            InferenceTask::Forward => return (posts, None),
            _ => panic!("nothing is translated or filtered here"),
        };
    }
}

#[test]
fn nonstream_body_failure_and_empty_stream_handshake_post_exactly_once() {
    let incomplete = || {
        WholeOutcome::Replied(Reply {
            status: 200,
            content_type: Some("application/json".into()),
            body: Err(BodyReadFailure::Io("unexpected end".into())),
        })
    };
    let (posts, reply) = count_posts(false, incomplete);
    assert_eq!((posts, reply.unwrap().status), (1, 502));
    let (posts, reply) = count_posts(true, incomplete);
    assert_eq!(posts, 1);
    assert!(reply.is_none());
}

#[test]
fn inference_redirect_is_not_followed_or_reposted() {
    let redirect = || {
        WholeOutcome::Replied(Reply { status: 307, content_type: None, body: Ok(Vec::new()) })
    };
    let error = post_nonstream(redirect(), "fake-key").unwrap_err();
    assert_eq!(error.status, 502);
    assert_eq!(error.upstream_status, Some(307));
    let (posts, reply) = count_posts(false, redirect);
    assert_eq!((posts, reply.unwrap().status), (1, 502));
}
