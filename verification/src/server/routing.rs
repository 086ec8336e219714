//! Where a request goes.

use vstd::prelude::*;

use crate::config::{GatewayConfig, GatewayIntent};
use crate::json::{field_of, parsed_bytes, JsonTree, JsonValue};
use crate::json_text::{json_string_of, object_text, ObjectText};
use crate::messages::UpstreamError;
use crate::name_map::NameMap;
use crate::server::codex_attempt::{model_in, requested_model, CodexAuthLoadError};
use crate::server::reply::{
    api_error_json, codex_model_unavailable_json, error_reply, forbidden_json, invalid_request_json,
    json_reply, models_error_json, models_error_text, not_found_json, reason_of,
    request_too_large_json, route_unknown_json, status_reason, typed_error_json, write_json,
    HttpReply, Reply,
};
use crate::text::{
    append_bytes, as_text, chars_contain, chars_of, contains, decimal, join, lowered, str_eq,
    to_decimal, to_lower, view_of_str,
};
use vstd::string::*;
use vstd::utf8::*;

verus! {

/// What the head of a request asks for.
pub enum Dispatch {
    Connect,
    Get,
    Post,
    Refuse(HttpReply),
}

/// Reads the method of a request.
pub fn handle_one(method: &str, target: &str) -> (dispatch: Dispatch)
    ensures
        match dispatch {
            Dispatch::Connect => method@ == "CONNECT"@,
            Dispatch::Get => method@ == "GET"@,
            Dispatch::Post => method@ == "POST"@,
            Dispatch::Refuse(reply) => method@ != "CONNECT"@ && method@ != "GET"@ && method@
                != "POST"@ && reply@ == error_reply(
                404,
                "Not Found"@,
                "not_found_error"@,
                target@,
            ),
        },
{
    if str_eq(method, "CONNECT") {
        Dispatch::Connect
    } else if str_eq(method, "GET") {
        Dispatch::Get
    } else if str_eq(method, "POST") {
        Dispatch::Post
    } else {
        Dispatch::Refuse(not_found_json(target))
    }
}

/// What a gateway needs before it serves.
#[derive(Clone, Copy, Debug, PartialEq, Eq, Structural)]
pub struct ServePlan {
    pub request_nonces: bool,
    pub codex: bool,
}

/// Why a gateway cannot serve; nothing if it can.
pub open spec fn serve_error(cfg: GatewayConfig, has_state_root: bool) -> Option<Seq<char>> {
    if cfg.provider@ != "codex"@ {
        None
    } else if cfg.codex_contract is None {
        Some("Codex provider contract is unavailable"@)
    } else if !has_state_root {
        Some("Codex model catalog state root is unavailable"@)
    } else {
        None
    }
}

pub fn serve(cfg: &GatewayConfig, has_state_root: bool) -> (plan: Result<ServePlan, &'static str>)
    ensures
        match plan {
            Ok(plan) => {
                &&& serve_error(*cfg, has_state_root) is None
                &&& plan.request_nonces == (cfg.provider@ == "deepseek"@ && cfg.shim_mode@
                    == "rewrite"@)
                &&& plan.codex == (cfg.provider@ == "codex"@)
            },
            Err(reason) => serve_error(*cfg, has_state_root) == Some(reason@),
        },
{
    let codex = str_eq(cfg.provider.as_str(), "codex");
    if codex {
        if cfg.codex_contract.is_none() {
            return Err("Codex provider contract is unavailable");
        }
        if !has_state_root {
            return Err("Codex model catalog state root is unavailable");
        }
    }
    let request_nonces = str_eq(cfg.provider.as_str(), "deepseek") && str_eq(
        cfg.shim_mode.as_str(),
        "rewrite",
    );
    Ok(ServePlan { request_nonces, codex })
}

// ---------------------------------------------------------------------------
// GET
// ---------------------------------------------------------------------------

/// What the gateway says of itself, with the fields in the order of their names.
pub open spec fn health_members(
    cfg: GatewayConfig,
    intent: Seq<char>,
    catalog_fp: Option<Seq<char>>,
) -> Seq<(Seq<char>, Option<Seq<char>>)> {
    (match catalog_fp {
        Some(fp) => seq![("catalog_fp"@, json_string_of(fp))],
        None => Seq::empty(),
    }) + seq![
        ("gateway"@, json_string_of("rust"@)),
        ("intent"@, json_string_of(intent)),
        ("launch_id"@, json_string_of(cfg.launch_id@)),
        ("provider"@, json_string_of(cfg.provider@)),
    ] + (match cfg.provider_contract {
        Some(contract) => seq![
            ("provider_contract_digest"@, json_string_of(contract.catalog_digest@)),
            ("provider_contract_id"@, json_string_of(contract.contract_id@)),
        ],
        None => Seq::empty(),
    }) + seq![
        ("shim"@, json_string_of(cfg.shim_mode@)),
        ("status"@, json_string_of("ok"@)),
    ]
}

pub fn health_reply(cfg: &GatewayConfig, intent: &str, catalog_fp: Option<&str>) -> (reply:
    HttpReply)
    ensures
        reply@ == json_reply(
            200,
            "OK"@,
            object_text(health_members(*cfg, intent@, view_of_str(catalog_fp))),
        ),
{
    let mut object = ObjectText::new();
    if let Some(fp) = catalog_fp {
        object.put_text("catalog_fp", fp);
    }
    object.put_text("gateway", "rust");
    object.put_text("intent", intent);
    object.put_text("launch_id", cfg.launch_id.as_str());
    object.put_text("provider", cfg.provider.as_str());
    if let Some(contract) = &cfg.provider_contract {
        object.put_text("provider_contract_digest", contract.catalog_digest.as_str());
        object.put_text("provider_contract_id", contract.contract_id.as_str());
    }
    object.put_text("shim", cfg.shim_mode.as_str());
    object.put_text("status", "ok");
    assert(object@ =~= health_members(*cfg, intent@, view_of_str(catalog_fp)));
    write_json(200, "OK", object.text())
}

/// What a GET leads to.
pub enum GetPlan {
    Reply(HttpReply),
    StaticCatalog,
    QwenModels,
    CodexModels { refresh: bool },
    LiveModels { url: String },
    DeepseekModels,
}

/// What a [`GetPlan`] says.
pub ghost enum Get {
    Reply(Reply),
    StaticCatalog,
    QwenModels,
    CodexModels { refresh: bool },
    LiveModels { url: Seq<char> },
    DeepseekModels,
}

impl View for GetPlan {
    type V = Get;

    open spec fn view(&self) -> Get {
        match *self {
            GetPlan::Reply(reply) => Get::Reply(reply@),
            GetPlan::StaticCatalog => Get::StaticCatalog,
            GetPlan::QwenModels => Get::QwenModels,
            GetPlan::CodexModels { refresh } => Get::CodexModels { refresh },
            GetPlan::LiveModels { url } => Get::LiveModels { url: url@ },
            GetPlan::DeepseekModels => Get::DeepseekModels,
        }
    }
}

/// A provider whose models are asked for at its own endpoint.
pub open spec fn lists_live_models(provider: Seq<char>) -> bool {
    provider == "openai-custom"@ || provider == "openai-responses"@ || provider == "relay"@
}

/// Where a request for models goes.
pub open spec fn models_plan(
    cfg: GatewayConfig,
    has_static_catalog: bool,
    has_codex_catalog: bool,
) -> Get {
    let provider = cfg.provider@;
    if provider != "codex"@ && !(cfg.intent is ScratchModels) {
        if has_static_catalog {
            Get::StaticCatalog
        } else {
            Get::Reply(
                error_reply(
                    503,
                    "Service Unavailable"@,
                    "catalog_unavailable"@,
                    "static model catalog is unavailable"@,
                ),
            )
        }
    } else if provider == "qwen"@ {
        Get::QwenModels
    } else if provider == "codex"@ {
        if has_codex_catalog {
            Get::CodexModels { refresh: cfg.intent is ScratchModels }
        } else {
            Get::Reply(
                json_reply(
                    502,
                    reason_of(502),
                    models_error_text("internal"@, None, "Codex model catalog is unavailable"@),
                ),
            )
        }
    } else if lists_live_models(provider) {
        match cfg.models_url {
            Some(url) => Get::LiveModels { url: url@ },
            None => Get::Reply(
                json_reply(
                    502,
                    reason_of(502),
                    models_error_text("network"@, None, "missing models URL"@),
                ),
            ),
        }
    } else {
        Get::DeepseekModels
    }
}

fn plan_models(cfg: &GatewayConfig, has_static_catalog: bool, has_codex_catalog: bool) -> (plan:
    GetPlan)
    ensures
        plan@ == models_plan(*cfg, has_static_catalog, has_codex_catalog),
{
    let provider = cfg.provider.as_str();
    let scratch = cfg.intent == GatewayIntent::ScratchModels;
    if !str_eq(provider, "codex") && !scratch {
        if has_static_catalog {
            GetPlan::StaticCatalog
        } else {
            GetPlan::Reply(
                typed_error_json(
                    503,
                    "Service Unavailable",
                    "catalog_unavailable",
                    "static model catalog is unavailable",
                ),
            )
        }
    } else if str_eq(provider, "qwen") {
        GetPlan::QwenModels
    } else if str_eq(provider, "codex") {
        if has_codex_catalog {
            GetPlan::CodexModels { refresh: scratch }
        } else {
            GetPlan::Reply(
                models_error_json(502, "internal", None, "Codex model catalog is unavailable"),
            )
        }
    } else if str_eq(provider, "openai-custom") || str_eq(provider, "openai-responses") || str_eq(
        provider,
        "relay",
    ) {
        match &cfg.models_url {
            Some(url) => GetPlan::LiveModels { url: url.clone() },
            None => GetPlan::Reply(models_error_json(502, "network", None, "missing models URL")),
        }
    } else {
        GetPlan::DeepseekModels
    }
}

/// Where a GET goes. `path` is absent where the secret in the target was wrong.
pub open spec fn get_plan(
    cfg: GatewayConfig,
    path: Option<Seq<char>>,
    intent: Seq<char>,
    catalog_fp: Option<Seq<char>>,
    has_codex_catalog: bool,
) -> Get {
    match path {
        None => Get::Reply(error_reply(403, "Forbidden"@, "permission_error"@, "forbidden"@)),
        Some(path) => if path == "/health"@ {
            Get::Reply(
                json_reply(200, "OK"@, object_text(health_members(cfg, intent, catalog_fp))),
            )
        } else if path == "/v1/models"@ {
            models_plan(cfg, catalog_fp is Some, has_codex_catalog)
        } else {
            Get::Reply(error_reply(404, "Not Found"@, "not_found_error"@, path))
        },
    }
}

pub fn handle_get(
    cfg: &GatewayConfig,
    path: Option<&str>,
    intent: &str,
    catalog_fp: Option<&str>,
    has_codex_catalog: bool,
) -> (plan: GetPlan)
    ensures
        plan@ == get_plan(
            *cfg,
            view_of_str(path),
            intent@,
            view_of_str(catalog_fp),
            has_codex_catalog,
        ),
{
    match path {
        None => GetPlan::Reply(forbidden_json()),
        Some(path) => {
            if str_eq(path, "/health") {
                GetPlan::Reply(health_reply(cfg, intent, catalog_fp))
            } else if str_eq(path, "/v1/models") {
                plan_models(cfg, catalog_fp.is_some(), has_codex_catalog)
            } else {
                GetPlan::Reply(not_found_json(path))
            }
        },
    }
}

pub open spec fn auth_refusal(error: CodexAuthLoadError) -> Reply {
    error_reply(error.status, reason_of(error.status), error.error_type@, error.message@)
}

/// The reply where credentials cannot be had.
pub fn auth_error_reply(error: &CodexAuthLoadError) -> (reply: HttpReply)
    ensures
        reply@ == auth_refusal(*error),
{
    typed_error_json(error.status, status_reason(error.status), error.error_type, error.message)
}

/// Why the models of Codex cannot be had.
pub struct CodexModelsFailure {
    pub status: u16,
    pub error_kind: String,
    pub upstream_status: Option<u16>,
    pub detail: String,
}

pub open spec fn models_refusal(error: CodexModelsFailure) -> Reply {
    json_reply(
        error.status,
        reason_of(error.status),
        models_error_text(error.error_kind@, error.upstream_status, error.detail@),
    )
}

/// The reply where the models of Codex cannot be had, and whether the credentials are to
/// be refreshed for the next request.
pub fn codex_models_failure_reply(error: &CodexModelsFailure) -> (told: (HttpReply, bool))
    ensures
        told.0@ == models_refusal(*error),
        told.1 == (error.upstream_status == Some(401u16)),
{
    let refresh = match error.upstream_status {
        Some(status) => status == 401,
        None => false,
    };
    (
        models_error_json(
            error.status,
            error.error_kind.as_str(),
            error.upstream_status,
            error.detail.as_str(),
        ),
        refresh,
    )
}

/// The reply where the models of a provider cannot be had.
pub fn live_models_failure_reply(error: &UpstreamError) -> (reply: HttpReply)
    ensures
        reply@ == json_reply(
            error.status,
            reason_of(error.status),
            models_error_text(
                if error.upstream_status is Some {
                    "upstream"@
                } else {
                    "network"@
                },
                error.upstream_status,
                error.detail@,
            ),
        ),
{
    let kind = if error.upstream_status.is_some() {
        "upstream"
    } else {
        "network"
    };
    models_error_json(error.status, kind, error.upstream_status, error.detail.as_str())
}

/// Reads the models of a provider; the reply where they are no JSON.
pub fn read_live_models(body: &[u8]) -> (models: Result<JsonValue, HttpReply>)
    ensures
        match models {
            Ok(models) => parsed_bytes(body@) == Ok::<JsonTree, Seq<char>>(models@),
            Err(reply) => parsed_bytes(body@) matches Err(reason) && reply@ == json_reply(
                502,
                reason_of(502),
                models_error_text(
                    "protocol"@,
                    None,
                    "upstream models JSON parse failed: "@ + reason,
                ),
            ),
        },
{
    match JsonValue::parse(body) {
        Ok(models) => Ok(models),
        Err(reason) => Err(live_models_parse_failure_reply(reason.as_str())),
    }
}

/// The reply where the models of a provider are no JSON.
pub fn live_models_parse_failure_reply(reason: &str) -> (reply: HttpReply)
    ensures
        reply@ == json_reply(
            502,
            reason_of(502),
            models_error_text("protocol"@, None, "upstream models JSON parse failed: "@ + reason@),
        ),
{
    models_error_json(
        502,
        "protocol",
        None,
        join("upstream models JSON parse failed: ", reason).as_str(),
    )
}

/// The head of a reply with the models of Codex. It tells where they come from and how
/// old they are.
pub open spec fn codex_models_head(source: Seq<char>, age_seconds: u64, length: nat) -> Seq<char> {
    "HTTP/1.1 200 OK\r\ncontent-type: application/json\r\ncontent-length: "@ + decimal(length)
        + "\r\nx-csswitch-model-source: "@ + source + "\r\nx-csswitch-model-age-seconds: "@
        + decimal(age_seconds as nat) + "\r\nconnection: close\r\n\r\n"@
}

pub fn write_codex_models_response(source: &str, age_seconds: u64, body: &[u8]) -> (bytes: Vec<u8>)
    ensures
        bytes@ == encode_utf8(codex_models_head(source@, age_seconds, body@.len())) + body@,
{
    let mut text =
        "HTTP/1.1 200 OK\r\ncontent-type: application/json\r\ncontent-length: ".to_owned();
    text.append(to_decimal(body.len() as u64).as_str());
    text.append("\r\nx-csswitch-model-source: ");
    text.append(source);
    text.append("\r\nx-csswitch-model-age-seconds: ");
    text.append(to_decimal(age_seconds).as_str());
    text.append("\r\nconnection: close\r\n\r\n");
    let mut bytes: Vec<u8> = Vec::new();
    append_bytes(&mut bytes, text.as_str().as_bytes());
    append_bytes(&mut bytes, body);
    assert(bytes@ =~= encode_utf8(text@) + body@);
    bytes
}

// ---------------------------------------------------------------------------
// POST
// ---------------------------------------------------------------------------

/// What a POST leads to, before its body is read.
pub enum PostPlan {
    Reply(HttpReply),
    EmptyObject,
    ReadBody(u64),
}

/// What a [`PostPlan`] says.
pub ghost enum Post {
    Reply(Reply),
    EmptyObject,
    ReadBody(u64),
}

impl View for PostPlan {
    type V = Post;

    open spec fn view(&self) -> Post {
        match *self {
            PostPlan::Reply(reply) => Post::Reply(reply@),
            PostPlan::EmptyObject => Post::EmptyObject,
            PostPlan::ReadBody(length) => Post::ReadBody(length),
        }
    }
}

/// What is done about the body of a POST. A request to Codex that declares more than
/// `codex_limit` bytes is refused unread.
pub open spec fn post_plan(
    provider: Seq<char>,
    authorized: bool,
    length: Result<u64, Seq<char>>,
    codex_limit: u64,
) -> Post {
    if !authorized {
        Post::Reply(error_reply(403, "Forbidden"@, "permission_error"@, "forbidden"@))
    } else {
        match length {
            Err(reason) => Post::Reply(
                error_reply(400, "Bad Request"@, "invalid_request_error"@, reason),
            ),
            Ok(length) => if provider == "codex"@ && length > codex_limit {
                Post::Reply(
                    error_reply(
                        413,
                        "Payload Too Large"@,
                        "invalid_request_error"@,
                        "request body is too large"@,
                    ),
                )
            } else if length == 0 {
                Post::EmptyObject
            } else {
                Post::ReadBody(length)
            },
        }
    }
}

pub fn handle_post(
    provider: &str,
    authorized: bool,
    length: Result<u64, String>,
    codex_limit: u64,
) -> (plan: PostPlan)
    ensures
        plan@ == post_plan(
            provider@,
            authorized,
            match length {
                Ok(length) => Ok(length),
                Err(reason) => Err(reason@),
            },
            codex_limit,
        ),
{
    if !authorized {
        return PostPlan::Reply(forbidden_json());
    }
    match length {
        Err(reason) => PostPlan::Reply(invalid_request_json(reason.as_str())),
        Ok(length) => {
            if str_eq(provider, "codex") && length > codex_limit {
                PostPlan::Reply(request_too_large_json())
            } else if length == 0 {
                PostPlan::EmptyObject
            } else {
                PostPlan::ReadBody(length)
            }
        },
    }
}

/// Whether the path of a POST, whose body was read, is one that is served.
pub fn route_post(path: &str) -> (refusal: Option<HttpReply>)
    ensures
        match refusal {
            None => path@ == "/v1/messages"@,
            Some(reply) => path@ != "/v1/messages"@ && reply@ == error_reply(
                404,
                "Not Found"@,
                "not_found_error"@,
                path@,
            ),
        },
{
    if str_eq(path, "/v1/messages") {
        None
    } else {
        Some(not_found_json(path))
    }
}

/// What a request for inference leads to.
pub enum MessagesPlan {
    Reply(HttpReply),
    Codex { stream: bool },
    Resolve { model: String, stream: bool },
}

/// What a [`MessagesPlan`] says.
pub ghost enum Messages {
    Reply(Reply),
    Codex { stream: bool },
    Resolve { model: Seq<char>, stream: bool },
}

impl View for MessagesPlan {
    type V = Messages;

    open spec fn view(&self) -> Messages {
        match *self {
            MessagesPlan::Reply(reply) => Messages::Reply(reply@),
            MessagesPlan::Codex { stream } => Messages::Codex { stream },
            MessagesPlan::Resolve { model, stream } => Messages::Resolve { model: model@, stream },
        }
    }
}

/// The caller wants the reply as a stream.
pub open spec fn wants_stream(request: JsonTree) -> bool {
    field_of(request, "stream"@) == Some(JsonTree::Bool(true))
}

pub fn stream_wanted(request: &JsonValue) -> (yes: bool)
    ensures
        yes == wants_stream(request@),
{
    match request.get("stream") {
        Some(JsonValue::Bool(yes)) => *yes,
        _ => false,
    }
}

pub open spec fn invalid(detail: Seq<char>) -> Reply {
    error_reply(400, "Bad Request"@, "invalid_request_error"@, detail)
}

pub open spec fn unroutable(detail: Seq<char>) -> Reply {
    error_reply(400, "Bad Request"@, "route_unknown"@, detail)
}

pub open spec fn api_failure(status: u16, detail: Seq<char>) -> Reply {
    error_reply(status, reason_of(status), "api_error"@, detail)
}

pub open spec fn request_view(request: Result<JsonValue, String>) -> Result<JsonTree, Seq<char>> {
    match request {
        Ok(request) => Ok(request@),
        Err(reason) => Err(reason@),
    }
}

/// Where a request for inference goes, before its model is looked up.
pub open spec fn messages_plan(
    cfg: GatewayConfig,
    request: Result<JsonTree, Seq<char>>,
    has_codex_transport: bool,
    has_codex_catalog: bool,
    has_static_catalog: bool,
) -> Messages {
    match request {
        Err(reason) => Messages::Reply(invalid(reason)),
        Ok(request) => if !(request is Object) {
            Messages::Reply(invalid("request body must be a JSON object"@))
        } else if cfg.provider@ == "codex"@ {
            if !has_codex_transport {
                Messages::Reply(api_failure(502, "Codex transport is unavailable"@))
            } else if !has_codex_catalog {
                Messages::Reply(api_failure(502, "Codex model catalog is unavailable"@))
            } else {
                Messages::Codex { stream: wants_stream(request) }
            }
        } else if cfg.intent is ScratchModels {
            Messages::Reply(unroutable("scratch-models does not accept inference requests"@))
        } else {
            match model_in(request) {
                None => Messages::Reply(unroutable("model selector is required"@)),
                Some(model) => if has_static_catalog {
                    Messages::Resolve { model, stream: wants_stream(request) }
                } else {
                    Messages::Reply(unroutable("static model catalog is unavailable"@))
                },
            }
        },
    }
}

/// Where a request for inference goes whose body was read as `request`.
pub fn plan_messages(
    cfg: &GatewayConfig,
    request: &Result<JsonValue, String>,
    has_codex_transport: bool,
    has_codex_catalog: bool,
    has_static_catalog: bool,
) -> (plan: MessagesPlan)
    ensures
        plan@ == messages_plan(
            *cfg,
            request_view(*request),
            has_codex_transport,
            has_codex_catalog,
            has_static_catalog,
        ),
{
    let request = match request {
        Ok(request) => request,
        Err(reason) => {
            return MessagesPlan::Reply(invalid_request_json(reason.as_str()));
        },
    };
    match request {
        JsonValue::Object(_) => {},
        _ => {
            return MessagesPlan::Reply(invalid_request_json("request body must be a JSON object"));
        },
    }
    let stream = stream_wanted(request);
    if str_eq(cfg.provider.as_str(), "codex") {
        if !has_codex_transport {
            return MessagesPlan::Reply(api_error_json(502, "Codex transport is unavailable"));
        }
        if !has_codex_catalog {
            return MessagesPlan::Reply(api_error_json(502, "Codex model catalog is unavailable"));
        }
        return MessagesPlan::Codex { stream };
    }
    if cfg.intent == GatewayIntent::ScratchModels {
        return MessagesPlan::Reply(
            route_unknown_json("scratch-models does not accept inference requests"),
        );
    }
    match requested_model(request) {
        None => MessagesPlan::Reply(route_unknown_json("model selector is required")),
        Some(model) => {
            if has_static_catalog {
                MessagesPlan::Resolve { model: model.to_owned(), stream }
            } else {
                MessagesPlan::Reply(route_unknown_json("static model catalog is unavailable"))
            }
        },
    }
}

/// Reads the body of a request for inference, and says where the request goes.
pub fn handle_messages(
    cfg: &GatewayConfig,
    body: &[u8],
    has_codex_transport: bool,
    has_codex_catalog: bool,
    has_static_catalog: bool,
) -> (planned: (Result<JsonValue, String>, MessagesPlan))
    ensures
        request_view(planned.0) == parsed_bytes(body@),
        planned.1@ == messages_plan(
            *cfg,
            parsed_bytes(body@),
            has_codex_transport,
            has_codex_catalog,
            has_static_catalog,
        ),
{
    let request = JsonValue::parse(body);
    let plan = plan_messages(
        cfg,
        &request,
        has_codex_transport,
        has_codex_catalog,
        has_static_catalog,
    );
    (request, plan)
}

/// In which terms a provider is spoken to.
#[derive(Clone, Copy, Debug, PartialEq, Eq, Structural)]
pub enum InferenceRoute {
    OpenAiChat,
    OpenAiCustomChat,
    OpenAiResponses,
    Relay,
    Native,
}

pub open spec fn route_of(provider: Seq<char>) -> InferenceRoute {
    if provider == "qwen"@ {
        InferenceRoute::OpenAiChat
    } else if provider == "openai-custom"@ {
        InferenceRoute::OpenAiCustomChat
    } else if provider == "openai-responses"@ {
        InferenceRoute::OpenAiResponses
    } else if provider == "relay"@ {
        InferenceRoute::Relay
    } else {
        InferenceRoute::Native
    }
}

/// A model that is in the active profile.
pub struct ResolvedInference {
    pub route: InferenceRoute,
    pub needs_nonce: bool,
}

/// Where a request goes once its model was looked up. `target` is the model at the
/// provider, where the profile has one.
pub fn resolve_inference(cfg: &GatewayConfig, target: Option<&str>, has_tools: bool) -> (resolved:
    Result<ResolvedInference, HttpReply>)
    ensures
        match resolved {
            Ok(resolved) => {
                &&& target is Some
                &&& resolved.route == route_of(cfg.provider@)
                &&& resolved.needs_nonce == (cfg.provider@ == "deepseek"@ && cfg.shim_mode@
                    == "rewrite"@ && has_tools)
            },
            Err(reply) => target is None && reply@ == unroutable(
                "model selector is not present in the active profile"@,
            ),
        },
{
    if target.is_none() {
        return Err(route_unknown_json("model selector is not present in the active profile"));
    }
    let provider = cfg.provider.as_str();
    let route = if str_eq(provider, "qwen") {
        InferenceRoute::OpenAiChat
    } else if str_eq(provider, "openai-custom") {
        InferenceRoute::OpenAiCustomChat
    } else if str_eq(provider, "openai-responses") {
        InferenceRoute::OpenAiResponses
    } else if str_eq(provider, "relay") {
        InferenceRoute::Relay
    } else {
        InferenceRoute::Native
    };
    let needs_nonce = str_eq(provider, "deepseek") && str_eq(cfg.shim_mode.as_str(), "rewrite")
        && has_tools;
    Ok(ResolvedInference { route, needs_nonce })
}

/// A relayed model whose replies need the Kimi filter.
pub fn is_kimi(target_model: &str) -> (yes: bool)
    ensures
        yes == contains(lowered(target_model@), "kimi"@),
{
    chars_contain(&to_lower(target_model), &chars_of("kimi"))
}

/// What went wrong on the way to a provider and back.
pub enum InferenceFault {
    NoSigner(String),
    Untranslatable(String),
    Unencodable(String),
    Refused(UpstreamError),
    UnreadableReply(String),
    UntranslatableReply(String),
}

pub open spec fn fault_reply(fault: InferenceFault) -> Reply {
    match fault {
        InferenceFault::NoSigner(reason) => api_failure(500, reason@),
        InferenceFault::Untranslatable(reason) => invalid(reason@),
        InferenceFault::Unencodable(reason) => invalid(reason@),
        InferenceFault::Refused(error) => api_failure(error.status, error.detail@),
        InferenceFault::UnreadableReply(reason) => api_failure(502, reason@),
        InferenceFault::UntranslatableReply(reason) => api_failure(502, reason@),
    }
}

pub fn inference_fault_reply(fault: &InferenceFault) -> (reply: HttpReply)
    ensures
        reply@ == fault_reply(*fault),
{
    match fault {
        InferenceFault::NoSigner(reason) => api_error_json(500, reason.as_str()),
        InferenceFault::Untranslatable(reason) => invalid_request_json(reason.as_str()),
        InferenceFault::Unencodable(reason) => invalid_request_json(reason.as_str()),
        InferenceFault::Refused(error) => api_error_json(error.status, error.detail.as_str()),
        InferenceFault::UnreadableReply(reason) => api_error_json(502, reason.as_str()),
        InferenceFault::UntranslatableReply(reason) => api_error_json(502, reason.as_str()),
    }
}

/// Reads a provider's reply that is to be translated; the reply where it is no JSON.
pub fn read_inference_reply(body: &[u8]) -> (read: Result<JsonValue, HttpReply>)
    ensures
        match read {
            Ok(json) => parsed_bytes(body@) == Ok::<JsonTree, Seq<char>>(json@),
            Err(reply) => parsed_bytes(body@) matches Err(reason) && reply@ == api_failure(
                502,
                reason,
            ),
        },
{
    match JsonValue::parse(body) {
        Ok(json) => Ok(json),
        Err(reason) => Err(inference_fault_reply(&InferenceFault::UnreadableReply(reason))),
    }
}

pub open spec fn passed_reply(status: u16, content_type: Seq<char>, body: Seq<u8>) -> Reply {
    Reply { status, reason: reason_of(status), content_type, body }
}

/// Passes a provider's reply on.
pub fn pass_reply(status: u16, content_type: String, body: Vec<u8>) -> (reply: HttpReply)
    ensures
        reply@ == passed_reply(status, content_type@, body@),
{
    HttpReply { status, reason: status_reason(status).to_owned(), content_type, body }
}

// ---------------------------------------------------------------------------
// Tools
// ---------------------------------------------------------------------------

/// The tools that a request declares.
pub open spec fn declared_tools(request: JsonTree) -> Seq<JsonTree> {
    match field_of(request, "tools"@) {
        Some(JsonTree::List(tools)) => tools,
        _ => Seq::empty(),
    }
}

pub open spec fn tool_name(tool: JsonTree) -> Option<Seq<char>> {
    match field_of(tool, "name"@) {
        Some(JsonTree::Text(name)) if name.len() > 0 => Some(name),
        _ => None,
    }
}

/// The input schema of the last tool of this name; an empty object where it has none.
pub open spec fn tool_schema(tools: Seq<JsonTree>, name: Seq<char>) -> Option<JsonTree>
    decreases tools.len(),
{
    if tools.len() == 0 {
        None
    } else if tool_name(tools.last()) == Some(name) {
        match field_of(tools.last(), "input_schema"@) {
            Some(schema) => Some(schema),
            None => Some(JsonTree::Object(Seq::empty())),
        }
    } else {
        tool_schema(tools.drop_last(), name)
    }
}

pub open spec fn schema_view(schema: Option<Option<&JsonValue>>) -> Option<JsonTree> {
    match schema {
        Some(Some(schema)) => Some(schema@),
        Some(None) => Some(JsonTree::Object(Seq::empty())),
        None => None,
    }
}

/// The tools of a request by their names. A tool without a schema stands for one with an
/// empty object.
pub fn known_tools_from_request<'a>(request: &'a JsonValue) -> (known: NameMap<
    Option<&'a JsonValue>,
>)
    ensures
        known.wf(),
        forall|name: Seq<char>| #[trigger]
            schema_view(known.value(name)) == tool_schema(declared_tools(request@), name),
{
    let mut known: NameMap<Option<&'a JsonValue>> = NameMap::new();
    let tools = match request.get("tools") {
        Some(JsonValue::List(tools)) => tools,
        _ => {
            return known;
        },
    };
    let ghost all = crate::json::trees(tools@);
    proof {
        crate::json::lemma_trees(tools@);
    }
    assert(all.take(0) =~= Seq::empty());
    let mut i: usize = 0;
    while i < tools.len()
        invariant
            i <= tools@.len(),
            all == crate::json::trees(tools@),
            all.len() == tools@.len(),
            forall|k: int| 0 <= k < tools@.len() ==> #[trigger] all[k] == tools@[k].tree(),
            known.wf(),
            forall|name: Seq<char>| #[trigger]
                schema_view(known.value(name)) == tool_schema(all.take(i as int), name),
        decreases tools.len() - i,
    {
        let ghost before = known;
        proof {
            assert(all.take(i + 1).drop_last() =~= all.take(i as int));
            assert(all.take(i + 1).last() == all[i as int]);
        }
        if let Some(name) = tools[i].get("name") {
            if let Some(name) = name.as_text() {
                if name.unicode_len() > 0 {
                    known.insert(name.to_owned(), tools[i].get("input_schema"));
                }
            }
        }
        i += 1;
        assert forall|name: Seq<char>| #[trigger]
            schema_view(known.value(name)) == tool_schema(all.take(i as int), name) by {
            assert(schema_view(before.value(name)) == tool_schema(all.take(i - 1), name));
        }
    }
    assert(all.take(i as int) =~= all);
    known
}

// ---------------------------------------------------------------------------
// Codex
// ---------------------------------------------------------------------------

/// How the models of an account answer a selector. It may name a role in a family of
/// models that the account has no model for.
pub enum CodexResolution {
    Model(String),
    UnknownSelector,
    NoCompatibleModel { family: String },
}

/// What is said where an account has no model for a role.
pub open spec fn no_model_for_role(family: Seq<char>) -> Seq<char> {
    "this Codex account has no compatible standard Responses model for the requested "@ + family
        + " role"@
}

pub open spec fn target_of(resolution: CodexResolution) -> Result<Seq<char>, Reply> {
    match resolution {
        CodexResolution::Model(model) => Ok(model@),
        CodexResolution::UnknownSelector => Err(
            unroutable("model selector is not available for this Codex account"@),
        ),
        CodexResolution::NoCompatibleModel { family } => Err(
            error_reply(
                503,
                "Service Unavailable"@,
                "codex_model_unavailable"@,
                no_model_for_role(family@),
            ),
        ),
    }
}

/// The model at Codex that a selector stands for, or why there is none.
pub fn codex_target(resolution: CodexResolution) -> (target: Result<String, HttpReply>)
    ensures
        target_of(resolution) == (match target {
            Ok(model) => Ok::<Seq<char>, Reply>(model@),
            Err(reply) => Err(reply@),
        }),
{
    match resolution {
        CodexResolution::Model(model) => Ok(model),
        CodexResolution::UnknownSelector => Err(
            route_unknown_json("model selector is not available for this Codex account"),
        ),
        CodexResolution::NoCompatibleModel { family } => {
            let mut detail =
                "this Codex account has no compatible standard Responses model for the requested ".to_owned();
            detail.append(family.as_str());
            detail.append(" role");
            Err(codex_model_unavailable_json(detail.as_str()))
        },
    }
}

/// The selector of a request to Codex.
pub fn codex_selector(request: &JsonValue) -> (selector: Result<&str, HttpReply>)
    ensures
        match selector {
            Ok(selector) => model_in(request@) == Some(selector@),
            Err(reply) => model_in(request@) is None && reply@ == unroutable(
                "model selector is required for Codex"@,
            ),
        },
{
    match requested_model(request) {
        Some(model) => Ok(model),
        None => Err(route_unknown_json("model selector is required for Codex")),
    }
}

/// The credentials are refreshed for the next request where they were not accepted, but
/// not where they were accepted and not allowed.
pub fn refreshes_credentials(status: u16) -> (yes: bool)
    ensures
        yes == (status == 401),
{
    status == 401
}

// ---------------------------------------------------------------------------
// Signed reasoning
// ---------------------------------------------------------------------------

/// The secret that signs reasoning: the key of the profile, which outlives a launch.
pub open spec fn signing_secret(cfg: GatewayConfig) -> Seq<char> {
    match (cfg.api_key, cfg.auth_secret) {
        (Some(key), _) => key@,
        (None, Some(secret)) => secret@,
        (None, None) => Seq::empty(),
    }
}

/// What a signature is bound to: the contract, or the provider without one, and the
/// endpoint.
pub open spec fn signing_context(cfg: GatewayConfig) -> Seq<char> {
    (match cfg.provider_contract {
        Some(contract) => contract.contract_id@,
        None => cfg.provider@,
    }) + "\0"@ + cfg.upstream_url@
}

pub fn openai_chat_reasoning_signer(cfg: &GatewayConfig) -> (scope: (String, String))
    ensures
        scope.0@ == signing_secret(*cfg),
        scope.1@ == signing_context(*cfg),
{
    let secret = match &cfg.api_key {
        Some(key) => key.clone(),
        None => match &cfg.auth_secret {
            Some(secret) => secret.clone(),
            None => String::new(),
        },
    };
    assert(secret@ =~= signing_secret(*cfg));
    let mut context = match &cfg.provider_contract {
        Some(contract) => contract.contract_id.clone(),
        None => cfg.provider.clone(),
    };
    context.append("\0");
    context.append(cfg.upstream_url.as_str());
    (secret, context)
}

/// Signed reasoning survives a new launch of the same profile, whatever its launch secret
/// and name are.
pub proof fn law_reasoning_survives_relaunch(before: GatewayConfig, after: GatewayConfig)
    requires
        before.api_key is Some,
        after.api_key == before.api_key,
        after.provider == before.provider,
        after.provider_contract == before.provider_contract,
        after.upstream_url == before.upstream_url,
    ensures
        signing_secret(after) == signing_secret(before),
        signing_context(after) == signing_context(before),
{
}

/// It does not survive another key, and for one contract not another endpoint.
pub proof fn law_reasoning_is_bound_to_profile(before: GatewayConfig, after: GatewayConfig)
    requires
        before.api_key is Some,
        after.api_key is Some,
        after.provider@ == before.provider@,
        after.provider_contract == before.provider_contract,
    ensures
        after.api_key->0@ != before.api_key->0@ ==> signing_secret(after) != signing_secret(before),
        after.upstream_url@ != before.upstream_url@ ==> signing_context(after) != signing_context(
            before,
        ),
{
    let scope = match before.provider_contract {
        Some(contract) => contract.contract_id@,
        None => before.provider@,
    };
    let head = scope + "\0"@;
    assert(signing_context(before).skip(head.len() as int) =~= before.upstream_url@);
    assert(signing_context(after).skip(head.len() as int) =~= after.upstream_url@);
}

/// Only DeepSeek streams ever get a DSML filter.
pub proof fn law_other_providers_have_no_dsml_filter(
    provider: Seq<char>,
    shim_mode: Seq<char>,
    has_tools: bool,
    has_nonce: bool,
)
    requires
        provider != "deepseek"@,
    ensures
        crate::server::stream::dsml_filter_of(provider, shim_mode, has_tools, has_nonce) is None,
{
}

} // verus!
