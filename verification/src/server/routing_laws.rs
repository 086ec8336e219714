//! What holds of every request that the gateway routes.

use vstd::prelude::*;

use crate::config::{GatewayConfig, GatewayIntent};
use crate::json::{field_of, first_field, parsed_bytes, JsonTree, JsonValue};
use crate::json_text::{members_text, object_text};
use crate::json_text_laws::{in_quotes, law_members_follow_each_other, named};
use crate::messages::UpstreamError;
use crate::name_map::NameMap;
use crate::server::codex_attempt::{requested_model, CodexAuthLoadError};
use crate::server::reply::{reason_of, HttpReply};
use crate::server::reply_laws::{law_error_texts, tells_error, tells_models_error, with_next};
use crate::server::routing::{
    auth_error_reply, codex_models_failure_reply, codex_selector, codex_target, declared_tools,
    handle_get, handle_messages, handle_one, handle_post, health_members, health_reply,
    inference_fault_reply, is_kimi, known_tools_from_request, live_models_failure_reply,
    live_models_parse_failure_reply, openai_chat_reasoning_signer, pass_reply, plan_messages,
    read_inference_reply, read_live_models, refreshes_credentials, resolve_inference, route_post,
    schema_view, serve, stream_wanted, tool_name, tool_schema, write_codex_models_response,
    CodexModelsFailure, CodexResolution, Dispatch, GetPlan, InferenceFault, InferenceRoute,
    MessagesPlan, PostPlan, ResolvedInference, ServePlan,
};
use crate::text::{decimal, found_at, lowered};
use vstd::utf8::*;

verus! {

/// The method of a request decides who handles it; one that is not served is answered
/// with its target.
pub proof fn law_methods(method: &str, target: &str, dispatch: Dispatch)
    requires
        call_ensures(handle_one, (method, target), dispatch),
    ensures
        method@ == "CONNECT"@ <==> dispatch is Connect,
        method@ == "GET"@ <==> dispatch is Get,
        method@ == "POST"@ <==> dispatch is Post,
        dispatch matches Dispatch::Refuse(reply) ==> tells_error(
            reply@,
            404,
            "Not Found"@,
            "not_found_error"@,
            target@,
        ),
{
    reveal_strlit("CONNECT");
    reveal_strlit("GET");
    reveal_strlit("POST");
    assert("CONNECT"@.len() != "GET"@.len());
    law_error_texts(404, "Not Found"@, "not_found_error"@, target@, None);
}

/// Only Codex needs a contract of its own and a state root, and only DeepSeek that
/// rewrites needs nonces.
pub proof fn law_what_serving_needs(
    cfg: &GatewayConfig,
    has_state_root: bool,
    plan: Result<ServePlan, &'static str>,
)
    requires
        call_ensures(serve, (cfg, has_state_root), plan),
    ensures
        plan is Ok <==> cfg.provider@ != "codex"@ || (cfg.codex_contract is Some && has_state_root),
        plan matches Ok(plan) ==> {
            &&& plan.codex <==> cfg.provider@ == "codex"@
            &&& plan.request_nonces <==> cfg.provider@ == "deepseek"@ && cfg.shim_mode@
                == "rewrite"@
        },
        plan matches Err(reason) ==> reason@ == (if cfg.codex_contract is None {
            "Codex provider contract is unavailable"@
        } else {
            "Codex model catalog state root is unavailable"@
        }),
{
}

/// A wrong secret forbids, and a path that is not served is answered with itself.
pub proof fn law_unserved_gets(
    cfg: &GatewayConfig,
    path: &str,
    intent: &str,
    catalog_fp: Option<&str>,
    has_codex_catalog: bool,
    plan: GetPlan,
    forbidden: GetPlan,
)
    requires
        call_ensures(handle_get, (cfg, Some(path), intent, catalog_fp, has_codex_catalog), plan),
        call_ensures(
            handle_get,
            (cfg, None::<&str>, intent, catalog_fp, has_codex_catalog),
            forbidden,
        ),
    ensures
        forbidden matches GetPlan::Reply(reply) && tells_error(
            reply@,
            403,
            "Forbidden"@,
            "permission_error"@,
            "forbidden"@,
        ),
        path@ != "/health"@ && path@ != "/v1/models"@ ==> (plan matches GetPlan::Reply(reply)
            && tells_error(reply@, 404, "Not Found"@, "not_found_error"@, path@)),
{
    law_error_texts(403, "Forbidden"@, "permission_error"@, "forbidden"@, None);
    law_error_texts(404, "Not Found"@, "not_found_error"@, path@, None);
}

/// Where models come from: of the profile's catalog in a formal launch; in one for models
/// of the list of Qwen or DeepSeek, of the account at Codex, or of the provider's own
/// endpoint.
pub proof fn law_gets_of_models(
    cfg: &GatewayConfig,
    path: &str,
    intent: &str,
    catalog_fp: Option<&str>,
    has_codex_catalog: bool,
    plan: GetPlan,
)
    requires
        call_ensures(handle_get, (cfg, Some(path), intent, catalog_fp, has_codex_catalog), plan),
        path@ == "/v1/models"@,
    ensures
        cfg.provider@ != "codex"@ && cfg.intent is Formal && catalog_fp is Some
            ==> plan is StaticCatalog,
        cfg.provider@ != "codex"@ && cfg.intent is Formal && catalog_fp is None ==> (
        plan matches GetPlan::Reply(reply) && tells_error(
            reply@,
            503,
            "Service Unavailable"@,
            "catalog_unavailable"@,
            "static model catalog is unavailable"@,
        )),
        cfg.provider@ == "codex"@ && has_codex_catalog ==> (plan matches GetPlan::CodexModels {
            refresh,
        } && (refresh <==> cfg.intent is ScratchModels)),
        cfg.provider@ == "codex"@ && !has_codex_catalog ==> (plan matches GetPlan::Reply(reply)
            && tells_models_error(
            reply@,
            502,
            "internal"@,
            None,
            "Codex model catalog is unavailable"@,
        )),
        cfg.intent is ScratchModels && cfg.provider@ == "qwen"@ ==> plan is QwenModels,
        cfg.intent is ScratchModels && (cfg.provider@ == "openai-custom"@ || cfg.provider@
            == "openai-responses"@ || cfg.provider@ == "relay"@) ==> (match cfg.models_url {
            Some(url) => plan matches GetPlan::LiveModels { url: asked } && asked@ == url@,
            None => plan matches GetPlan::Reply(reply) && tells_models_error(
                reply@,
                502,
                "network"@,
                None,
                "missing models URL"@,
            ),
        }),
        cfg.intent is ScratchModels && cfg.provider@ != "codex"@ && cfg.provider@ != "qwen"@
            && cfg.provider@ != "openai-custom"@ && cfg.provider@ != "openai-responses"@
            && cfg.provider@ != "relay"@ ==> plan is DeepseekModels,
{
    reveal_strlit("/health");
    reveal_strlit("/v1/models");
    assert("/health"@.len() != "/v1/models"@.len());
    reveal_strlit("qwen");
    reveal_strlit("codex");
    reveal_strlit("relay");
    reveal_strlit("openai-custom");
    reveal_strlit("openai-responses");
    assert("relay"@[0] != "codex"@[0]);
    law_error_texts(
        503,
        "Service Unavailable"@,
        "catalog_unavailable"@,
        "static model catalog is unavailable"@,
        None,
    );
    law_error_texts(502, ""@, "internal"@, "Codex model catalog is unavailable"@, None);
    law_error_texts(502, ""@, "network"@, "missing models URL"@, None);
}

/// The gateway says of itself that it is well, what it was launched as and for, and, where
/// it has them, the fingerprint of its catalog and the contract it keeps.
pub open spec fn health_json(
    cfg: GatewayConfig,
    intent: Seq<char>,
    catalog_fp: Option<Seq<char>>,
) -> Seq<char> {
    let first = match catalog_fp {
        Some(fp) => with_next(
            named("catalog_fp"@, in_quotes(fp)),
            "gateway"@,
            in_quotes("rust"@),
        ),
        None => named("gateway"@, in_quotes("rust"@)),
    };
    let first = with_next(first, "intent"@, in_quotes(intent));
    let first = with_next(first, "launch_id"@, in_quotes(cfg.launch_id@));
    let first = with_next(first, "provider"@, in_quotes(cfg.provider@));
    let second = match cfg.provider_contract {
        Some(contract) => with_next(
            with_next(first, "provider_contract_digest"@, in_quotes(contract.catalog_digest@)),
            "provider_contract_id"@,
            in_quotes(contract.contract_id@),
        ),
        None => first,
    };
    let third = with_next(second, "shim"@, in_quotes(cfg.shim_mode@));
    let third = with_next(third, "status"@, in_quotes("ok"@));
    "{"@ + third + "}"@
}

#[verifier::rlimit(40)]
proof fn lemma_health_text(cfg: GatewayConfig, intent: Seq<char>, catalog_fp: Option<Seq<char>>)
    ensures
        object_text(health_members(cfg, intent, catalog_fp)) == Some(
            health_json(cfg, intent, catalog_fp),
        ),
{
    let empty = Seq::<(Seq<char>, Option<Seq<char>>)>::empty();
    let m0 = match catalog_fp {
        Some(fp) => empty.push(("catalog_fp"@, Some(in_quotes(fp)))),
        None => empty,
    };
    if let Some(fp) = catalog_fp {
        law_members_follow_each_other(empty, "catalog_fp"@, in_quotes(fp));
    }
    let v1 = in_quotes("rust"@);
    law_members_follow_each_other(m0, "gateway"@, v1);
    let m1 = m0.push(("gateway"@, Some(v1)));
    let v2 = in_quotes(intent);
    law_members_follow_each_other(m1, "intent"@, v2);
    let m2 = m1.push(("intent"@, Some(v2)));
    let v3 = in_quotes(cfg.launch_id@);
    law_members_follow_each_other(m2, "launch_id"@, v3);
    let m3 = m2.push(("launch_id"@, Some(v3)));
    let v4 = in_quotes(cfg.provider@);
    law_members_follow_each_other(m3, "provider"@, v4);
    let m4 = m3.push(("provider"@, Some(v4)));
    let m5 = match cfg.provider_contract {
        Some(contract) => m4.push(
            ("provider_contract_digest"@, Some(in_quotes(contract.catalog_digest@))),
        ).push(("provider_contract_id"@, Some(in_quotes(contract.contract_id@)))),
        None => m4,
    };
    if let Some(contract) = cfg.provider_contract {
        let digest = in_quotes(contract.catalog_digest@);
        law_members_follow_each_other(m4, "provider_contract_digest"@, digest);
        law_members_follow_each_other(
            m4.push(("provider_contract_digest"@, Some(digest))),
            "provider_contract_id"@,
            in_quotes(contract.contract_id@),
        );
    }
    let v6 = in_quotes(cfg.shim_mode@);
    law_members_follow_each_other(m5, "shim"@, v6);
    let m6 = m5.push(("shim"@, Some(v6)));
    let v7 = in_quotes("ok"@);
    law_members_follow_each_other(m6, "status"@, v7);
    let m7 = m6.push(("status"@, Some(v7)));
    assert(health_members(cfg, intent, catalog_fp) =~= m7);
}

pub proof fn law_health(
    cfg: &GatewayConfig,
    path: &str,
    intent: &str,
    catalog_fp: Option<&str>,
    has_codex_catalog: bool,
    plan: GetPlan,
    reply: HttpReply,
)
    requires
        call_ensures(health_reply, (cfg, intent, catalog_fp), reply),
        call_ensures(handle_get, (cfg, Some(path), intent, catalog_fp, has_codex_catalog), plan),
        path@ == "/health"@,
    ensures
        reply.status == 200,
        reply.reason@ == "OK"@,
        reply.content_type@ == "application/json"@,
        reply.body@ == encode_utf8(
            health_json(
                *cfg,
                intent@,
                match catalog_fp {
                    Some(fp) => Some(fp@),
                    None => None,
                },
            ),
        ),
        plan matches GetPlan::Reply(told) && told@ == reply@,
{
    lemma_health_text(
        *cfg,
        intent@,
        match catalog_fp {
            Some(fp) => Some(fp@),
            None => None,
        },
    );
}

/// Credentials that cannot be had are told as they were refused.
pub proof fn law_missing_credentials(error: &CodexAuthLoadError, reply: HttpReply)
    requires
        call_ensures(auth_error_reply, (error,), reply),
    ensures
        tells_error(
            reply@,
            error.status,
            reason_of(error.status),
            error.error_type@,
            error.message@,
        ),
{
    law_error_texts(
        error.status,
        reason_of(error.status),
        error.error_type@,
        error.message@,
        None,
    );
}

/// Models that cannot be had are told with what is known of it, and an account that was
/// not accepted is refreshed.
pub proof fn law_missing_models(
    error: &CodexModelsFailure,
    told: (HttpReply, bool),
    refused: &UpstreamError,
    reply: HttpReply,
    reason: &str,
    unread: HttpReply,
)
    requires
        call_ensures(codex_models_failure_reply, (error,), told),
        call_ensures(live_models_failure_reply, (refused,), reply),
        call_ensures(live_models_parse_failure_reply, (reason,), unread),
    ensures
        tells_models_error(
            told.0@,
            error.status,
            error.error_kind@,
            error.upstream_status,
            error.detail@,
        ),
        told.1 <==> error.upstream_status == Some(401u16),
        tells_models_error(
            reply@,
            refused.status,
            if refused.upstream_status is Some {
                "upstream"@
            } else {
                "network"@
            },
            refused.upstream_status,
            refused.detail@,
        ),
        tells_models_error(
            unread@,
            502,
            "protocol"@,
            None,
            "upstream models JSON parse failed: "@ + reason@,
        ),
{
    law_error_texts(
        error.status,
        ""@,
        error.error_kind@,
        error.detail@,
        error.upstream_status,
    );
    law_error_texts(refused.status, ""@, "upstream"@, refused.detail@, refused.upstream_status);
    law_error_texts(refused.status, ""@, "network"@, refused.detail@, refused.upstream_status);
    law_error_texts(
        502,
        ""@,
        "protocol"@,
        "upstream models JSON parse failed: "@ + reason@,
        None,
    );
}

/// Bytes that are no JSON are told, and those that are stand for their value.
pub proof fn law_bodies_of_providers_are_read(
    body: &[u8],
    models: Result<JsonValue, HttpReply>,
    reply: Result<JsonValue, HttpReply>,
)
    requires
        call_ensures(read_live_models, (body,), models),
        call_ensures(read_inference_reply, (body,), reply),
    ensures
        parsed_bytes(body@) matches Ok(tree) ==> models is Ok && reply is Ok && models->Ok_0@ == tree
            && reply->Ok_0@ == tree,
        parsed_bytes(body@) matches Err(reason) ==> models is Err && reply is Err
            && tells_models_error(
            models->Err_0@,
            502,
            "protocol"@,
            None,
            "upstream models JSON parse failed: "@ + reason,
        ) && tells_error(reply->Err_0@, 502, reason_of(502), "api_error"@, reason),
{
    if let Err(reason) = parsed_bytes(body@) {
        law_error_texts(
            502,
            ""@,
            "protocol"@,
            "upstream models JSON parse failed: "@ + reason,
            None,
        );
        law_error_texts(502, reason_of(502), "api_error"@, reason, None);
    }
}

/// Models of Codex are sent with where they come from and how old they are.
pub proof fn law_codex_models_on_the_wire(
    source: &str,
    age_seconds: u64,
    body: &[u8],
    bytes: Vec<u8>,
)
    requires
        call_ensures(write_codex_models_response, (source, age_seconds, body), bytes),
    ensures
        bytes@ == encode_utf8(
            "HTTP/1.1 200 OK\r\ncontent-type: application/json\r\ncontent-length: "@ + decimal(
                body@.len(),
            ) + "\r\nx-csswitch-model-source: "@ + source@ + "\r\nx-csswitch-model-age-seconds: "@
                + decimal(age_seconds as nat) + "\r\nconnection: close\r\n\r\n"@,
        ) + body@,
{
}

/// What is done about the body of a POST: a wrong secret forbids, a length that cannot be
/// read is told, one of Codex that is over the limit is refused, and no body is an empty
/// object.
pub proof fn law_posts(
    provider: &str,
    authorized: bool,
    length: u64,
    reason: String,
    codex_limit: u64,
    plan: PostPlan,
    unread: PostPlan,
)
    requires
        call_ensures(handle_post, (provider, authorized, Ok::<u64, String>(length), codex_limit), plan),
        call_ensures(
            handle_post,
            (provider, authorized, Err::<u64, String>(reason), codex_limit),
            unread,
        ),
    ensures
        !authorized ==> (plan matches PostPlan::Reply(reply) && tells_error(
            reply@,
            403,
            "Forbidden"@,
            "permission_error"@,
            "forbidden"@,
        )) && (unread matches PostPlan::Reply(reply) && tells_error(
            reply@,
            403,
            "Forbidden"@,
            "permission_error"@,
            "forbidden"@,
        )),
        authorized ==> (unread matches PostPlan::Reply(reply) && tells_error(
            reply@,
            400,
            "Bad Request"@,
            "invalid_request_error"@,
            reason@,
        )),
        authorized && provider@ == "codex"@ && length > codex_limit ==> (
        plan matches PostPlan::Reply(reply) && tells_error(
            reply@,
            413,
            "Payload Too Large"@,
            "invalid_request_error"@,
            "request body is too large"@,
        )),
        authorized && (provider@ != "codex"@ || length <= codex_limit) && length > 0 ==> plan
            == PostPlan::ReadBody(length),
        authorized && (provider@ != "codex"@ || length <= codex_limit) && length == 0
            ==> plan is EmptyObject,
{
    law_error_texts(403, "Forbidden"@, "permission_error"@, "forbidden"@, None);
    law_error_texts(400, "Bad Request"@, "invalid_request_error"@, reason@, None);
    law_error_texts(
        413,
        "Payload Too Large"@,
        "invalid_request_error"@,
        "request body is too large"@,
        None,
    );
}

/// Messages are the only thing that is posted.
pub proof fn law_posted_paths(path: &str, refusal: Option<HttpReply>)
    requires
        call_ensures(route_post, (path,), refusal),
    ensures
        refusal is None <==> path@ == "/v1/messages"@,
        refusal matches Some(reply) ==> tells_error(
            reply@,
            404,
            "Not Found"@,
            "not_found_error"@,
            path@,
        ),
{
    law_error_texts(404, "Not Found"@, "not_found_error"@, path@, None);
}

/// A stream is wanted where the field says `true`, and nowhere else.
pub proof fn law_streams_are_asked_for(request: &JsonValue, yes: bool)
    requires
        call_ensures(stream_wanted, (request,), yes),
    ensures
        yes <==> field_of(request@, "stream"@) == Some(JsonTree::Bool(true)),
{
}

/// A request for inference is an object with a model that is not blank, in a launch that
/// has a catalog and is not for models alone; Codex resolves its models itself.
pub proof fn law_requests_for_inference(
    cfg: &GatewayConfig,
    request: JsonValue,
    reason: String,
    has_codex_transport: bool,
    has_codex_catalog: bool,
    has_static_catalog: bool,
    plan: MessagesPlan,
    unread: MessagesPlan,
    model: Option<&str>,
)
    requires
        call_ensures(
            plan_messages,
            (
                cfg,
                &Ok::<JsonValue, String>(request),
                has_codex_transport,
                has_codex_catalog,
                has_static_catalog,
            ),
            plan,
        ),
        call_ensures(
            plan_messages,
            (
                cfg,
                &Err::<JsonValue, String>(reason),
                has_codex_transport,
                has_codex_catalog,
                has_static_catalog,
            ),
            unread,
        ),
        call_ensures(requested_model, (&request,), model),
    ensures
        unread matches MessagesPlan::Reply(reply) && tells_error(
            reply@,
            400,
            "Bad Request"@,
            "invalid_request_error"@,
            reason@,
        ),
        !(request@ is Object) ==> (plan matches MessagesPlan::Reply(reply) && tells_error(
            reply@,
            400,
            "Bad Request"@,
            "invalid_request_error"@,
            "request body must be a JSON object"@,
        )),
        request@ is Object && cfg.provider@ == "codex"@ && !has_codex_transport ==> (
        plan matches MessagesPlan::Reply(reply) && tells_error(
            reply@,
            502,
            reason_of(502),
            "api_error"@,
            "Codex transport is unavailable"@,
        )),
        request@ is Object && cfg.provider@ == "codex"@ && has_codex_transport && !has_codex_catalog
            ==> (plan matches MessagesPlan::Reply(reply) && tells_error(
            reply@,
            502,
            reason_of(502),
            "api_error"@,
            "Codex model catalog is unavailable"@,
        )),
        request@ is Object && cfg.provider@ == "codex"@ && has_codex_transport && has_codex_catalog
            ==> (plan matches MessagesPlan::Codex { stream } && (stream <==> field_of(
            request@,
            "stream"@,
        ) == Some(JsonTree::Bool(true)))),
        request@ is Object && cfg.provider@ != "codex"@ && cfg.intent is ScratchModels ==> (
        plan matches MessagesPlan::Reply(reply) && tells_error(
            reply@,
            400,
            "Bad Request"@,
            "route_unknown"@,
            "scratch-models does not accept inference requests"@,
        )),
        request@ is Object && cfg.provider@ != "codex"@ && cfg.intent is Formal && model is None
            ==> (plan matches MessagesPlan::Reply(reply) && tells_error(
            reply@,
            400,
            "Bad Request"@,
            "route_unknown"@,
            "model selector is required"@,
        )),
        request@ is Object && cfg.provider@ != "codex"@ && cfg.intent is Formal && model is Some
            && !has_static_catalog ==> (plan matches MessagesPlan::Reply(reply) && tells_error(
            reply@,
            400,
            "Bad Request"@,
            "route_unknown"@,
            "static model catalog is unavailable"@,
        )),
        request@ is Object && cfg.provider@ != "codex"@ && cfg.intent is Formal && model is Some
            && has_static_catalog ==> (plan matches MessagesPlan::Resolve { model: asked, stream }
            && asked@ == model->Some_0@ && (stream <==> field_of(request@, "stream"@) == Some(
            JsonTree::Bool(true),
        ))),
{
    law_error_texts(400, "Bad Request"@, "invalid_request_error"@, reason@, None);
    law_error_texts(
        400,
        "Bad Request"@,
        "invalid_request_error"@,
        "request body must be a JSON object"@,
        None,
    );
    law_error_texts(502, reason_of(502), "api_error"@, "Codex transport is unavailable"@, None);
    law_error_texts(502, reason_of(502), "api_error"@, "Codex model catalog is unavailable"@, None);
    law_error_texts(
        400,
        "Bad Request"@,
        "route_unknown"@,
        "scratch-models does not accept inference requests"@,
        None,
    );
    law_error_texts(400, "Bad Request"@, "route_unknown"@, "model selector is required"@, None);
    law_error_texts(
        400,
        "Bad Request"@,
        "route_unknown"@,
        "static model catalog is unavailable"@,
        None,
    );
}

/// The body of a request is read as JSON, and the request then goes where its value leads.
pub proof fn law_messages_are_read(
    cfg: &GatewayConfig,
    body: &[u8],
    has_codex_transport: bool,
    has_codex_catalog: bool,
    has_static_catalog: bool,
    planned: (Result<JsonValue, String>, MessagesPlan),
    plan: MessagesPlan,
)
    requires
        call_ensures(
            handle_messages,
            (cfg, body, has_codex_transport, has_codex_catalog, has_static_catalog),
            planned,
        ),
        call_ensures(
            plan_messages,
            (cfg, &planned.0, has_codex_transport, has_codex_catalog, has_static_catalog),
            plan,
        ),
    ensures
        parsed_bytes(body@) matches Ok(tree) ==> planned.0 is Ok && planned.0->Ok_0@ == tree,
        parsed_bytes(body@) matches Err(reason) ==> planned.0 is Err && planned.0->Err_0@ == reason,
        planned.1@ == plan@,
{
}

/// A provider is spoken to on the route of its adapter, and only DeepSeek that rewrites a
/// request with tools needs a nonce; a model that the profile lacks is refused.
pub proof fn law_resolved_requests(
    cfg: &GatewayConfig,
    target: &str,
    has_tools: bool,
    resolved: Result<ResolvedInference, HttpReply>,
    unresolved: Result<ResolvedInference, HttpReply>,
)
    requires
        call_ensures(resolve_inference, (cfg, Some(target), has_tools), resolved),
        call_ensures(resolve_inference, (cfg, None::<&str>, has_tools), unresolved),
    ensures
        unresolved matches Err(reply) && tells_error(
            reply@,
            400,
            "Bad Request"@,
            "route_unknown"@,
            "model selector is not present in the active profile"@,
        ),
        resolved matches Ok(found) && {
            &&& found.needs_nonce <==> cfg.provider@ == "deepseek"@ && cfg.shim_mode@ == "rewrite"@
                && has_tools
            &&& cfg.provider@ == "qwen"@ ==> found.route == InferenceRoute::OpenAiChat
            &&& cfg.provider@ == "openai-custom"@ ==> found.route
                == InferenceRoute::OpenAiCustomChat
            &&& cfg.provider@ == "openai-responses"@ ==> found.route
                == InferenceRoute::OpenAiResponses
            &&& cfg.provider@ == "relay"@ ==> found.route == InferenceRoute::Relay
            &&& cfg.provider@ != "qwen"@ && cfg.provider@ != "openai-custom"@ && cfg.provider@
                != "openai-responses"@ && cfg.provider@ != "relay"@ ==> found.route
                == InferenceRoute::Native
        },
{
    reveal_strlit("qwen");
    reveal_strlit("relay");
    reveal_strlit("openai-custom");
    reveal_strlit("openai-responses");
    assert("qwen"@.len() == 4 && "relay"@.len() == 5);
    assert("openai-custom"@.len() == 13 && "openai-responses"@.len() == 16);
    law_error_texts(
        400,
        "Bad Request"@,
        "route_unknown"@,
        "model selector is not present in the active profile"@,
        None,
    );
}

/// A relayed model is one of Kimi where its name holds the word, in whatever case.
pub proof fn law_models_of_kimi(target_model: &str, yes: bool, at: int)
    requires
        call_ensures(is_kimi, (target_model,), yes),
    ensures
        found_at(lowered(target_model@), "kimi"@, at) ==> yes,
        yes ==> exists|i: int| #[trigger] found_at(lowered(target_model@), "kimi"@, i),
{
}

/// What went wrong on the way is told: what the client can mend as a bad request, a
/// refusal with its own status, a missing signer as an error of the gateway and an unread
/// reply as a bad gateway.
pub proof fn law_faults_are_told(
    reason: String,
    error: UpstreamError,
    no_signer: HttpReply,
    untranslatable: HttpReply,
    unencodable: HttpReply,
    refused: HttpReply,
    unreadable: HttpReply,
    untranslated: HttpReply,
)
    requires
        call_ensures(inference_fault_reply, (&InferenceFault::NoSigner(reason),), no_signer),
        call_ensures(
            inference_fault_reply,
            (&InferenceFault::Untranslatable(reason),),
            untranslatable,
        ),
        call_ensures(inference_fault_reply, (&InferenceFault::Unencodable(reason),), unencodable),
        call_ensures(inference_fault_reply, (&InferenceFault::Refused(error),), refused),
        call_ensures(
            inference_fault_reply,
            (&InferenceFault::UnreadableReply(reason),),
            unreadable,
        ),
        call_ensures(
            inference_fault_reply,
            (&InferenceFault::UntranslatableReply(reason),),
            untranslated,
        ),
    ensures
        tells_error(no_signer@, 500, reason_of(500), "api_error"@, reason@),
        tells_error(untranslatable@, 400, "Bad Request"@, "invalid_request_error"@, reason@),
        tells_error(unencodable@, 400, "Bad Request"@, "invalid_request_error"@, reason@),
        tells_error(
            refused@,
            error.status,
            reason_of(error.status),
            "api_error"@,
            error.detail@,
        ),
        tells_error(unreadable@, 502, reason_of(502), "api_error"@, reason@),
        tells_error(untranslated@, 502, reason_of(502), "api_error"@, reason@),
{
    law_error_texts(500, reason_of(500), "api_error"@, reason@, None);
    law_error_texts(400, "Bad Request"@, "invalid_request_error"@, reason@, None);
    law_error_texts(error.status, reason_of(error.status), "api_error"@, error.detail@, None);
    law_error_texts(502, reason_of(502), "api_error"@, reason@, None);
}

/// A reply of a provider is passed on with its status, its type and its bytes.
pub proof fn law_replies_are_passed_on(
    status: u16,
    content_type: String,
    body: Vec<u8>,
    reply: HttpReply,
)
    requires
        call_ensures(pass_reply, (status, content_type, body), reply),
    ensures
        reply.status == status,
        reply.reason@ == reason_of(status),
        reply.content_type@ == content_type@,
        reply.body@ == body@,
{
}

/// The tools of a request are known by their names: the last of a name counts, one without
/// a schema has an empty one, and one without a name is none.
pub proof fn law_tools_by_name(
    request: &JsonValue,
    known: NameMap<Option<&JsonValue>>,
    tools: Seq<JsonTree>,
    name: Seq<char>,
    i: int,
)
    requires
        call_ensures(known_tools_from_request, (request,), known),
        field_of(request@, "tools"@) == Some(JsonTree::List(tools)),
        name.len() > 0,
        0 <= i < tools.len(),
        field_of(tools[i], "name"@) == Some(JsonTree::Text(name)),
        forall|k: int|
            i < k < tools.len() ==> field_of(#[trigger] tools[k], "name"@) != Some(
                JsonTree::Text(name),
            ),
    ensures
        known.value(name) is Some,
        field_of(tools[i], "input_schema"@) matches Some(schema) ==> schema_view(known.value(name))
            == Some(schema),
        field_of(tools[i], "input_schema"@) is None ==> schema_view(known.value(name)) == Some(
            JsonTree::Object(Seq::empty()),
        ),
{
    lemma_tool_schema(tools, name, i);
    assert(declared_tools(request@) == tools);
    assert(schema_view(known.value(name)) == tool_schema(tools, name));
}

/// A name that no tool has is not known, and without a list of tools none is.
pub proof fn law_unknown_tools(
    request: &JsonValue,
    known: NameMap<Option<&JsonValue>>,
    name: Seq<char>,
)
    requires
        call_ensures(known_tools_from_request, (request,), known),
        field_of(request@, "tools"@) matches Some(JsonTree::List(tools)) ==> forall|k: int|
            0 <= k < tools.len() ==> field_of(#[trigger] tools[k], "name"@) != Some(
                JsonTree::Text(name),
            ),
    ensures
        known.value(name) is None,
{
    lemma_no_tool_schema(declared_tools(request@), name);
    assert(schema_view(known.value(name)) == tool_schema(declared_tools(request@), name));
}

proof fn lemma_tool_schema(tools: Seq<JsonTree>, name: Seq<char>, i: int)
    requires
        name.len() > 0,
        0 <= i < tools.len(),
        field_of(tools[i], "name"@) == Some(JsonTree::Text(name)),
        forall|k: int|
            i < k < tools.len() ==> field_of(#[trigger] tools[k], "name"@) != Some(
                JsonTree::Text(name),
            ),
    ensures
        tool_schema(tools, name) == (match field_of(tools[i], "input_schema"@) {
            Some(schema) => Some(schema),
            None => Some(JsonTree::Object(Seq::empty())),
        }),
    decreases tools.len(),
{
    if i < tools.len() - 1 {
        assert(tools.last() == tools[tools.len() - 1]);
        lemma_tool_schema(tools.drop_last(), name, i);
    }
}

proof fn lemma_no_tool_schema(tools: Seq<JsonTree>, name: Seq<char>)
    requires
        forall|k: int|
            0 <= k < tools.len() ==> field_of(#[trigger] tools[k], "name"@) != Some(
                JsonTree::Text(name),
            ),
    ensures
        tool_schema(tools, name) is None,
    decreases tools.len(),
{
    if tools.len() > 0 {
        assert(tools.last() == tools[tools.len() - 1]);
        lemma_no_tool_schema(tools.drop_last(), name);
    }
}

/// A selector stands for the model that it resolves to; one that the account lacks, or has
/// no model for, is refused.
pub proof fn law_targets_at_codex(
    model: String,
    family: String,
    found: Result<String, HttpReply>,
    unknown: Result<String, HttpReply>,
    missing: Result<String, HttpReply>,
)
    requires
        call_ensures(codex_target, (CodexResolution::Model(model),), found),
        call_ensures(codex_target, (CodexResolution::UnknownSelector,), unknown),
        call_ensures(codex_target, (CodexResolution::NoCompatibleModel { family },), missing),
    ensures
        found matches Ok(target) && target@ == model@,
        unknown matches Err(reply) && tells_error(
            reply@,
            400,
            "Bad Request"@,
            "route_unknown"@,
            "model selector is not available for this Codex account"@,
        ),
        missing matches Err(reply) && tells_error(
            reply@,
            503,
            "Service Unavailable"@,
            "codex_model_unavailable"@,
            "this Codex account has no compatible standard Responses model for the requested "@
                + family@ + " role"@,
        ),
{
    law_error_texts(
        400,
        "Bad Request"@,
        "route_unknown"@,
        "model selector is not available for this Codex account"@,
        None,
    );
    law_error_texts(
        503,
        "Service Unavailable"@,
        "codex_model_unavailable"@,
        "this Codex account has no compatible standard Responses model for the requested "@
            + family@ + " role"@,
        None,
    );
}

/// The selector is the text of the field `model`, where that is not blank; credentials are
/// refreshed where they were not accepted.
pub proof fn law_selectors_of_codex(
    request: &JsonValue,
    model: Option<&str>,
    selector: Result<&str, HttpReply>,
    status: u16,
    refresh: bool,
)
    requires
        call_ensures(requested_model, (request,), model),
        call_ensures(codex_selector, (request,), selector),
        call_ensures(refreshes_credentials, (status,), refresh),
    ensures
        refresh <==> status == 401,
        model matches Some(model) ==> selector is Ok && selector->Ok_0@ == model@,
        model is None ==> selector is Err && tells_error(
            selector->Err_0@,
            400,
            "Bad Request"@,
            "route_unknown"@,
            "model selector is required for Codex"@,
        ),
{
    law_error_texts(
        400,
        "Bad Request"@,
        "route_unknown"@,
        "model selector is required for Codex"@,
        None,
    );
}

/// Reasoning is signed with the key, or with the secret of the launch where there is none,
/// for the contract, or the provider where there is none, at the endpoint.
pub proof fn law_signers(cfg: &GatewayConfig, scope: (String, String))
    requires
        call_ensures(openai_chat_reasoning_signer, (cfg,), scope),
    ensures
        cfg.api_key matches Some(key) ==> scope.0@ == key@,
        cfg.api_key is None ==> (cfg.auth_secret matches Some(secret) ==> scope.0@ == secret@),
        cfg.api_key is None && cfg.auth_secret is None ==> scope.0@.len() == 0,
        cfg.provider_contract matches Some(contract) ==> scope.1@ == contract.contract_id@ + "\0"@
            + cfg.upstream_url@,
        cfg.provider_contract is None ==> scope.1@ == cfg.provider@ + "\0"@ + cfg.upstream_url@,
{
}

} // verus!
