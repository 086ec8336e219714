//! What holds of every request for inference on its way to a provider and back.

use vstd::prelude::*;

use crate::codex_auth::oauth::{OAuthErrorCode, OAuthFlowError};
use crate::config::GatewayConfig;
use crate::json::{
    field_of, first_field, parsed_bytes, value_tree, without_field, JsonTree, JsonValue,
};
use crate::messages::{UpstreamBody, UpstreamError};
use crate::provider_failure::{
    AttemptDirective, AttemptOutcome, CorrelationId, ProviderId, RouteMode,
};
use crate::server::codex_attempt::{
    caller_allows_automatic_tool_choice, codex_obstacle_reply, load_codex_inference_secrets,
    map_codex_auth_error, must_refresh, requested_model, state_root_unavailable, CodexAnswer,
    CodexAttempt, CodexAuthLoadError, CodexEvent, CodexObstacle, CodexRefusal, CodexTask,
    SecretsEvent, SecretsTask, TranslationError,
};
use crate::server::codex_intake::{handle_codex_messages_with_catalog, IntakeEvent, IntakeTask};
use crate::server::codex_pump::{CodexNonstreamError, CodexStreamOutcome};
use crate::server::inference::{
    InferenceEvent, InferencePhase, InferenceRun, InferenceTask,
};
use crate::server::reply::{reason_of, HttpReply};
use crate::server::reply_laws::{law_error_texts, tells_error, tells_models_error};
use crate::server::routing::{
    codex_target, inference_fault_reply, is_kimi, CodexModelsFailure, CodexResolution,
    InferenceFault, InferenceRoute,
};
use crate::server::stream::{dsml_stream_filter, StreamFilterKind};
use crate::text::is_blank;
use vstd::utf8::*;

verus! {

// ---------------------------------------------------------------------------
// Providers with an API key
// ---------------------------------------------------------------------------

/// A request starts with its translation, with the filter that its stream needs.
pub proof fn law_requests_start_with_translation(
    cfg: &GatewayConfig,
    provider: &str,
    shim_mode: &str,
    route: InferenceRoute,
    stream: bool,
    has_tools: bool,
    has_nonce: bool,
    filter: Option<StreamFilterKind>,
    run: InferenceRun,
)
    requires
        provider@ == cfg.provider@ && shim_mode@ == cfg.shim_mode@,
        call_ensures(dsml_stream_filter, (provider, shim_mode, has_tools, has_nonce), filter),
        call_ensures(InferenceRun::new, (cfg, route, stream, has_tools, has_nonce), run),
    ensures
        run.phase is Encoding,
        run.route == route,
        run.stream == stream,
        run.dsml == filter,
{
}

/// A translated request is posted as it was translated, and as a stream only where the
/// client wants one and the provider speaks its terms; a relayed stream of Kimi and a
/// native one go through their filters.
pub proof fn law_translated_requests_are_sent(
    run: &mut InferenceRun,
    body: Vec<u8>,
    model: String,
    name: &str,
    kimi: bool,
    task: InferenceTask,
)
    requires
        name@ == model@,
        call_ensures(is_kimi, (name,), kimi),
        call_ensures(
            InferenceRun::step,
            (run, InferenceEvent::Encoded(Ok::<(Vec<u8>, String), InferenceFault>((body, model)))),
            task,
        ),
    ensures
        final(run).route == old(run).route && final(run).stream == old(run).stream && final(run).dsml == old(run).dsml,
        !old(run).stream || old(run).route is OpenAiChat || old(run).route is OpenAiCustomChat
            || old(run).route is OpenAiResponses ==> (task matches InferenceTask::Post(sent)
            && sent@ == body@) && (final(run).phase matches InferencePhase::Posting { kimi: told }
            && told == (kimi && old(run).route is Relay)),
        old(run).stream && (old(run).route is Relay || old(run).route is Native) ==> (
        task matches InferenceTask::Open { body: sent, filter } && sent@ == body@ && filter == (
        if old(run).route is Relay {
            if kimi {
                Some(StreamFilterKind::Kimi)
            } else {
                None
            }
        } else {
            old(run).dsml
        })) && final(run).phase is Opening,
{
}

/// A request that cannot be translated is refused.
pub proof fn law_untranslated_requests_are_refused(
    run: &mut InferenceRun,
    fault: InferenceFault,
    reply: HttpReply,
    task: InferenceTask,
)
    requires
        call_ensures(inference_fault_reply, (&fault,), reply),
        call_ensures(
            InferenceRun::step,
            (run, InferenceEvent::Encoded(Err::<(Vec<u8>, String), InferenceFault>(fault))),
            task,
        ),
    ensures
        task matches InferenceTask::Send(sent) && sent@ == reply@,
        final(run).phase is Done,
{
}

/// A whole reply in other terms is translated; one in the client's terms is filtered where
/// it needs it, and else passed on as it came.
pub proof fn law_whole_replies_are_handled(
    run: &mut InferenceRun,
    kimi: bool,
    reply: UpstreamBody,
    task: InferenceTask,
)
    requires
        old(run).phase == (InferencePhase::Posting { kimi }),
        call_ensures(
            InferenceRun::step,
            (run, InferenceEvent::Posted(Ok::<UpstreamBody, UpstreamError>(reply))),
            task,
        ),
    ensures
        old(run).route is OpenAiChat || old(run).route is OpenAiCustomChat
            || old(run).route is OpenAiResponses ==> (match parsed_bytes(reply.body@) {
            Ok(tree) => (task matches InferenceTask::Translate(json) && json@ == tree) && final(run).phase is Translating,
            Err(reason) => (task matches InferenceTask::Send(sent) && tells_error(
                sent@,
                502,
                reason_of(502),
                "api_error"@,
                reason,
            )) && final(run).phase is Done,
        }),
        old(run).route is Relay || old(run).route is Native ==> {
            let filter = if kimi {
                Some(StreamFilterKind::Kimi)
            } else if old(run).route is Native && old(run).dsml == Some(
                StreamFilterKind::DsmlRewrite,
            ) {
                Some(StreamFilterKind::DsmlRewrite)
            } else {
                None
            };
            match filter {
                Some(wanted) => (task matches InferenceTask::Filter { kind, body } && kind == wanted
                    && body@ == reply.body@) && (final(run).phase matches InferencePhase::Filtering {
                    status,
                    content_type,
                } && status == reply.status && content_type@ == reply.content_type@),
                None => (task matches InferenceTask::Send(sent) && sent.status == reply.status
                    && sent.reason@ == reason_of(reply.status) && sent.content_type@
                    == reply.content_type@ && sent.body@ == reply.body@) && final(run).phase is Done,
            }
        },
{
    if let Err(reason) = parsed_bytes(reply.body@) {
        law_error_texts(502, reason_of(502), "api_error"@, reason, None);
    }
    if let InferenceTask::Send(sent) = task {
        assert(sent@.status == sent.status);
    }
}

/// A refusal is told with the provider's status; a stream that opened is forwarded.
pub proof fn law_refused_requests_are_told(
    posted: &mut InferenceRun,
    opened: &mut InferenceRun,
    streaming: &mut InferenceRun,
    error: UpstreamError,
    of_post: InferenceTask,
    of_open: InferenceTask,
    of_stream: InferenceTask,
)
    requires
        call_ensures(
            InferenceRun::step,
            (posted, InferenceEvent::Posted(Err::<UpstreamBody, UpstreamError>(error))),
            of_post,
        ),
        call_ensures(
            InferenceRun::step,
            (opened, InferenceEvent::Opened(Err::<(), UpstreamError>(error))),
            of_open,
        ),
        call_ensures(
            InferenceRun::step,
            (streaming, InferenceEvent::Opened(Ok::<(), UpstreamError>(()))),
            of_stream,
        ),
    ensures
        of_post matches InferenceTask::Send(sent) && tells_error(
            sent@,
            error.status,
            reason_of(error.status),
            "api_error"@,
            error.detail@,
        ),
        of_open matches InferenceTask::Send(sent) && tells_error(
            sent@,
            error.status,
            reason_of(error.status),
            "api_error"@,
            error.detail@,
        ),
        of_stream is Forward,
        final(posted).phase is Done && final(opened).phase is Done && final(streaming).phase is Done,
{
    law_error_texts(error.status, reason_of(error.status), "api_error"@, error.detail@, None);
}

/// A translated reply is sent as JSON, or as a stream where one is wanted; a filtered reply
/// keeps its status and type; what fails on the way is a bad gateway.
pub proof fn law_replies_in_the_terms_of_the_client(
    translated: &mut InferenceRun,
    untranslated: &mut InferenceRun,
    filtered: &mut InferenceRun,
    unfiltered: &mut InferenceRun,
    text: String,
    reason: String,
    body: Vec<u8>,
    status: u16,
    content_type: String,
    of_text: InferenceTask,
    of_none: InferenceTask,
    of_body: InferenceTask,
    of_fault: InferenceTask,
)
    requires
        call_ensures(
            InferenceRun::step,
            (translated, InferenceEvent::Translated(Ok::<String, String>(text))),
            of_text,
        ),
        call_ensures(
            InferenceRun::step,
            (untranslated, InferenceEvent::Translated(Err::<String, String>(reason))),
            of_none,
        ),
        old(filtered).phase == (InferencePhase::Filtering { status, content_type }),
        call_ensures(
            InferenceRun::step,
            (filtered, InferenceEvent::Filtered(Ok::<Vec<u8>, String>(body))),
            of_body,
        ),
        call_ensures(
            InferenceRun::step,
            (unfiltered, InferenceEvent::Filtered(Err::<Vec<u8>, String>(reason))),
            of_fault,
        ),
    ensures
        old(translated).stream ==> (of_text matches InferenceTask::Replay(sent) && sent@ == text@),
        !old(translated).stream ==> (of_text matches InferenceTask::Send(sent) && sent@.status == 200
            && sent@.reason == "OK"@ && sent@.content_type == "application/json"@ && sent@.body
            == encode_utf8(text@)),
        of_none matches InferenceTask::Send(sent) && tells_error(
            sent@,
            502,
            reason_of(502),
            "api_error"@,
            reason@,
        ),
        of_body matches InferenceTask::Send(sent) && sent@.status == status && sent@.reason
            == reason_of(status) && sent@.content_type == content_type@ && sent@.body == body@,
        of_fault matches InferenceTask::Send(sent) && tells_error(
            sent@,
            502,
            reason_of(502),
            "api_error"@,
            reason@,
        ),
{
    law_error_texts(502, reason_of(502), "api_error"@, reason@, None);
}

// ---------------------------------------------------------------------------
// Codex
// ---------------------------------------------------------------------------

/// A missing login asks for one, a passing failure for patience, and any other is the
/// gateway's own.
pub proof fn law_failed_logins_are_told(
    error: &OAuthFlowError,
    mapped: CodexAuthLoadError,
    rootless: CodexAuthLoadError,
)
    requires
        call_ensures(map_codex_auth_error, (error,), mapped),
        call_ensures(state_root_unavailable, (), rootless),
    ensures
        error.code == OAuthErrorCode::NotAuthenticated ==> mapped.status == 401
            && mapped.error_type@ == "authentication_error"@ && mapped.message@
            == "Codex login is required"@,
        error.code != OAuthErrorCode::NotAuthenticated && error.retryable ==> mapped.status == 503
            && mapped.error_type@ == "api_error"@ && mapped.message@
            == "Codex authentication is temporarily unavailable"@,
        error.code != OAuthErrorCode::NotAuthenticated && !error.retryable ==> mapped.status == 500
            && mapped.error_type@ == "api_error"@ && mapped.message@
            == "Codex authentication state is unavailable"@,
        rootless.status == 500 && rootless.error_type@ == "api_error"@ && rootless.message@
            == "Codex auth state root is unavailable"@,
{
}

/// Credentials that have expired are refreshed and loaded again; others are used.
pub proof fn law_credentials_are_loaded(
    expires_at: Option<i64>,
    now: i64,
    expired: bool,
    of_root: SecretsTask,
    of_loaded: SecretsTask,
    of_refreshed: SecretsTask,
    of_reloaded: SecretsTask,
)
    requires
        call_ensures(must_refresh, (expires_at, now), expired),
        call_ensures(
            load_codex_inference_secrets,
            (SecretsEvent::Started { has_state_root: true }, now),
            of_root,
        ),
        call_ensures(
            load_codex_inference_secrets,
            (SecretsEvent::Loaded(Ok::<Option<i64>, OAuthFlowError>(expires_at)), now),
            of_loaded,
        ),
        call_ensures(
            load_codex_inference_secrets,
            (SecretsEvent::Refreshed(Ok::<(), OAuthFlowError>(())), now),
            of_refreshed,
        ),
        call_ensures(
            load_codex_inference_secrets,
            (SecretsEvent::Reloaded(Ok::<(), OAuthFlowError>(())), now),
            of_reloaded,
        ),
    ensures
        expires_at is None ==> !expired,
        expires_at matches Some(at) ==> (expired <==> at <= now),
        of_root is Load,
        expired ==> of_loaded is Refresh,
        !expired ==> of_loaded is Use,
        of_refreshed is Reload,
        of_reloaded is Use,
{
}

/// Credentials that cannot be had end the request with why.
pub proof fn law_credentials_cannot_be_had(
    error: OAuthFlowError,
    now: i64,
    mapped: CodexAuthLoadError,
    rootless: SecretsTask,
    unloaded: SecretsTask,
    unrefreshed: SecretsTask,
    unreloaded: SecretsTask,
)
    requires
        call_ensures(map_codex_auth_error, (&error,), mapped),
        call_ensures(
            load_codex_inference_secrets,
            (SecretsEvent::Started { has_state_root: false }, now),
            rootless,
        ),
        call_ensures(
            load_codex_inference_secrets,
            (SecretsEvent::Loaded(Err::<Option<i64>, OAuthFlowError>(error)), now),
            unloaded,
        ),
        call_ensures(
            load_codex_inference_secrets,
            (SecretsEvent::Refreshed(Err::<(), OAuthFlowError>(error)), now),
            unrefreshed,
        ),
        call_ensures(
            load_codex_inference_secrets,
            (SecretsEvent::Reloaded(Err::<(), OAuthFlowError>(error)), now),
            unreloaded,
        ),
    ensures
        rootless matches SecretsTask::Fail(told) && told.status == 500 && told.message@
            == "Codex auth state root is unavailable"@ && told.error_type@ == "api_error"@,
        unloaded matches SecretsTask::Fail(told) && told.status == mapped.status && told.error_type@
            == mapped.error_type@ && told.message@ == mapped.message@,
        unrefreshed matches SecretsTask::Fail(told) && told.status == mapped.status
            && told.error_type@ == mapped.error_type@ && told.message@ == mapped.message@,
        unreloaded matches SecretsTask::Fail(told) && told.status == mapped.status
            && told.error_type@ == mapped.error_type@ && told.message@ == mapped.message@,
{
}

/// The model of a request is the text of its field, where that is not blank.
pub proof fn law_requested_models(request: &JsonValue, model: Option<&str>)
    requires
        call_ensures(requested_model, (request,), model),
    ensures
        model is Some <==> (field_of(request@, "model"@) matches Some(JsonTree::Text(text))
            && !is_blank(text)),
        model matches Some(model) ==> field_of(request@, "model"@) == Some(JsonTree::Text(model@)),
{
}

/// A caller allows the model to choose tools where it says nothing, or `auto`.
pub proof fn law_open_tool_choices(raw: &JsonValue, allows: bool)
    requires
        call_ensures(caller_allows_automatic_tool_choice, (raw,), allows),
    ensures
        field_of(raw@, "tool_choice"@) is None ==> allows,
        field_of(raw@, "tool_choice"@) matches Some(choice) ==> (allows <==> choice is Object
            && field_of(choice, "type"@) == Some(JsonTree::Text("auto"@))),
{
}

/// Each obstacle to a request has its refusal.
pub proof fn law_obstacles(
    error: TranslationError,
    no_model: HttpReply,
    no_key: HttpReply,
    untranslatable: HttpReply,
    no_watch: HttpReply,
)
    requires
        call_ensures(codex_obstacle_reply, (&CodexObstacle::NoModel,), no_model),
        call_ensures(codex_obstacle_reply, (&CodexObstacle::NoThinkingKey,), no_key),
        call_ensures(
            codex_obstacle_reply,
            (&CodexObstacle::Untranslatable(error),),
            untranslatable,
        ),
        call_ensures(codex_obstacle_reply, (&CodexObstacle::NoCancellationWatch,), no_watch),
    ensures
        tells_error(
            no_model@,
            400,
            "Bad Request"@,
            "invalid_request_error"@,
            "model is required for Codex"@,
        ),
        tells_error(
            no_key@,
            500,
            reason_of(500),
            "api_error"@,
            "Codex thinking key is unavailable"@,
        ),
        error.out_of_bounds ==> tells_error(
            untranslatable@,
            413,
            "Payload Too Large"@,
            "invalid_request_error"@,
            "request body is too large"@,
        ),
        !error.out_of_bounds ==> tells_error(
            untranslatable@,
            400,
            "Bad Request"@,
            "invalid_request_error"@,
            error.detail@,
        ),
        tells_error(
            no_watch@,
            500,
            reason_of(500),
            "api_error"@,
            "Codex cancellation monitor is unavailable"@,
        ),
{
    law_error_texts(
        400,
        "Bad Request"@,
        "invalid_request_error"@,
        "model is required for Codex"@,
        None,
    );
    law_error_texts(500, reason_of(500), "api_error"@, "Codex thinking key is unavailable"@, None);
    law_error_texts(
        413,
        "Payload Too Large"@,
        "invalid_request_error"@,
        "request body is too large"@,
        None,
    );
    law_error_texts(400, "Bad Request"@, "invalid_request_error"@, error.detail@, None);
    law_error_texts(
        500,
        reason_of(500),
        "api_error"@,
        "Codex cancellation monitor is unavailable"@,
        None,
    );
}

/// The way to the first post: credentials, model, key, translation, watch.
pub proof fn law_way_to_the_first_post(
    request: &JsonValue,
    model: Option<&str>,
    resolved: String,
    of_credentials: IntakeTask,
    of_model: IntakeTask,
    of_key: IntakeTask,
    of_translation: IntakeTask,
    of_watch: IntakeTask,
)
    requires
        call_ensures(requested_model, (request,), model),
        call_ensures(
            handle_codex_messages_with_catalog,
            (request, IntakeEvent::Loaded(Ok::<(), CodexAuthLoadError>(()))),
            of_credentials,
        ),
        call_ensures(
            handle_codex_messages_with_catalog,
            (
                request,
                IntakeEvent::Resolved(
                    Ok::<CodexResolution, CodexModelsFailure>(CodexResolution::Model(resolved)),
                ),
            ),
            of_model,
        ),
        call_ensures(
            handle_codex_messages_with_catalog,
            (request, IntakeEvent::FoundKey(true)),
            of_key,
        ),
        call_ensures(
            handle_codex_messages_with_catalog,
            (request, IntakeEvent::Translated(Ok::<(), TranslationError>(()))),
            of_translation,
        ),
        call_ensures(
            handle_codex_messages_with_catalog,
            (request, IntakeEvent::Watching(true)),
            of_watch,
        ),
    ensures
        model matches Some(model) ==> (of_credentials matches IntakeTask::Resolve { selector }
            && selector@ == model@),
        model is None ==> (of_credentials matches IntakeTask::Refuse { reply, auth_rejected }
            && auth_rejected is None && tells_error(
            reply@,
            400,
            "Bad Request"@,
            "route_unknown"@,
            "model selector is required for Codex"@,
        )),
        !is_blank(resolved@) ==> (of_model matches IntakeTask::FindKey { model } && model@
            == resolved@),
        is_blank(resolved@) ==> (of_model matches IntakeTask::Refuse { reply, auth_rejected }
            && auth_rejected is None && tells_error(
            reply@,
            400,
            "Bad Request"@,
            "invalid_request_error"@,
            "model is required for Codex"@,
        )),
        of_key is Translate,
        of_translation is Watch,
        of_watch is Attempt,
{
    law_error_texts(
        400,
        "Bad Request"@,
        "route_unknown"@,
        "model selector is required for Codex"@,
        None,
    );
    law_error_texts(
        400,
        "Bad Request"@,
        "invalid_request_error"@,
        "model is required for Codex"@,
        None,
    );
}

/// What ends a request before its first post is told; only an account that was not accepted
/// is refreshed.
pub proof fn law_requests_that_are_not_posted(
    request: &JsonValue,
    refused: CodexAuthLoadError,
    failure: CodexModelsFailure,
    resolution: CodexResolution,
    error: TranslationError,
    target: Result<String, HttpReply>,
    no_key_reply: HttpReply,
    error_reply: HttpReply,
    no_watch_reply: HttpReply,
    of_refused: IntakeTask,
    of_failure: IntakeTask,
    of_resolution: IntakeTask,
    of_no_key: IntakeTask,
    of_error: IntakeTask,
    of_no_watch: IntakeTask,
)
    requires
        call_ensures(codex_target, (resolution,), target),
        call_ensures(codex_obstacle_reply, (&CodexObstacle::NoThinkingKey,), no_key_reply),
        call_ensures(codex_obstacle_reply, (&CodexObstacle::Untranslatable(error),), error_reply),
        call_ensures(codex_obstacle_reply, (&CodexObstacle::NoCancellationWatch,), no_watch_reply),
        call_ensures(
            handle_codex_messages_with_catalog,
            (request, IntakeEvent::Loaded(Err::<(), CodexAuthLoadError>(refused))),
            of_refused,
        ),
        call_ensures(
            handle_codex_messages_with_catalog,
            (request, IntakeEvent::Resolved(Err::<CodexResolution, CodexModelsFailure>(failure))),
            of_failure,
        ),
        call_ensures(
            handle_codex_messages_with_catalog,
            (request, IntakeEvent::Resolved(Ok::<CodexResolution, CodexModelsFailure>(resolution))),
            of_resolution,
        ),
        call_ensures(
            handle_codex_messages_with_catalog,
            (request, IntakeEvent::FoundKey(false)),
            of_no_key,
        ),
        call_ensures(
            handle_codex_messages_with_catalog,
            (request, IntakeEvent::Translated(Err::<(), TranslationError>(error))),
            of_error,
        ),
        call_ensures(
            handle_codex_messages_with_catalog,
            (request, IntakeEvent::Watching(false)),
            of_no_watch,
        ),
    ensures
        of_refused matches IntakeTask::Refuse { reply, auth_rejected } && auth_rejected is None
            && tells_error(
            reply@,
            refused.status,
            reason_of(refused.status),
            refused.error_type@,
            refused.message@,
        ),
        of_failure matches IntakeTask::Refuse { reply, auth_rejected } && tells_models_error(
            reply@,
            failure.status,
            failure.error_kind@,
            failure.upstream_status,
            failure.detail@,
        ) && auth_rejected == (if failure.upstream_status == Some(401u16) {
            Some(401u16)
        } else {
            None
        }),
        target matches Err(told) ==> (of_resolution matches IntakeTask::Refuse {
            reply,
            auth_rejected,
        } && auth_rejected is None && reply@ == told@),
        of_no_key matches IntakeTask::Refuse { reply, auth_rejected } && auth_rejected is None
            && reply@ == no_key_reply@,
        of_error matches IntakeTask::Refuse { reply, auth_rejected } && auth_rejected is None
            && reply@ == error_reply@,
        of_no_watch matches IntakeTask::Refuse { reply, auth_rejected } && auth_rejected is None
            && reply@ == no_watch_reply@,
{
    law_error_texts(
        refused.status,
        reason_of(refused.status),
        refused.error_type@,
        refused.message@,
        None,
    );
    law_error_texts(
        failure.status,
        ""@,
        failure.error_kind@,
        failure.detail@,
        failure.upstream_status,
    );
}

/// A request to Codex starts ready for its first post, on the route that was asked for; a
/// repair is allowed only on the Lite route and where both sides leave tools to the model.
pub proof fn law_codex_requests_start(
    raw: &JsonValue,
    translated: serde_json::Value,
    lite: bool,
    correlation_id: CorrelationId,
    allows: bool,
    attempt: CodexAttempt,
)
    requires
        call_ensures(caller_allows_automatic_tool_choice, (raw,), allows),
        call_ensures(CodexAttempt::new, (raw, translated, lite, correlation_id), attempt),
    ensures
        attempt.translated == translated,
        attempt.controller@.phase is Ready,
        attempt.controller@.posts == 0 && attempt.controller@.repairs == 0,
        attempt.controller@.context.provider == ProviderId::Codex,
        attempt.controller@.context.correlation_id == correlation_id,
        lite ==> attempt.controller@.context.route == RouteMode::ResponsesLite,
        !lite ==> attempt.controller@.context.route == RouteMode::Responses,
        attempt.controller@.repair_enabled <==> lite && allows && field_of(
            value_tree(translated),
            "tool_choice"@,
        ) == Some(JsonTree::Text("auto"@)),
{
}

/// The first post counts, and an encoding that fails is the client's fault.
pub proof fn law_codex_posts(
    started: &mut CodexAttempt,
    unencoded: &mut CodexAttempt,
    first: CodexTask,
    refusal: (CodexTask, Option<u16>),
)
    requires
        old(started).wf(),
        old(started).controller@.phase is Ready,
        1 <= old(started).controller@.context.retry_policy.max_posts,
        call_ensures(CodexAttempt::begin, (started,), first),
        call_ensures(CodexAttempt::step, (unencoded, CodexEvent::EncodingFailed), refusal),
    ensures
        first is Post,
        final(started).controller@.phase is InFlight,
        final(started).controller@.posts == old(started).controller@.posts + 1,
        final(started).translated == old(started).translated,
        refusal.0 matches CodexTask::Finish { record, answer: CodexAnswer::Refusal(reply) }
            && record is None && tells_error(
            reply@,
            400,
            "Bad Request"@,
            "invalid_request_error"@,
            "Codex request encoding failed"@,
        ),
        refusal.1 is None,
{
    law_error_texts(
        400,
        "Bad Request"@,
        "invalid_request_error"@,
        "Codex request encoding failed"@,
        None,
    );
}

/// Refused credentials are told to who keeps them, and no other refusal is.
pub proof fn law_refused_credentials_are_told(
    attempt: &mut CodexAttempt,
    refusal: CodexRefusal,
    next: (CodexTask, Option<u16>),
)
    requires
        call_ensures(CodexAttempt::step, (attempt, CodexEvent::Refused(refusal)), next),
    ensures
        refusal.upstream_status == Some(401u16) ==> next.1 == Some(401u16),
        refusal.upstream_status == Some(403u16) ==> next.1 == Some(403u16),
        refusal.upstream_status != Some(401u16) && refusal.upstream_status != Some(403u16)
            ==> next.1 is None,
{
}

/// After a wait the request is posted again where it is still wanted, and else given up; a
/// reply that opened is relayed.
pub proof fn law_codex_requests_go_on(
    waited: &mut CodexAttempt,
    unwanted: &mut CodexAttempt,
    opened: &mut CodexAttempt,
    of_wait: (CodexTask, Option<u16>),
    of_unwanted: (CodexTask, Option<u16>),
    of_open: (CodexTask, Option<u16>),
)
    requires
        call_ensures(CodexAttempt::step, (waited, CodexEvent::Waited { wanted: true }), of_wait),
        call_ensures(
            CodexAttempt::step,
            (unwanted, CodexEvent::Waited { wanted: false }),
            of_unwanted,
        ),
        call_ensures(CodexAttempt::step, (opened, CodexEvent::Opened), of_open),
    ensures
        of_wait.0 is Post,
        final(waited).translated == old(waited).translated,
        final(waited).controller@.posts == old(waited).controller@.posts + 1,
        of_unwanted.0 matches CodexTask::Finish { record: Some(record), answer }
            && answer is Nothing && record.outcome == AttemptOutcome::Cancelled,
        of_open.0 is Relay,
        final(opened).controller@.phase is UpstreamOpen,
        of_wait.1 is None && of_unwanted.1 is None && of_open.1 is None,
{
}

/// A reply that came through is recorded as complete, one that the client left as
/// cancelled, and one that broke as failed; a collected reply is answered with itself, or
/// with the failure, and one that was streamed with nothing more.
pub proof fn law_codex_requests_end(
    streamed: &mut CodexAttempt,
    collected: &mut CodexAttempt,
    outcome: CodexStreamOutcome,
    result: Result<(), CodexNonstreamError>,
    has_response: bool,
    of_stream: (CodexTask, Option<u16>),
    of_whole: (CodexTask, Option<u16>),
)
    requires
        call_ensures(CodexAttempt::step, (streamed, CodexEvent::Streamed(outcome)), of_stream),
        call_ensures(
            CodexAttempt::step,
            (collected, CodexEvent::Collected { result, has_response }),
            of_whole,
        ),
    ensures
        of_stream.0 matches CodexTask::Finish { record: Some(record), answer } && answer is Nothing
            && record.outcome == (match outcome {
            CodexStreamOutcome::Completed => AttemptOutcome::Completed,
            CodexStreamOutcome::Cancelled => AttemptOutcome::Cancelled,
            CodexStreamOutcome::Failed => AttemptOutcome::Failed,
        }),
        of_whole.0 matches CodexTask::Finish { record: Some(record), answer } && {
            &&& result is Ok && has_response ==> answer is Response && record.outcome
                == AttemptOutcome::Completed
            &&& result == Err::<(), CodexNonstreamError>(CodexNonstreamError::DownstreamClosed)
                ==> answer is Nothing && record.outcome == AttemptOutcome::Cancelled
            &&& (result is Ok && !has_response) || (result is Err && result != Err::<
                (),
                CodexNonstreamError,
            >(CodexNonstreamError::DownstreamClosed)) ==> answer is Failure && record.outcome
                == AttemptOutcome::Failed
        },
        final(streamed).controller@.phase is Finalized,
        final(collected).controller@.phase is Finalized,
{
}

proof fn lemma_other_fields_stay(
    fields: Seq<(Seq<char>, JsonTree)>,
    removed: Seq<char>,
    name: Seq<char>,
)
    requires
        name != removed,
    ensures
        first_field(without_field(fields, removed), name) == first_field(fields, name),
    decreases fields.len(),
{
    if fields.len() > 0 {
        let rest = without_field(fields.skip(1), removed);
        lemma_other_fields_stay(fields.skip(1), removed, name);
        if fields[0].0 != removed {
            assert((seq![fields[0]] + rest).skip(1) =~= rest);
        }
    }
}

/// A refused post is repeated after the pause that its controller asks for, repaired once
/// by taking the choice of tools out and nothing else, or answered with the failure.
pub proof fn law_refused_posts(
    attempt: &mut CodexAttempt,
    refusal: CodexRefusal,
    next: (CodexTask, Option<u16>),
    name: Seq<char>,
)
    requires
        call_ensures(CodexAttempt::step, (attempt, CodexEvent::Refused(refusal)), next),
    ensures
        match old(attempt).controller@.observed(refusal.observation) {
            Ok((_, AttemptDirective::RetryAfter(pause))) => next.0 == CodexTask::Wait(pause)
                && final(attempt).translated == old(attempt).translated,
            Ok((_, AttemptDirective::Fail(failure))) => (next.0 matches CodexTask::Finish {
                record: Some(record),
                answer,
            } && answer == CodexAnswer::Failure(failure) && record.outcome == AttemptOutcome::Failed
                && record.mapped_status == Some(failure.status) && record.posts == old(attempt).controller@.posts),
            Ok((_, AttemptDirective::Cancel)) => (next.0 matches CodexTask::Finish {
                record: Some(record),
                answer,
            } && answer is Nothing && record.outcome == AttemptOutcome::Cancelled),
            Ok((_, AttemptDirective::RepairOnce(_))) => next.0 is Post && (value_tree(
                old(attempt).translated,
            ) is Object) && (value_tree(final(attempt).translated) is Object) && (name
                != "tool_choice"@ ==> field_of(value_tree(final(attempt).translated), name)
                == field_of(value_tree(old(attempt).translated), name)) && final(attempt).controller@.posts == old(attempt).controller@.posts + 1,
            Err(_) => false,
        },
{
    if let JsonTree::Object(fields) = value_tree(old(attempt).translated) {
        if name != "tool_choice"@ {
            lemma_other_fields_stay(fields, "tool_choice"@, name);
        }
    }
}

} // verus!
