//! One caller request to Codex: what is posted, awaited, repaired and answered.

use vstd::prelude::*;

use crate::codex_auth::oauth::{OAuthErrorCode, OAuthFlowError};
use crate::json::{
    field_of, remove_value_field, render_value, rendered_json, value_field, value_text, value_tree,
    without_field, JsonTree, JsonValue,
};
use crate::provider_failure::{
    AttemptController, AttemptDiagnostic, AttemptDirective, AttemptOutcome, AttemptPhase,
    AttemptState, CorrelationId, FailureObservation, ProtocolKind, ProviderFailure, RouteContext,
    RouteMode, TransitionError,
};
use crate::server::codex_pump::{CodexNonstreamError, CodexStreamOutcome};
use crate::server::reply::{
    api_error_json, error_reply, invalid_request_json, reason_of, request_too_large_json, HttpReply,
    Reply,
};
use crate::text::{is_blank, str_eq, text_is_blank};

verus! {

/// What a client is told when its credentials cannot be had.
#[derive(Clone, Copy, Debug, PartialEq, Eq)]
pub struct CodexAuthLoadError {
    pub status: u16,
    pub error_type: &'static str,
    pub message: &'static str,
}

/// The status, the type and the message of the reply to `error`. A missing login is told
/// apart from a passing failure and from a broken state.
pub open spec fn auth_error_of(error: OAuthFlowError) -> (u16, Seq<char>, Seq<char>) {
    if error.code == OAuthErrorCode::NotAuthenticated {
        (401, "authentication_error"@, "Codex login is required"@)
    } else if error.retryable {
        (503, "api_error"@, "Codex authentication is temporarily unavailable"@)
    } else {
        (500, "api_error"@, "Codex authentication state is unavailable"@)
    }
}

pub fn map_codex_auth_error(error: &OAuthFlowError) -> (mapped: CodexAuthLoadError)
    ensures
        (mapped.status, mapped.error_type@, mapped.message@) == auth_error_of(*error),
{
    if error.code == OAuthErrorCode::NotAuthenticated {
        CodexAuthLoadError {
            status: 401,
            error_type: "authentication_error",
            message: "Codex login is required",
        }
    } else if error.retryable {
        CodexAuthLoadError {
            status: 503,
            error_type: "api_error",
            message: "Codex authentication is temporarily unavailable",
        }
    } else {
        CodexAuthLoadError {
            status: 500,
            error_type: "api_error",
            message: "Codex authentication state is unavailable",
        }
    }
}

/// There is no place where credentials could be kept.
pub fn state_root_unavailable() -> (error: CodexAuthLoadError)
    ensures
        error.status == 500,
        error.error_type@ == "api_error"@,
        error.message@ == "Codex auth state root is unavailable"@,
{
    CodexAuthLoadError {
        status: 500,
        error_type: "api_error",
        message: "Codex auth state root is unavailable",
    }
}

/// Credentials that have expired are refreshed before they are used.
pub fn must_refresh(expires_at: Option<i64>, now: i64) -> (yes: bool)
    ensures
        yes == (expires_at matches Some(at) && at <= now),
{
    match expires_at {
        Some(at) => at <= now,
        None => false,
    }
}

/// What came back while credentials are loaded.
pub enum SecretsEvent {
    /// Whether there is a place where credentials are kept.
    Started { has_state_root: bool },
    /// When the credentials expire, where they say so.
    Loaded(Result<Option<i64>, OAuthFlowError>),
    Refreshed(Result<(), OAuthFlowError>),
    Reloaded(Result<(), OAuthFlowError>),
}

/// What to do next about credentials.
#[derive(Clone, Copy, Debug, PartialEq, Eq)]
pub enum SecretsTask {
    Load,
    Use,
    Refresh,
    Reload,
    Fail(CodexAuthLoadError),
}

/// What is done about credentials after `event`, where it is not a failure.
pub open spec fn secrets_step(event: SecretsEvent, now: i64) -> Option<SecretsTask> {
    match event {
        SecretsEvent::Started { has_state_root: true } => Some(SecretsTask::Load),
        SecretsEvent::Loaded(Ok(expires_at)) => if expires_at matches Some(at) && at <= now {
            Some(SecretsTask::Refresh)
        } else {
            Some(SecretsTask::Use)
        },
        SecretsEvent::Refreshed(Ok(_)) => Some(SecretsTask::Reload),
        SecretsEvent::Reloaded(Ok(_)) => Some(SecretsTask::Use),
        _ => None,
    }
}

/// Loads the credentials for a request. Those that have expired are refreshed, and then
/// loaded again.
pub fn load_codex_inference_secrets(event: SecretsEvent, now: i64) -> (task: SecretsTask)
    ensures
        match secrets_step(event, now) {
            Some(expected) => task == expected,
            None => task matches SecretsTask::Fail(told) && match event {
                SecretsEvent::Loaded(Err(error))
                | SecretsEvent::Refreshed(Err(error))
                | SecretsEvent::Reloaded(Err(error)) => (
                    told.status,
                    told.error_type@,
                    told.message@,
                ) == auth_error_of(error),
                _ => (told.status, told.error_type@, told.message@) == (
                    500u16,
                    "api_error"@,
                    "Codex auth state root is unavailable"@,
                ),
            },
        },
{
    match event {
        SecretsEvent::Started { has_state_root } => {
            if has_state_root {
                SecretsTask::Load
            } else {
                SecretsTask::Fail(state_root_unavailable())
            }
        },
        SecretsEvent::Loaded(Ok(expires_at)) => {
            if must_refresh(expires_at, now) {
                SecretsTask::Refresh
            } else {
                SecretsTask::Use
            }
        },
        SecretsEvent::Refreshed(Ok(_)) => SecretsTask::Reload,
        SecretsEvent::Reloaded(Ok(_)) => SecretsTask::Use,
        SecretsEvent::Loaded(Err(error))
        | SecretsEvent::Refreshed(Err(error))
        | SecretsEvent::Reloaded(Err(error)) => SecretsTask::Fail(map_codex_auth_error(&error)),
    }
}

/// The model that a request names, unless its name is blank.
pub open spec fn model_in(request: JsonTree) -> Option<Seq<char>> {
    match field_of(request, "model"@) {
        Some(JsonTree::Text(model)) if !is_blank(model) => Some(model),
        _ => None,
    }
}

pub fn requested_model(request: &JsonValue) -> (model: Option<&str>)
    ensures
        crate::text::view_of_str(model) == model_in(request@),
{
    match request.get("model") {
        Some(value) => match value.as_text() {
            Some(model) => {
                if text_is_blank(model) {
                    None
                } else {
                    Some(model)
                }
            },
            None => None,
        },
        None => None,
    }
}

/// A caller leaves the choice of tools open: it says nothing of it, or says so.
pub open spec fn leaves_tool_choice_open(request: JsonTree) -> bool {
    match field_of(request, "tool_choice"@) {
        None => true,
        Some(choice) => choice is Object && field_of(choice, "type"@) == Some(
            JsonTree::Text("auto"@),
        ),
    }
}

pub fn caller_allows_automatic_tool_choice(raw: &JsonValue) -> (allows: bool)
    ensures
        allows == leaves_tool_choice_open(raw@),
{
    match raw.get("tool_choice") {
        None => true,
        Some(choice) => match choice {
            JsonValue::Object(_) => match choice.get("type") {
                Some(kind) => match kind.as_text() {
                    Some(kind) => str_eq(kind, "auto"),
                    None => false,
                },
                None => false,
            },
            _ => false,
        },
    }
}

/// A request that leaves the choice of tools to the model.
pub open spec fn chooses_automatically(request: JsonTree) -> bool {
    field_of(request, "tool_choice"@) == Some(JsonTree::Text("auto"@))
}

fn is_automatic(request: &serde_json::Value) -> (yes: bool)
    ensures
        yes == chooses_automatically(value_tree(*request)),
{
    match value_field(request, "tool_choice") {
        Some(choice) => match value_text(choice) {
            Some(choice) => str_eq(choice, "auto"),
            None => false,
        },
        None => false,
    }
}

/// Why a request could not be put into the terms of Codex.
pub struct TranslationError {
    pub out_of_bounds: bool,
    pub detail: String,
}

/// What stands in the way of a request before it is posted.
pub enum CodexObstacle {
    NoModel,
    NoThinkingKey,
    Untranslatable(TranslationError),
    NoCancellationWatch,
}

pub open spec fn obstacle_reply(obstacle: CodexObstacle) -> Reply {
    match obstacle {
        CodexObstacle::NoModel => error_reply(
            400,
            "Bad Request"@,
            "invalid_request_error"@,
            "model is required for Codex"@,
        ),
        CodexObstacle::NoThinkingKey => error_reply(
            500,
            reason_of(500),
            "api_error"@,
            "Codex thinking key is unavailable"@,
        ),
        CodexObstacle::Untranslatable(error) => if error.out_of_bounds {
            error_reply(
                413,
                "Payload Too Large"@,
                "invalid_request_error"@,
                "request body is too large"@,
            )
        } else {
            error_reply(400, "Bad Request"@, "invalid_request_error"@, error.detail@)
        },
        CodexObstacle::NoCancellationWatch => error_reply(
            500,
            reason_of(500),
            "api_error"@,
            "Codex cancellation monitor is unavailable"@,
        ),
    }
}

pub fn codex_obstacle_reply(obstacle: &CodexObstacle) -> (reply: HttpReply)
    ensures
        reply@ == obstacle_reply(*obstacle),
{
    match obstacle {
        CodexObstacle::NoModel => invalid_request_json("model is required for Codex"),
        CodexObstacle::NoThinkingKey => api_error_json(500, "Codex thinking key is unavailable"),
        CodexObstacle::Untranslatable(error) => {
            if error.out_of_bounds {
                request_too_large_json()
            } else {
                invalid_request_json(error.detail.as_str())
            }
        },
        CodexObstacle::NoCancellationWatch => {
            api_error_json(500, "Codex cancellation monitor is unavailable")
        },
    }
}

/// What a post came to when it brought no reply.
pub struct CodexRefusal {
    pub upstream_status: Option<u16>,
    pub observation: FailureObservation,
}

impl CodexRefusal {
    /// The credentials were refused.
    pub open spec fn rejects_auth(self) -> Option<u16> {
        match self.upstream_status {
            Some(401) => Some(401),
            Some(403) => Some(403),
            _ => None,
        }
    }
}

/// What came back during a request.
pub enum CodexEvent {
    EncodingFailed,
    Opened,
    Refused(CodexRefusal),
    Waited { wanted: bool },
    Streamed(CodexStreamOutcome),
    Collected { result: Result<(), CodexNonstreamError>, has_response: bool },
}

/// What the client is answered at the end.
pub enum CodexAnswer {
    /// Nothing: it is gone, or was sent the reply already.
    Nothing,
    Refusal(HttpReply),
    Failure(ProviderFailure),
    /// The reply that was collected.
    Response,
}

/// What to do next.
pub enum CodexTask {
    Post,
    Wait(u64),
    Relay,
    Finish { record: Option<AttemptDiagnostic>, answer: CodexAnswer },
}

/// A request to Codex that is under way.
pub struct CodexAttempt {
    pub controller: AttemptController,
    pub translated: serde_json::Value,
}

pub open spec fn broken_reply() -> FailureObservation {
    FailureObservation::Protocol(ProtocolKind::InvalidResponse)
}

/// The task ends the request with this record, and answers with a failure only where
/// `answered`.
pub open spec fn fails_with(
    task: CodexTask,
    state: AttemptState,
    failure: ProviderFailure,
    answered: bool,
) -> bool {
    &&& task matches CodexTask::Finish { record, answer }
    &&& record matches Some(record) && record.records(AttemptOutcome::Failed, state)
        && record.tells_failure(failure)
    &&& if answered {
        answer == CodexAnswer::Failure(failure)
    } else {
        answer is Nothing
    }
}

/// The task ends the request without a failure to tell of.
pub open spec fn ends_with(
    task: CodexTask,
    state: AttemptState,
    outcome: AttemptOutcome,
    with_response: bool,
) -> bool {
    &&& task matches CodexTask::Finish { record, answer }
    &&& record matches Some(record) && record.records(outcome, state) && record.tells_no_failure()
    &&& if with_response {
        answer is Response
    } else {
        answer is Nothing
    }
}

impl CodexAttempt {
    /// A repair that is still allowed has an automatic tool choice to take out.
    pub open spec fn wf(self) -> bool {
        &&& self.controller.wf()
        &&& self.controller@.repair_enabled && self.controller@.repairs == 0
            ==> chooses_automatically(value_tree(self.translated))
    }

    /// Starts a request. A Lite request may be repaired once where both the caller and
    /// the request leave the choice of tools to the model.
    pub fn new(
        raw: &JsonValue,
        translated: serde_json::Value,
        use_responses_lite: bool,
        correlation_id: CorrelationId,
    ) -> (attempt: CodexAttempt)
        ensures
            attempt.wf(),
            attempt.translated == translated,
            attempt.controller@.phase is Ready,
            attempt.controller@.posts == 0,
            attempt.controller@.repairs == 0,
            attempt.controller@.delays_ms.len() == 0,
            attempt.controller@.context.correlation_id == correlation_id,
            attempt.controller@.context.provider is Codex,
            attempt.controller@.context.retry_policy.shipped(true, false),
            attempt.controller@.context.route == (if use_responses_lite {
                RouteMode::ResponsesLite
            } else {
                RouteMode::Responses
            }),
            attempt.controller@.repair_enabled == (use_responses_lite && leaves_tool_choice_open(
                raw@,
            ) && chooses_automatically(value_tree(translated))),
    {
        let repair_enabled = use_responses_lite && caller_allows_automatic_tool_choice(raw)
            && is_automatic(&translated);
        let route = if use_responses_lite {
            RouteMode::ResponsesLite
        } else {
            RouteMode::Responses
        };
        let context = RouteContext::codex(route, correlation_id);
        CodexAttempt { controller: AttemptController::new(context, repair_enabled), translated }
    }

    /// The first post.
    pub fn begin(&mut self) -> (task: CodexTask)
        requires
            old(self).wf(),
            old(self).controller@.phase is Ready,
            1 <= old(self).controller@.context.retry_policy.max_posts,
        ensures
            final(self).wf(),
            final(self).translated == old(self).translated,
            old(self).controller@.posted() == Ok::<AttemptState, TransitionError>(
                final(self).controller@,
            ),
            task is Post,
    {
        let _ = self.controller.begin_post();
        CodexTask::Post
    }

    /// The body of the next post, if the request can be written as JSON.
    pub fn encoded(&self) -> (body: Option<String>)
        ensures
            crate::text::view_of(body) == rendered_json(value_tree(self.translated)),
    {
        render_value(&self.translated)
    }

    /// `event` answers what was asked last.
    pub open spec fn fits(self, event: CodexEvent) -> bool {
        match event {
            CodexEvent::EncodingFailed | CodexEvent::Opened | CodexEvent::Refused(_) =>
                self.controller@.phase is InFlight,
            CodexEvent::Waited { .. } => self.controller@.phase is RetryAuthorized,
            CodexEvent::Streamed(_) | CodexEvent::Collected { .. } =>
                self.controller@.phase is UpstreamOpen,
        }
    }

    fn cancel(&mut self) -> (task: CodexTask)
        requires
            old(self).wf(),
            old(self).controller@.phase is UpstreamOpen || old(self).controller@.phase
                == AttemptPhase::TerminalPending(AttemptOutcome::Cancelled),
        ensures
            final(self).wf(),
            final(self).translated == old(self).translated,
            final(self).controller@ == old(self).controller@.finalized(AttemptOutcome::Cancelled),
            ends_with(task, old(self).controller@, AttemptOutcome::Cancelled, false),
    {
        let record = match self.controller.cancelled_diagnostic() {
            Ok(record) => Some(record),
            Err(_) => None,
        };
        CodexTask::Finish { record, answer: CodexAnswer::Nothing }
    }

    fn complete(&mut self, answer: CodexAnswer) -> (task: CodexTask)
        requires
            old(self).wf(),
            old(self).controller@.phase is UpstreamOpen,
            answer is Response || answer is Nothing,
        ensures
            final(self).wf(),
            final(self).translated == old(self).translated,
            final(self).controller@ == old(self).controller@.finalized(AttemptOutcome::Completed),
            ends_with(
                task,
                old(self).controller@,
                AttemptOutcome::Completed,
                answer is Response,
            ),
    {
        let record = match self.controller.completed_diagnostic() {
            Ok(record) => Some(record),
            Err(_) => None,
        };
        CodexTask::Finish { record, answer }
    }

    fn fail(&mut self, failure: ProviderFailure, answered: bool) -> (task: CodexTask)
        requires
            old(self).wf(),
            old(self).controller@.phase == AttemptPhase::TerminalPending(AttemptOutcome::Failed),
        ensures
            final(self).wf(),
            final(self).translated == old(self).translated,
            final(self).controller@ == old(self).controller@.finalized(AttemptOutcome::Failed),
            fails_with(task, old(self).controller@, failure, answered),
    {
        let record = match self.controller.failed_diagnostic(&failure) {
            Ok(record) => Some(record),
            Err(_) => None,
        };
        let answer = if answered {
            CodexAnswer::Failure(failure)
        } else {
            CodexAnswer::Nothing
        };
        CodexTask::Finish { record, answer }
    }

    fn fail_after_open(&mut self, answered: bool) -> (task: CodexTask)
        requires
            old(self).wf(),
            old(self).controller@.phase is UpstreamOpen,
        ensures
            final(self).wf(),
            final(self).translated == old(self).translated,
            final(self).controller@ == old(self).controller@.finalized(AttemptOutcome::Failed),
            fails_with(
                task,
                old(self).controller@.ended(AttemptOutcome::Failed),
                ProviderFailure::of(old(self).controller@.context, broken_reply(), false),
                answered,
            ),
    {
        match self.controller.observe(
            FailureObservation::Protocol(ProtocolKind::InvalidResponse),
        ) {
            Ok(AttemptDirective::Fail(failure)) => self.fail(failure, answered),
            _ => CodexTask::Finish { record: None, answer: CodexAnswer::Nothing },
        }
    }

    /// A post was refused.
    fn refused(&mut self, observation: FailureObservation) -> (task: CodexTask)
        requires
            old(self).wf(),
            old(self).controller@.phase is InFlight,
        ensures
            final(self).wf(),
            old(self).after_refusal(observation, task, *final(self)),
    {
        match self.controller.observe(observation) {
            Ok(AttemptDirective::RetryAfter(delay_ms)) => CodexTask::Wait(delay_ms),
            Ok(AttemptDirective::Fail(failure)) => self.fail(failure, true),
            Ok(AttemptDirective::Cancel) => self.cancel(),
            Ok(AttemptDirective::RepairOnce(_)) => {
                remove_value_field(&mut self.translated, "tool_choice");
                let _ = self.controller.begin_post();
                CodexTask::Post
            },
            Err(_) => CodexTask::Finish { record: None, answer: CodexAnswer::Nothing },
        }
    }

    /// What a refusal leads to. A repair takes the tool choice out of the request and
    /// posts it again at once.
    pub open spec fn after_refusal(
        self,
        observation: FailureObservation,
        task: CodexTask,
        after: CodexAttempt,
    ) -> bool {
        match self.controller@.observed(observation) {
            Ok((next, AttemptDirective::RetryAfter(delay_ms))) => {
                &&& task == CodexTask::Wait(delay_ms)
                &&& after.controller@ == next
                &&& after.translated == self.translated
            },
            Ok((next, AttemptDirective::Fail(failure))) => {
                &&& fails_with(task, next, failure, true)
                &&& after.controller@ == next.finalized(AttemptOutcome::Failed)
                &&& after.translated == self.translated
            },
            Ok((next, AttemptDirective::Cancel)) => {
                &&& ends_with(task, next, AttemptOutcome::Cancelled, false)
                &&& after.controller@ == next.finalized(AttemptOutcome::Cancelled)
                &&& after.translated == self.translated
            },
            Ok((next, AttemptDirective::RepairOnce(_))) => {
                &&& task is Post
                &&& next.posted() == Ok::<AttemptState, TransitionError>(after.controller@)
                &&& value_tree(self.translated) matches JsonTree::Object(fields) && value_tree(
                    after.translated,
                ) == JsonTree::Object(without_field(fields, "tool_choice"@))
            },
            Err(_) => false,
        }
    }

    /// What follows an event.
    pub open spec fn follows(
        self,
        event: CodexEvent,
        task: CodexTask,
        after: CodexAttempt,
    ) -> bool {
        let state = self.controller@;
        match event {
            CodexEvent::EncodingFailed => {
                &&& task matches CodexTask::Finish { record: None, answer: CodexAnswer::Refusal(
                    reply,
                ) }
                &&& reply@ == error_reply(
                    400,
                    "Bad Request"@,
                    "invalid_request_error"@,
                    "Codex request encoding failed"@,
                )
                &&& after == self
            },
            CodexEvent::Opened => {
                &&& task is Relay
                &&& state.opened() == Ok::<AttemptState, TransitionError>(after.controller@)
                &&& after.translated == self.translated
            },
            CodexEvent::Refused(refusal) => self.after_refusal(refusal.observation, task, after),
            CodexEvent::Waited { wanted: true } => {
                &&& task is Post
                &&& state.posted() == Ok::<AttemptState, TransitionError>(after.controller@)
                &&& after.translated == self.translated
            },
            CodexEvent::Waited { wanted: false } => {
                let ended = state.ended(AttemptOutcome::Cancelled);
                &&& ends_with(task, ended, AttemptOutcome::Cancelled, false)
                &&& after.controller@ == ended.finalized(AttemptOutcome::Cancelled)
                &&& after.translated == self.translated
            },
            CodexEvent::Streamed(CodexStreamOutcome::Completed) => {
                &&& ends_with(task, state, AttemptOutcome::Completed, false)
                &&& after.controller@ == state.finalized(AttemptOutcome::Completed)
                &&& after.translated == self.translated
            },
            CodexEvent::Collected { result: Ok(_), has_response: true } => {
                &&& ends_with(task, state, AttemptOutcome::Completed, true)
                &&& after.controller@ == state.finalized(AttemptOutcome::Completed)
                &&& after.translated == self.translated
            },
            CodexEvent::Streamed(CodexStreamOutcome::Cancelled) | CodexEvent::Collected {
                result: Err(CodexNonstreamError::DownstreamClosed),
                ..
            } => {
                &&& ends_with(task, state, AttemptOutcome::Cancelled, false)
                &&& after.controller@ == state.finalized(AttemptOutcome::Cancelled)
                &&& after.translated == self.translated
            },
            CodexEvent::Streamed(CodexStreamOutcome::Failed) | CodexEvent::Collected { .. } => {
                let ended = state.ended(AttemptOutcome::Failed);
                &&& fails_with(
                    task,
                    ended,
                    ProviderFailure::of(state.context, broken_reply(), false),
                    event is Collected,
                )
                &&& after.controller@ == state.finalized(AttemptOutcome::Failed)
                &&& after.translated == self.translated
            },
        }
    }

    /// Takes what came back, and says what to do next. The second part of the result
    /// tells whether the credentials were refused, and how.
    pub fn step(&mut self, event: CodexEvent) -> (next: (CodexTask, Option<u16>))
        requires
            old(self).wf(),
            old(self).fits(event),
        ensures
            final(self).wf(),
            old(self).follows(event, next.0, *final(self)),
            next.1 == (match event {
                CodexEvent::Refused(refusal) => refusal.rejects_auth(),
                _ => None,
            }),
    {
        match event {
            CodexEvent::EncodingFailed => (
                CodexTask::Finish {
                    record: None,
                    answer: CodexAnswer::Refusal(
                        invalid_request_json("Codex request encoding failed"),
                    ),
                },
                None,
            ),
            CodexEvent::Opened => {
                let _ = self.controller.mark_response_started();
                (CodexTask::Relay, None)
            },
            CodexEvent::Refused(refusal) => {
                let rejected = match refusal.upstream_status {
                    Some(401) => Some(401u16),
                    Some(403) => Some(403u16),
                    _ => None,
                };
                (self.refused(refusal.observation), rejected)
            },
            CodexEvent::Waited { wanted: true } => {
                let _ = self.controller.begin_post();
                (CodexTask::Post, None)
            },
            CodexEvent::Waited { wanted: false } => {
                let _ = self.controller.observe(FailureObservation::Cancelled);
                (self.cancel(), None)
            },
            CodexEvent::Streamed(CodexStreamOutcome::Completed) => (
                self.complete(CodexAnswer::Nothing),
                None,
            ),
            CodexEvent::Streamed(CodexStreamOutcome::Cancelled) => (self.cancel(), None),
            CodexEvent::Streamed(CodexStreamOutcome::Failed) => (self.fail_after_open(false), None),
            CodexEvent::Collected { result, has_response } => match result {
                Err(CodexNonstreamError::DownstreamClosed) => (self.cancel(), None),
                Err(_) => (self.fail_after_open(true), None),
                Ok(_) => {
                    if has_response {
                        (self.complete(CodexAnswer::Response), None)
                    } else {
                        (self.fail_after_open(true), None)
                    }
                },
            },
        }
    }
}

/// Refused credentials are never answered with another post of the same request.
pub proof fn law_refused_credentials_are_not_reposted(
    state: AttemptState,
    observation: FailureObservation,
)
    requires
        state.wf(),
        state.phase is InFlight,
        state.context.retry_policy.shipped(true, false),
        observation.has_status(401) || observation.has_status(403),
    ensures
        state.observed(observation) matches Ok((_, AttemptDirective::Fail(_))),
{
}

/// A reply that has begun is never asked for again, however it ends.
pub proof fn law_begun_reply_ends_the_request(
    attempt: CodexAttempt,
    event: CodexEvent,
    task: CodexTask,
    after: CodexAttempt,
)
    requires
        attempt.wf(),
        event is Streamed || event is Collected,
        attempt.follows(event, task, after),
    ensures
        task is Finish,
        after.controller@.phase is Finalized,
        after.controller@.posts == attempt.controller@.posts,
{
}

} // verus!
