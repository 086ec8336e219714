//! What holds of every request, from its first post to its record.

use vstd::prelude::*;

use crate::api_key_attempt::{
    ApiKeyAttemptSequence, ApiKeyPostOnceTransport, AttemptStep, OpenResult, OpenedAttempt,
    TerminalAttempt,
};
use crate::config::GatewayConfig;
use crate::json::{JsonTree, JsonValue};
use crate::messages::AttemptMode;
use crate::provider_failure::{
    AttemptController, AttemptDiagnostic, AttemptDirective, AttemptOutcome, AttemptPhase,
    AttemptSnapshot, AttemptState, CorrelationId, FailureClass, FailureObservation, NetworkKind,
    ProtocolKind, ProviderFailure, ProviderId, RateKind, RequestId, RetryPolicy, RouteContext, RouteMode,
    TransitionError,
};
use crate::text::{decimal, quoted_text};

verus! {

/// Only the phase differs.
pub open spec fn only_moved_to(after: AttemptState, before: AttemptState, phase: AttemptPhase) -> bool {
    &&& after.phase == phase
    &&& after.context == before.context
    &&& after.repair_enabled == before.repair_enabled
    &&& after.posts == before.posts
    &&& after.repairs == before.repairs
    &&& after.delays_ms == before.delays_ms
    &&& after.response_started == before.response_started
}

/// A reply that opened is handed on, and the request is open; nothing is spent on it.
pub proof fn law_an_opened_reply_is_handed_on<O>(
    controller: AttemptController,
    opened: O,
    step: AttemptStep<O>,
)
    requires
        controller.wf(),
        controller@.phase is InFlight,
        call_ensures(ApiKeyAttemptSequence::after_reply::<O>, (controller, Ok(opened)), step),
    ensures
        step matches AttemptStep::Done(OpenResult::Opened(attempt)) && {
            &&& attempt.opened == opened
            &&& attempt.controller@.phase is UpstreamOpen
            &&& attempt.controller@.response_started
            &&& attempt.controller@.context == controller@.context
            &&& attempt.controller@.posts == controller@.posts
            &&& attempt.controller@.repairs == controller@.repairs
            &&& attempt.controller@.delays_ms == controller@.delays_ms
        },
{
}

/// What follows a failed post is what the controller orders: to wait as long as it
/// says, or to end with the failure it names; a caller that left gets no failure, and
/// a repair, which this sequence does not make, ends as an invalid reply.
pub proof fn law_orders_are_followed<O>(
    controller: AttemptController,
    observation: FailureObservation,
    step: AttemptStep<O>,
    invalid: ProviderFailure,
)
    requires
        controller.wf(),
        controller@.phase is InFlight,
        call_ensures(ApiKeyAttemptSequence::after_reply::<O>, (controller, Err(observation)), step),
        call_ensures(
            ProviderFailure::from_observation,
            (
                &controller@.context,
                &FailureObservation::Protocol(ProtocolKind::InvalidResponse),
                false,
            ),
            invalid,
        ),
    ensures
        controller@.observed(observation) matches Ok((next, directive)) && match directive {
            AttemptDirective::RetryAfter(delay) => step matches AttemptStep::WaitThenPost {
                delay_ms,
                controller: waiting,
            } && delay_ms == delay && waiting@ == next && waiting@.delays_ms
                == controller@.delays_ms.push(delay),
            AttemptDirective::Fail(failure) => step matches AttemptStep::Done(
                OpenResult::Failed(attempt),
            ) && attempt.failure == Some(failure) && only_moved_to(
                attempt.controller@,
                controller@,
                AttemptPhase::TerminalPending(AttemptOutcome::Failed),
            ),
            AttemptDirective::Cancel => observation is Cancelled && (
            step matches AttemptStep::Done(OpenResult::Cancelled(attempt)) && attempt.failure is None
                && only_moved_to(
                attempt.controller@,
                controller@,
                AttemptPhase::TerminalPending(AttemptOutcome::Cancelled),
            )),
            AttemptDirective::RepairOnce(_) => step matches AttemptStep::Done(
                OpenResult::Failed(attempt),
            ) && attempt.failure == Some(invalid) && attempt.controller@.phase
                == AttemptPhase::TerminalPending(AttemptOutcome::Failed) && attempt.controller@.posts
                == controller@.posts,
        },
{
}

/// A request that the caller leaves ends as cancelled, with no failure to tell, and
/// with what was spent on it.
pub proof fn law_an_abandoned_request_is_cancelled<O>(
    controller: AttemptController,
    result: OpenResult<O>,
)
    requires
        controller.wf(),
        !(controller@.phase is TerminalPending),
        !(controller@.phase is Finalized),
        call_ensures(ApiKeyAttemptSequence::abandon::<O>, (controller,), result),
    ensures
        result matches OpenResult::Cancelled(attempt) && attempt.failure is None && only_moved_to(
            attempt.controller@,
            controller@,
            AttemptPhase::TerminalPending(AttemptOutcome::Cancelled),
        ),
{
}

/// A reply that breaks off once it is open is a failure that is not retried.
pub proof fn law_a_broken_reply_fails<O>(
    attempt: OpenedAttempt<O>,
    observation: FailureObservation,
    ended: TerminalAttempt,
    failure: ProviderFailure,
)
    requires
        attempt.controller@.wf(),
        attempt.controller@.phase is UpstreamOpen,
        !(observation is Cancelled),
        call_ensures(OpenedAttempt::<O>::fail_after_open, (attempt, observation), ended),
        call_ensures(
            ProviderFailure::from_observation,
            (&attempt.controller@.context, &observation, false),
            failure,
        ),
    ensures
        ended.failure == Some(failure),
        !failure.retryable,
        only_moved_to(
            ended.controller@,
            attempt.controller@,
            AttemptPhase::TerminalPending(AttemptOutcome::Failed),
        ),
{
}

/// The record of a request says where it went and what was spent on it.
pub open spec fn tells_the_request(
    diagnostic: AttemptDiagnostic,
    outcome: AttemptOutcome,
    state: AttemptState,
) -> bool {
    &&& diagnostic.outcome == outcome
    &&& diagnostic.provider == state.context.provider
    &&& diagnostic.route == state.context.route
    &&& diagnostic.correlation_id == state.context.correlation_id
    &&& diagnostic.posts == state.posts
    &&& diagnostic.repairs == state.repairs
    &&& diagnostic.delays_ms@ == state.delays_ms
}

/// The record speaks of no failure.
pub open spec fn tells_nothing_failed(diagnostic: AttemptDiagnostic) -> bool {
    &&& diagnostic.mapped_status is None
    &&& diagnostic.upstream_status is None
    &&& diagnostic.failure_class is None
    &&& diagnostic.retryable is None
}

/// The record says what the caller was told of the failure.
pub open spec fn tells_what_failed(diagnostic: AttemptDiagnostic, failure: ProviderFailure) -> bool {
    &&& diagnostic.mapped_status == Some(failure.status)
    &&& diagnostic.upstream_status == failure.upstream_status
    &&& diagnostic.failure_class == Some(failure.failure_class)
    &&& diagnostic.retryable == Some(failure.retryable)
}

/// A request is recorded as completed once, while its reply is open.
pub proof fn law_record_of_a_completed_request(
    controller: &mut AttemptController,
    result: Result<AttemptDiagnostic, TransitionError>,
)
    requires
        old(controller).wf(),
        call_ensures(AttemptController::completed_diagnostic, (controller,), result),
    ensures
        result is Ok <==> old(controller)@.phase is UpstreamOpen,
        result matches Ok(diagnostic) ==> tells_the_request(
            diagnostic,
            AttemptOutcome::Completed,
            old(controller)@,
        ) && tells_nothing_failed(diagnostic) && only_moved_to(
            final(controller)@,
            old(controller)@,
            AttemptPhase::Finalized(AttemptOutcome::Completed),
        ),
        result matches Err(error) ==> error is FinalizationNotAuthorized && final(controller)@
            == old(controller)@,
{
}

/// A request is recorded as cancelled once, while its reply is open or after it ended
/// otherwise than whole.
pub proof fn law_record_of_a_cancelled_request(
    controller: &mut AttemptController,
    result: Result<AttemptDiagnostic, TransitionError>,
)
    requires
        old(controller).wf(),
        call_ensures(AttemptController::cancelled_diagnostic, (controller,), result),
    ensures
        result is Ok <==> match old(controller)@.phase {
            AttemptPhase::UpstreamOpen => true,
            AttemptPhase::TerminalPending(outcome) => !(outcome is Completed),
            _ => false,
        },
        result matches Ok(diagnostic) ==> tells_the_request(
            diagnostic,
            AttemptOutcome::Cancelled,
            old(controller)@,
        ) && tells_nothing_failed(diagnostic) && only_moved_to(
            final(controller)@,
            old(controller)@,
            AttemptPhase::Finalized(AttemptOutcome::Cancelled),
        ),
        result matches Err(error) ==> error is FinalizationNotAuthorized && final(controller)@
            == old(controller)@,
{
}

/// A request is recorded as failed once, after it failed, with what the caller is
/// told.
pub proof fn law_record_of_a_failed_request(
    controller: &mut AttemptController,
    failure: &ProviderFailure,
    result: Result<AttemptDiagnostic, TransitionError>,
)
    requires
        old(controller).wf(),
        call_ensures(AttemptController::failed_diagnostic, (controller, failure), result),
    ensures
        result is Ok <==> old(controller)@.phase == AttemptPhase::TerminalPending(
            AttemptOutcome::Failed,
        ),
        result matches Ok(diagnostic) ==> tells_the_request(
            diagnostic,
            AttemptOutcome::Failed,
            old(controller)@,
        ) && tells_what_failed(diagnostic, *failure) && only_moved_to(
            final(controller)@,
            old(controller)@,
            AttemptPhase::Finalized(AttemptOutcome::Failed),
        ),
        result matches Err(error) ==> error is FinalizationNotAuthorized && final(controller)@
            == old(controller)@,
{
}

/// A failure inside the gateway ends every request that is not over.
pub proof fn law_an_internal_failure_ends_the_request(
    controller: &mut AttemptController,
    result: Result<(), TransitionError>,
)
    requires
        old(controller).wf(),
        call_ensures(AttemptController::internal_terminal_failure, (controller,), result),
    ensures
        result is Ok <==> !(old(controller)@.phase is TerminalPending) && !(
        old(controller)@.phase is Finalized),
        result is Ok ==> only_moved_to(
            final(controller)@,
            old(controller)@,
            AttemptPhase::TerminalPending(AttemptOutcome::Failed),
        ),
        result matches Err(error) ==> error is ObservationNotAuthorized && final(controller)@
            == old(controller)@,
{
}

/// The records of an open reply are those of its controller, and the reply stays.
pub proof fn law_records_of_an_open_reply<O>(
    completed: &mut OpenedAttempt<O>,
    completion: Result<AttemptDiagnostic, TransitionError>,
    cancelled: &mut OpenedAttempt<O>,
    cancellation: Result<AttemptDiagnostic, TransitionError>,
)
    requires
        old(completed).controller@.wf(),
        old(completed).controller@.phase is UpstreamOpen,
        call_ensures(OpenedAttempt::<O>::completed_diagnostic, (completed,), completion),
        old(cancelled).controller@.wf(),
        old(cancelled).controller@.phase is UpstreamOpen,
        call_ensures(OpenedAttempt::<O>::cancelled_diagnostic, (cancelled,), cancellation),
    ensures
        final(completed).opened == old(completed).opened,
        completion matches Ok(diagnostic) && tells_the_request(
            diagnostic,
            AttemptOutcome::Completed,
            old(completed).controller@,
        ) && tells_nothing_failed(diagnostic),
        final(completed).controller@.phase == AttemptPhase::Finalized(AttemptOutcome::Completed),
        final(cancelled).opened == old(cancelled).opened,
        cancellation matches Ok(diagnostic) && tells_the_request(
            diagnostic,
            AttemptOutcome::Cancelled,
            old(cancelled).controller@,
        ) && tells_nothing_failed(diagnostic),
        final(cancelled).controller@.phase == AttemptPhase::Finalized(AttemptOutcome::Cancelled),
{
}

/// The record of a request that failed tells its failure; that of one which the
/// caller left tells none. Both are had once.
pub proof fn law_records_of_an_ended_request(
    failed: &mut TerminalAttempt,
    failure: Result<AttemptDiagnostic, TransitionError>,
    cancelled: &mut TerminalAttempt,
    cancellation: Result<AttemptDiagnostic, TransitionError>,
)
    requires
        old(failed).controller@.wf(),
        old(failed).failure is Some,
        call_ensures(TerminalAttempt::failed_diagnostic, (failed,), failure),
        old(cancelled).controller@.wf(),
        call_ensures(TerminalAttempt::cancelled_diagnostic, (cancelled,), cancellation),
    ensures
        final(failed).failure == old(failed).failure,
        failure is Ok <==> old(failed).controller@.phase == AttemptPhase::TerminalPending(
            AttemptOutcome::Failed,
        ),
        failure matches Ok(diagnostic) ==> tells_the_request(
            diagnostic,
            AttemptOutcome::Failed,
            old(failed).controller@,
        ) && tells_what_failed(diagnostic, old(failed).failure->0)
            && final(failed).controller@.phase == AttemptPhase::Finalized(AttemptOutcome::Failed),
        failure is Err ==> final(failed).controller@ == old(failed).controller@,
        old(cancelled).controller@.phase == AttemptPhase::TerminalPending(AttemptOutcome::Cancelled)
            ==> (cancellation matches Ok(diagnostic) && tells_the_request(
            diagnostic,
            AttemptOutcome::Cancelled,
            old(cancelled).controller@,
        ) && tells_nothing_failed(diagnostic)),
        cancellation is Ok ==> final(cancelled).controller@.phase == AttemptPhase::Finalized(
            AttemptOutcome::Cancelled,
        ),
        old(cancelled).controller@.phase is Finalized ==> cancellation is Err,
        final(cancelled).failure == old(cancelled).failure,
{
}

/// A snapshot tells what was spent, whoever is asked for it.
pub proof fn law_snapshots_tell_what_was_spent<O>(
    controller: &AttemptController,
    snapshot: AttemptSnapshot,
    opened: &OpenedAttempt<O>,
    opened_snapshot: AttemptSnapshot,
    ended: &TerminalAttempt,
    ended_snapshot: AttemptSnapshot,
)
    requires
        call_ensures(AttemptController::snapshot, (controller,), snapshot),
        opened.controller == *controller,
        call_ensures(OpenedAttempt::<O>::snapshot, (opened,), opened_snapshot),
        ended.controller == *controller,
        call_ensures(TerminalAttempt::snapshot, (ended,), ended_snapshot),
    ensures
        snapshot.posts == controller@.posts,
        snapshot.repairs == controller@.repairs,
        snapshot.delays_ms@ == controller@.delays_ms,
        snapshot.response_started == controller@.response_started,
        opened_snapshot.posts == snapshot.posts,
        opened_snapshot.repairs == snapshot.repairs,
        opened_snapshot.delays_ms@ == snapshot.delays_ms@,
        opened_snapshot.response_started == snapshot.response_started,
        ended_snapshot.posts == snapshot.posts,
        ended_snapshot.repairs == snapshot.repairs,
        ended_snapshot.delays_ms@ == snapshot.delays_ms@,
        ended_snapshot.response_started == snapshot.response_started,
{
}

/// A new request has spent nothing, may be posted, and knows where it goes.
pub proof fn law_a_new_request_has_spent_nothing(
    context: RouteContext,
    repair_enabled: bool,
    controller: AttemptController,
    known: &RouteContext,
)
    requires
        context.retry_policy.wf(),
        call_ensures(AttemptController::new, (context, repair_enabled), controller),
        call_ensures(AttemptController::context, (&controller,), known),
    ensures
        controller@.phase is Ready,
        controller@.posts == 0,
        controller@.repairs == 0,
        controller@.delays_ms.len() == 0,
        !controller@.response_started,
        controller@.repair_enabled == repair_enabled,
        *known == context,
{
}

/// A transport keeps its configuration and its mode, and shows a developer only the
/// provider and the mode.
pub proof fn law_what_a_transport_shows(
    cfg: &GatewayConfig,
    mode: AttemptMode,
    transport: ApiKeyPostOnceTransport,
    text: String,
)
    requires
        call_ensures(ApiKeyPostOnceTransport::new, (cfg, mode), transport),
        call_ensures(ApiKeyPostOnceTransport::debug_text, (&transport,), text),
    ensures
        *transport.cfg == *cfg,
        transport.attempt_mode == mode,
        mode is Nonstream ==> text@ == "ApiKeyPostOnceTransport { provider: "@ + quoted_text(
            cfg.provider@,
        ) + ", attempt_mode: "@ + "Nonstream"@ + " }"@,
        mode is Stream ==> text@ == "ApiKeyPostOnceTransport { provider: "@ + quoted_text(
            cfg.provider@,
        ) + ", attempt_mode: "@ + "Stream"@ + " }"@,
{
}

/// Every policy that is shipped posts three times, half a second and one second apart,
/// and waits a minute at most where it is asked to.
pub open spec fn is_the_common_policy(policy: RetryPolicy) -> bool {
    &&& policy.max_posts == 3
    &&& policy.fallback_delays_ms@[0] == 500
    &&& policy.fallback_delays_ms@[1] == 1_000
    &&& policy.retry_after_cap_seconds == 60
    &&& policy.retry_408
    &&& policy.retry_429
    &&& policy.retry_5xx
    &&& policy.retry_connect
    &&& policy.retry_timeout
}

proof fn lemma_common_policy(policy: RetryPolicy, conflict: bool, unknown: bool)
    requires
        policy.shipped(conflict, unknown),
    ensures
        is_the_common_policy(policy),
        policy.retry_409 == conflict,
        policy.retry_unknown_429 == unknown,
{
    assert(policy.fallback_delays_ms@ == seq![500u64, 1_000u64]);
    assert(policy.fallback_delays_ms@[0] == 500);
    assert(policy.fallback_delays_ms@[1] == 1_000);
}

/// The shipped policies differ in two things: a conflict is not retried on Anthropic
/// messages, and a 429 that names no reason is not retried by Codex.
pub proof fn law_shipped_policies(
    codex: RetryPolicy,
    anthropic: RetryPolicy,
    chat: RetryPolicy,
    responses: RetryPolicy,
)
    requires
        call_ensures(RetryPolicy::codex, (), codex),
        call_ensures(RetryPolicy::anthropic_messages, (), anthropic),
        call_ensures(RetryPolicy::openai_chat, (), chat),
        call_ensures(RetryPolicy::openai_responses, (), responses),
    ensures
        is_the_common_policy(codex) && codex.retry_409 && !codex.retry_unknown_429,
        is_the_common_policy(anthropic) && !anthropic.retry_409 && anthropic.retry_unknown_429,
        is_the_common_policy(chat) && chat.retry_409 && chat.retry_unknown_429,
        is_the_common_policy(responses) && responses.retry_409 && responses.retry_unknown_429,
{
    lemma_common_policy(codex, true, false);
    lemma_common_policy(anthropic, false, true);
    lemma_common_policy(chat, true, true);
    lemma_common_policy(responses, true, true);
}

/// What a policy lets be sent again, status by status and fault by fault.
pub proof fn law_what_a_policy_allows(
    policy: &RetryPolicy,
    observation: &FailureObservation,
    allowed: bool,
)
    requires
        call_ensures(RetryPolicy::allows, (policy, observation), allowed),
    ensures
        match *observation {
            FailureObservation::Http { status, rate_kind, .. } => {
                &&& status == 408 ==> allowed == policy.retry_408
                &&& status == 409 ==> allowed == policy.retry_409
                &&& status == 429 && rate_kind is Some ==> allowed == policy.retry_429
                &&& status == 429 && rate_kind is None ==> allowed == (policy.retry_429
                    && policy.retry_unknown_429)
                &&& 500 <= status <= 599 ==> allowed == policy.retry_5xx
                &&& (status < 500 || status > 599) && status != 408 && status != 409 && status
                    != 429 ==> !allowed
            },
            FailureObservation::Network(NetworkKind::Connect) => allowed == policy.retry_connect,
            FailureObservation::Network(NetworkKind::Timeout) => allowed == policy.retry_timeout,
            FailureObservation::Network(NetworkKind::Read) => allowed == (is_the_common_policy(
                *policy,
            ) && policy.retry_409 && !policy.retry_unknown_429),
            _ => !allowed,
        },
{
    let delays = policy.fallback_delays_ms@;
    if delays[0] == 500 && delays[1] == 1_000 {
        assert(delays =~= seq![500u64, 1_000u64]);
    }
    if delays == seq![500u64, 1_000u64] {
        assert(delays[0] == 500);
        assert(delays[1] == 1_000);
    }
}

/// A context keeps what it is made of; that of Codex has the policy of Codex.
pub proof fn law_contexts_keep_their_parts(
    route: RouteMode,
    id: CorrelationId,
    codex: RouteContext,
    provider: ProviderId,
    policy: RetryPolicy,
    api_key: RouteContext,
)
    requires
        call_ensures(RouteContext::codex, (route, id), codex),
        call_ensures(RouteContext::api_key, (provider, route, id, policy), api_key),
    ensures
        codex.provider is Codex,
        codex.route == route,
        codex.correlation_id == id,
        is_the_common_policy(codex.retry_policy),
        codex.retry_policy.retry_409,
        !codex.retry_policy.retry_unknown_429,
        api_key.provider == provider,
        api_key.route == route,
        api_key.correlation_id == id,
        api_key.retry_policy == policy,
{
    lemma_common_policy(codex.retry_policy, true, false);
}

/// The names under which a class of failures and an outcome are shown.
pub proof fn law_names_of_failures(
    class: FailureClass,
    title: &'static str,
    name: &'static str,
    outcome: AttemptOutcome,
    outcome_name: &'static str,
)
    requires
        call_ensures(FailureClass::as_title, (class,), title),
        call_ensures(FailureClass::as_str, (&class,), name),
        call_ensures(AttemptOutcome::as_str, (&outcome,), outcome_name),
    ensures
        class is Authentication ==> title@ == "Authentication"@ && name@ == "authentication"@,
        class is Authorization ==> title@ == "Authorization"@ && name@ == "authorization"@,
        class is InvalidRequest ==> title@ == "InvalidRequest"@ && name@ == "invalid_request"@,
        class is Capability ==> title@ == "Capability"@ && name@ == "capability"@,
        class is Quota ==> title@ == "Quota"@ && name@ == "quota"@,
        class is RateLimit ==> title@ == "RateLimit"@ && name@ == "rate_limit"@,
        class is Transient ==> title@ == "Transient"@ && name@ == "transient"@,
        class is Network ==> title@ == "Network"@ && name@ == "network"@,
        class is Protocol ==> title@ == "Protocol"@ && name@ == "protocol"@,
        outcome is Completed ==> outcome_name@ == "completed"@,
        outcome is Failed ==> outcome_name@ == "failed"@,
        outcome is Cancelled ==> outcome_name@ == "cancelled"@,
{
}

/// A character that an identifier may hold.
pub open spec fn may_stand_in_an_id(c: char) -> bool {
    '0' <= c <= '9' || 'A' <= c <= 'Z' || 'a' <= c <= 'z' || c == '-' || c == '_' || c == '.' || c
        == ':'
}

/// An identifier is taken as it is if it has 1 to 256 characters, each a letter or a
/// digit of ASCII, a hyphen, an underscore, a dot or a colon; nothing else is one.
pub proof fn law_identifiers(
    text: &str,
    valid: bool,
    request: Option<RequestId>,
    correlation: Option<CorrelationId>,
)
    requires
        call_ensures(RequestId::is_valid, (text,), valid),
        call_ensures(RequestId::new, (text,), request),
        call_ensures(CorrelationId::new, (text,), correlation),
    ensures
        valid == (1 <= text@.len() <= 256 && forall|i: int|
            0 <= i < text@.len() ==> may_stand_in_an_id(#[trigger] text@[i])),
        (request is Some) == valid,
        (correlation is Some) == valid,
        request matches Some(id) ==> id@ == text@,
        correlation matches Some(id) ==> id@ == text@,
{
    let fits = 1 <= text@.len() <= 256 && forall|i: int|
        0 <= i < text@.len() ==> may_stand_in_an_id(#[trigger] text@[i]);
    if valid {
        assert forall|i: int| 0 <= i < text@.len() implies may_stand_in_an_id(
            #[trigger] text@[i],
        ) by {
            assert(crate::provider_failure::is_id_byte(text@[i] as u8));
        }
    }
    if fits {
        assert forall|i: int| 0 <= i < text@.len() implies (#[trigger] text@[i] as nat) < 128
            && crate::provider_failure::is_id_byte(text@[i] as u8) by {
            assert(may_stand_in_an_id(text@[i]));
        }
    }
}

/// The reply to the caller is an object of two members: its type is `error`, and its
/// error is what the failure says.
pub proof fn law_reply_to_the_caller(failure: &ProviderFailure, body: JsonValue)
    requires
        call_ensures(ProviderFailure::anthropic_json, (failure,), body),
    ensures
        body@ matches JsonTree::Object(members) && {
            &&& members.len() == 2
            &&& members[0] == ("type"@, JsonTree::Text("error"@))
            &&& members[1].0 == "error"@
            &&& members[1].1 matches JsonTree::Object(fields) && {
                &&& fields.len() >= 8
                &&& fields[0] == ("type"@, JsonTree::Text(failure.error_type@))
                &&& fields[1] == ("message"@, JsonTree::Text(failure.message@))
                &&& fields[2] == ("provider"@, JsonTree::Text(failure.context.provider.name()))
                &&& fields[3] == ("route"@, JsonTree::Text(failure.context.route.name()))
                &&& fields[4] == ("failure_class"@, JsonTree::Text(failure.failure_class.name()))
                &&& fields[5] == ("retryable"@, JsonTree::Bool(failure.retryable))
                &&& fields[6] == (
                    "correlation_id"@,
                    JsonTree::Text(failure.context.correlation_id@),
                )
                &&& fields[7] == ("recovery"@, JsonTree::Text(failure.recovery@))
            }
        },
{
}

/// The first members of the written record, in their order.
pub open spec fn begins_the_record(
    fields: Seq<(Seq<char>, JsonTree)>,
    diagnostic: AttemptDiagnostic,
) -> bool {
    &&& fields.len() >= 7
    &&& fields[0] == ("outcome"@, JsonTree::Text(diagnostic.outcome.name()))
    &&& fields[1] == ("provider"@, JsonTree::Text(diagnostic.provider.name()))
    &&& fields[2] == ("route"@, JsonTree::Text(diagnostic.route.name()))
    &&& fields[3] == ("correlation_id"@, JsonTree::Text(diagnostic.correlation_id@))
    &&& fields[4] == ("posts"@, JsonTree::Number(diagnostic.posts as u64))
    &&& fields[5] == ("repairs"@, JsonTree::Number(diagnostic.repairs as u64))
    &&& fields[6].0 == "delays_ms"@
    &&& fields[6].1 matches JsonTree::List(delays) && delays.len() == diagnostic.delays_ms@.len()
        && forall|i: int|
        0 <= i < delays.len() ==> #[trigger] delays[i] == JsonTree::Number(
            diagnostic.delays_ms@[i],
        )
}

/// The written record of a request without a failure has the first seven members
/// alone; that of a failed one has the failure's own members behind them.
pub proof fn law_the_written_record(diagnostic: &AttemptDiagnostic, json: JsonValue)
    requires
        call_ensures(AttemptDiagnostic::to_json, (diagnostic,), json),
    ensures
        json@ matches JsonTree::Object(fields) && {
            &&& begins_the_record(fields, *diagnostic)
            &&& tells_nothing_failed(*diagnostic) ==> fields.len() == 7
            &&& (diagnostic.mapped_status matches Some(status) ==> fields.contains(
                ("mapped_status"@, JsonTree::Number(status as u64)),
            ))
            &&& (diagnostic.upstream_status matches Some(status) ==> fields.contains(
                ("upstream_status"@, JsonTree::Number(status as u64)),
            ))
            &&& (diagnostic.failure_class matches Some(class) ==> fields.contains(
                ("failure_class"@, JsonTree::Text(class.name())),
            ))
            &&& (diagnostic.retryable matches Some(retryable) ==> fields.contains(
                ("retryable"@, JsonTree::Bool(retryable)),
            ))
        },
{
    let fields = diagnostic.fields();
    let a: int = if diagnostic.mapped_status is Some {
        8
    } else {
        7
    };
    let b: int = if diagnostic.upstream_status is Some {
        a + 1
    } else {
        a
    };
    let c: int = if diagnostic.failure_class is Some {
        b + 1
    } else {
        b
    };
    if diagnostic.mapped_status is Some {
        assert(fields[7] == (
            "mapped_status"@,
            JsonTree::Number(diagnostic.mapped_status->0 as u64),
        ));
    }
    if diagnostic.upstream_status is Some {
        assert(fields[a] == (
            "upstream_status"@,
            JsonTree::Number(diagnostic.upstream_status->0 as u64),
        ));
    }
    if diagnostic.failure_class is Some {
        assert(fields[b] == (
            "failure_class"@,
            JsonTree::Text(diagnostic.failure_class->0.name()),
        ));
    }
    if diagnostic.retryable is Some {
        assert(fields[c] == ("retryable"@, JsonTree::Bool(diagnostic.retryable->0)));
    }
}

/// A failed request's record is made of its context, what was spent and the failure.
pub proof fn law_a_failed_record_is_made_of_its_parts(
    context: &RouteContext,
    posts: u8,
    repairs: u8,
    delays: Vec<u64>,
    failure: &ProviderFailure,
    diagnostic: AttemptDiagnostic,
)
    requires
        call_ensures(
            AttemptDiagnostic::failed,
            (context, posts, repairs, delays, failure),
            diagnostic,
        ),
    ensures
        diagnostic.outcome is Failed,
        diagnostic.provider == context.provider,
        diagnostic.route == context.route,
        diagnostic.correlation_id == context.correlation_id,
        diagnostic.posts == posts,
        diagnostic.repairs == repairs,
        diagnostic.delays_ms@ == delays@,
        tells_what_failed(diagnostic, *failure),
{
}

/// What may be logged of a failure: its status, type, class, the provider's status,
/// whether it is worth a retry, and the correlation id.
pub proof fn law_what_is_shown_of_a_failure(
    failure: &ProviderFailure,
    text: String,
    title: &'static str,
    status: u16,
    class: FailureClass,
    retryable: bool,
)
    requires
        call_ensures(ProviderFailure::debug_text, (failure,), text),
        call_ensures(FailureClass::as_title, (failure.failure_class,), title),
        call_ensures(ProviderFailure::status, (failure,), status),
        call_ensures(ProviderFailure::failure_class, (failure,), class),
        call_ensures(ProviderFailure::retryable, (failure,), retryable),
    ensures
        status == failure.status,
        class == failure.failure_class,
        retryable == failure.retryable,
        text@ == "ProviderFailure { status: "@ + decimal(status as nat) + ", error_type: "@
            + quoted_text(failure.error_type@) + ", failure_class: "@ + title@
            + ", upstream_status: "@ + (match failure.upstream_status {
            Some(upstream) => "Some("@ + decimal(upstream as nat) + ")"@,
            None => "None"@,
        }) + ", retryable: "@ + (if retryable {
            "true"@
        } else {
            "false"@
        }) + ", correlation_id: "@ + quoted_text(failure.context.correlation_id@) + " }"@,
{
}


/// A request is posted while it is new, after a wait or after a repair, as long as it
/// has a post left; each post is counted, and nothing else is changed by it.
pub proof fn law_a_post_is_counted(
    controller: &mut AttemptController,
    result: Result<(), TransitionError>,
)
    requires
        old(controller).wf(),
        call_ensures(AttemptController::begin_post, (controller,), result),
    ensures
        ({
            let before = old(controller)@;
            let after = final(controller)@;
            let limit: int = if before.repairs == 0 {
                before.context.retry_policy.max_posts as int
            } else {
                2
            };
            &&& result is Ok <==> before.posts < limit && (before.phase is Ready
                || before.phase is RetryAuthorized || before.phase is RepairAuthorized)
            &&& result is Ok ==> after.posts == before.posts + 1 && after.phase is InFlight
                && after.repairs == before.repairs && after.delays_ms == before.delays_ms
                && after.context == before.context
            &&& result matches Err(error) ==> error is PostNotAuthorized && after == before
        }),
{
}

/// A reply begins once, to the request in flight.
pub proof fn law_a_reply_begins_once(
    controller: &mut AttemptController,
    result: Result<(), TransitionError>,
)
    requires
        old(controller).wf(),
        call_ensures(AttemptController::mark_response_started, (controller,), result),
    ensures
        ({
            let before = old(controller)@;
            let after = final(controller)@;
            &&& result is Ok <==> before.phase is InFlight
            &&& result is Ok ==> after.response_started && after.phase is UpstreamOpen
                && after.posts == before.posts && after.repairs == before.repairs
                && after.delays_ms == before.delays_ms && after.context == before.context
            &&& result matches Err(error) ==> error is ResponseAlreadyStarted && after == before
        }),
{
}

/// A request that may be sent again is sent again after the time that the provider asked
/// for, up to the policy's limit, and otherwise after the policy's own time; the wait is
/// counted.
pub proof fn law_a_request_is_sent_again(
    controller: &mut AttemptController,
    observation: FailureObservation,
    allowed: bool,
    result: Result<AttemptDirective, TransitionError>,
)
    requires
        old(controller).wf(),
        old(controller)@.phase is InFlight,
        old(controller)@.repairs == 0,
        old(controller)@.posts < old(controller)@.context.retry_policy.max_posts,
        call_ensures(
            RetryPolicy::allows,
            (&old(controller)@.context.retry_policy, &observation),
            allowed,
        ),
        allowed,
        !(observation matches FailureObservation::Http { status, rate_kind, .. } && status == 429
            && rate_kind == Some(RateKind::Quota)),
        call_ensures(AttemptController::observe, (controller, observation), result),
    ensures
        ({
            let before = old(controller)@;
            let after = final(controller)@;
            let policy = before.context.retry_policy;
            &&& result matches Ok(AttemptDirective::RetryAfter(delay)) && {
                &&& after.delays_ms == before.delays_ms.push(delay)
                &&& match observation {
                    FailureObservation::Http { retry_after_seconds: Some(seconds), .. } => {
                        &&& seconds <= policy.retry_after_cap_seconds ==> delay == seconds * 1_000
                        &&& seconds > policy.retry_after_cap_seconds ==> delay
                            == policy.retry_after_cap_seconds * 1_000
                    },
                    _ => delay == policy.fallback_delays_ms@[before.posts - 1],
                }
            }
            &&& after.phase is RetryAuthorized
            &&& after.posts == before.posts
            &&& after.repairs == 0
            &&& after.context == before.context
            &&& !after.response_started
        }),
{
    let policy = old(controller)@.context.retry_policy;
    if let FailureObservation::Http { retry_after_seconds: Some(seconds), .. } = observation {
        let capped = if seconds < policy.retry_after_cap_seconds {
            seconds
        } else {
            policy.retry_after_cap_seconds
        };
        assert(capped * 1_000 <= u64::MAX);
    }
}

/// A request that may not be sent again fails, with what the caller is told of it; it is
/// told to be worth a retry only where the policy would have allowed one.
pub proof fn law_a_request_is_given_up(
    controller: &mut AttemptController,
    observation: FailureObservation,
    allowed: bool,
    result: Result<AttemptDirective, TransitionError>,
    failure: ProviderFailure,
)
    requires
        old(controller).wf(),
        old(controller)@.phase is InFlight,
        !(observation is Cancelled),
        !old(controller)@.repair_enabled,
        call_ensures(
            RetryPolicy::allows,
            (&old(controller)@.context.retry_policy, &observation),
            allowed,
        ),
        ({
            let quota = observation matches FailureObservation::Http { status, rate_kind, .. }
                && status == 429 && rate_kind == Some(RateKind::Quota);
            &&& !allowed || quota || old(controller)@.repairs > 0 || old(controller)@.posts
                >= old(controller)@.context.retry_policy.max_posts
            &&& call_ensures(
                ProviderFailure::from_observation,
                (&old(controller)@.context, &observation, allowed && !quota),
                failure,
            )
        }),
        call_ensures(AttemptController::observe, (controller, observation), result),
    ensures
        result == Ok::<AttemptDirective, TransitionError>(AttemptDirective::Fail(failure)),
        only_moved_to(
            final(controller)@,
            old(controller)@,
            AttemptPhase::TerminalPending(AttemptOutcome::Failed),
        ),
{
}

/// The text of an identifier is the identifier.
pub proof fn law_identifiers_read_as_they_are(
    request: &RequestId,
    request_text: &str,
    correlation: &CorrelationId,
    correlation_text: &str,
)
    requires
        call_ensures(RequestId::as_str, (request,), request_text),
        call_ensures(CorrelationId::as_str, (correlation,), correlation_text),
    ensures
        request_text@ == request@,
        correlation_text@ == correlation@,
{
}
} // verus!
