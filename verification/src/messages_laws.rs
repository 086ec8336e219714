//! What holds of every request to a provider with an API key, and of every reply.

use vstd::prelude::*;

use crate::codex_transport::{parse_request_id, parse_retry_after};
use crate::config::GatewayConfig;
use crate::duration::Duration;
use crate::failure_json::{ErrorTokens, FailureBodyToken, FailureJsonScanner};
use crate::messages::{
    auth_headers, auth_scheme, bounded_redacted_error_body, enforces_total, get, get_once,
    header_views, inference_headers, inference_operation_timeout, inference_timeouts, into_stream,
    map_http_error, models_operation_timeout, models_timeout_secs, models_timeouts, open_stream,
    post_nonstream, post_once, project_api_failure_body, project_http_failure, remaining_time,
    send_failure, standalone_inference_timeouts, AttemptMode, BodyReadFailure, BodyReader,
    ByteEvent, FirstLine, GetStep, InferenceTimeouts, ModelsTimeouts, PostOutcome, ReadEvent,
    Refusal, Reply, StreamOutcome, UpstreamBody, UpstreamError, WholeOutcome,
};
use crate::provider_contracts::AuthScheme;
use crate::provider_failure::{
    ErrorCode, ErrorParam, FailureObservation, NetworkKind, ProtocolKind, RateKind, RequestId,
};
use crate::redaction::redact_error_body;
use crate::text::{decimal, lowered, trimmed};

verus! {

/// One of the headers has this name and exactly this value.
pub open spec fn carries(
    headers: Seq<(&'static str, String)>,
    name: Seq<char>,
    value: Seq<char>,
) -> bool {
    exists|i: int| 0 <= i < headers.len() && (#[trigger] headers[i]).0@ == name && headers[i].1@
        == value
}

/// None of the headers has this name.
pub open spec fn lacks(headers: Seq<(&'static str, String)>, name: Seq<char>) -> bool {
    forall|i: int| 0 <= i < headers.len() ==> (#[trigger] headers[i]).0@ != name
}

/// `key` is the API key of a configuration, or nothing where it has none.
pub open spec fn is_key_of(key: Seq<char>, cfg: &GatewayConfig) -> bool {
    match cfg.api_key {
        Some(text) => key == text@,
        None => key.len() == 0,
    }
}

/// A contract names its scheme. Without one, the three adapters that speak the protocol
/// of OpenAI use a bearer token, a relay is given both forms, Codex neither, and every
/// other adapter the key alone.
pub proof fn law_scheme_of_an_adapter(cfg: &GatewayConfig, scheme: AuthScheme)
    requires
        call_ensures(auth_scheme, (cfg,), scheme),
    ensures
        cfg.provider_contract matches Some(contract) ==> scheme == contract.auth_scheme,
        cfg.provider_contract is None ==> {
            &&& cfg.provider@ == "qwen"@ ==> scheme == AuthScheme::Bearer
            &&& cfg.provider@ == "openai-custom"@ ==> scheme == AuthScheme::Bearer
            &&& cfg.provider@ == "openai-responses"@ ==> scheme == AuthScheme::Bearer
            &&& cfg.provider@ == "relay"@ ==> scheme == AuthScheme::AnthropicDual
            &&& cfg.provider@ == "codex"@ ==> scheme == AuthScheme::CsswitchOauth
            &&& cfg.provider@ != "qwen"@ && cfg.provider@ != "openai-custom"@ && cfg.provider@
                != "openai-responses"@ && cfg.provider@ != "relay"@ && cfg.provider@ != "codex"@
                ==> scheme == AuthScheme::AnthropicXApiKey
        },
{
    reveal_strlit("qwen");
    reveal_strlit("openai-custom");
    reveal_strlit("openai-responses");
    reveal_strlit("relay");
    reveal_strlit("codex");
    assert("relay"@[0] != "codex"@[0]);
}

/// Under every scheme but that of Codex the headers carry the API key: alone under
/// `x-api-key` for both Anthropic schemes, and behind `Bearer ` under `authorization`
/// for the bearer and the dual scheme. The Anthropic schemes name the version too, and
/// there is nothing else.
pub proof fn law_headers_carry_the_key(
    cfg: &GatewayConfig,
    scheme: AuthScheme,
    headers: Vec<(&'static str, String)>,
    key: Seq<char>,
)
    requires
        call_ensures(auth_scheme, (cfg,), scheme),
        call_ensures(auth_headers, (cfg,), headers),
        is_key_of(key, cfg),
    ensures
        scheme == AuthScheme::Bearer ==> headers@.len() == 1 && carries(
            headers@,
            "authorization"@,
            "Bearer "@ + key,
        ),
        scheme == AuthScheme::AnthropicXApiKey ==> headers@.len() == 2 && carries(
            headers@,
            "x-api-key"@,
            key,
        ) && carries(headers@, "anthropic-version"@, "2023-06-01"@),
        scheme == AuthScheme::AnthropicDual ==> headers@.len() == 3 && carries(
            headers@,
            "x-api-key"@,
            key,
        ) && carries(headers@, "authorization"@, "Bearer "@ + key) && carries(
            headers@,
            "anthropic-version"@,
            "2023-06-01"@,
        ),
        scheme == AuthScheme::CsswitchOauth ==> headers@.len() == 0,
{
    let views = header_views(headers@);
    assert(cfg.api_key is None ==> key =~= Seq::<char>::empty());
    assert(views.len() == headers@.len());
    if headers@.len() > 0 {
        assert(views[0] == (headers@[0].0@, headers@[0].1@));
    }
    if headers@.len() > 1 {
        assert(views[1] == (headers@[1].0@, headers@[1].1@));
    }
    if headers@.len() > 2 {
        assert(views[2] == (headers@[2].0@, headers@[2].1@));
    }
}

/// The headers by which a provider knows its customer come in this order.
pub proof fn law_order_of_auth_headers(
    cfg: &GatewayConfig,
    scheme: AuthScheme,
    headers: Vec<(&'static str, String)>,
)
    requires
        call_ensures(auth_scheme, (cfg,), scheme),
        call_ensures(auth_headers, (cfg,), headers),
    ensures
        scheme == AuthScheme::Bearer ==> headers@[0].0@ == "authorization"@,
        scheme == AuthScheme::AnthropicXApiKey || scheme == AuthScheme::AnthropicDual
            ==> headers@[0].0@ == "anthropic-version"@ && headers@[1].0@ == "x-api-key"@,
        scheme == AuthScheme::AnthropicDual ==> headers@[2].0@ == "authorization"@,
{
    let views = header_views(headers@);
    assert(views.len() == headers@.len());
    if headers@.len() > 0 {
        assert(views[0] == (headers@[0].0@, headers@[0].1@));
    }
    if headers@.len() > 1 {
        assert(views[1] == (headers@[1].0@, headers@[1].1@));
    }
    if headers@.len() > 2 {
        assert(views[2] == (headers@[2].0@, headers@[2].1@));
    }
}

/// An inference request says that it brings JSON, names the gateway, and carries the
/// key as the scheme asks, with no other header.
pub proof fn law_inference_headers_carry_the_key(
    cfg: &GatewayConfig,
    user_agent: &str,
    scheme: AuthScheme,
    headers: Vec<(&'static str, String)>,
    key: Seq<char>,
)
    requires
        call_ensures(auth_scheme, (cfg,), scheme),
        call_ensures(inference_headers, (cfg, user_agent), headers),
        is_key_of(key, cfg),
    ensures
        headers@.len() >= 2,
        headers@[0].0@ == "content-type"@ && headers@[0].1@ == "application/json"@,
        headers@[1].0@ == "user-agent"@ && headers@[1].1@ == user_agent@,
        scheme == AuthScheme::Bearer ==> headers@.len() == 3 && carries(
            headers@,
            "authorization"@,
            "Bearer "@ + key,
        ),
        scheme == AuthScheme::AnthropicXApiKey ==> headers@.len() == 4 && carries(
            headers@,
            "x-api-key"@,
            key,
        ) && carries(headers@, "anthropic-version"@, "2023-06-01"@),
        scheme == AuthScheme::AnthropicDual ==> headers@.len() == 5 && carries(
            headers@,
            "x-api-key"@,
            key,
        ) && carries(headers@, "authorization"@, "Bearer "@ + key) && carries(
            headers@,
            "anthropic-version"@,
            "2023-06-01"@,
        ),
        scheme == AuthScheme::CsswitchOauth ==> headers@.len() == 2,
{
    let views = header_views(headers@);
    assert(cfg.api_key is None ==> key =~= Seq::<char>::empty());
    assert(views.len() == headers@.len());
    assert(views[0] == (headers@[0].0@, headers@[0].1@));
    assert(views[1] == (headers@[1].0@, headers@[1].1@));
    if headers@.len() > 2 {
        assert(views[2] == (headers@[2].0@, headers@[2].1@));
    }
    if headers@.len() > 3 {
        assert(views[3] == (headers@[3].0@, headers@[3].1@));
    }
    if headers@.len() > 4 {
        assert(views[4] == (headers@[4].0@, headers@[4].1@));
    }
}

/// A key that a provider is not to see is in no header: a bearer scheme names no
/// `x-api-key`, the plain Anthropic scheme no `authorization`, that of Codex neither.
pub proof fn law_headers_carry_no_more(
    cfg: &GatewayConfig,
    scheme: AuthScheme,
    headers: Vec<(&'static str, String)>,
)
    requires
        call_ensures(auth_scheme, (cfg,), scheme),
        call_ensures(auth_headers, (cfg,), headers),
    ensures
        scheme == AuthScheme::Bearer || scheme == AuthScheme::CsswitchOauth ==> lacks(
            headers@,
            "x-api-key"@,
        ),
        scheme == AuthScheme::AnthropicXApiKey || scheme == AuthScheme::CsswitchOauth ==> lacks(
            headers@,
            "authorization"@,
        ),
{
    reveal_strlit("x-api-key");
    reveal_strlit("authorization");
    reveal_strlit("anthropic-version");
    let views = header_views(headers@);
    assert forall|i: int| 0 <= i < headers@.len() implies (#[trigger] headers@[i]).0@
        == views[i].0 by {}
    assert("x-api-key"@.len() != "authorization"@.len());
    assert("anthropic-version"@.len() != "authorization"@.len());
    assert(views.len() == headers@.len());
}

/// A model list is waited for five minutes by the adapters that speak the protocol of
/// OpenAI and two by the others, unless a contract says otherwise.
pub proof fn law_model_lists_are_waited_for(
    cfg: &GatewayConfig,
    provider: &str,
    secs: u64,
    timeouts: ModelsTimeouts,
)
    requires
        call_ensures(models_timeout_secs, (provider,), secs),
        call_ensures(models_timeouts, (cfg,), timeouts),
    ensures
        provider@ == "qwen"@ || provider@ == "openai-custom"@ || provider@ == "openai-responses"@
            ==> secs == 300,
        provider@ != "qwen"@ && provider@ != "openai-custom"@ && provider@ != "openai-responses"@
            ==> secs == 120,
        cfg.provider_contract matches Some(contract) ==> {
            &&& timeouts.connect == contract.connect_timeout
            &&& timeouts.total == contract.request_timeout
            &&& timeouts.read_idle == contract.read_idle_timeout
        },
        cfg.provider_contract is None && provider@ == cfg.provider@ ==> {
            &&& timeouts.connect.millis == secs * 1000
            &&& timeouts.total.millis == secs * 1000
            &&& timeouts.read_idle.millis == secs * 1000
        },
{
}

/// An answer is waited for five minutes, unless a contract says otherwise.
pub proof fn law_answers_are_waited_for(
    cfg: &GatewayConfig,
    timeouts: InferenceTimeouts,
    standalone: InferenceTimeouts,
)
    requires
        call_ensures(inference_timeouts, (cfg,), timeouts),
        call_ensures(standalone_inference_timeouts, (), standalone),
    ensures
        standalone.connect.millis == 300_000 && standalone.total.millis == 300_000
            && standalone.read_idle.millis == 300_000,
        cfg.provider_contract matches Some(contract) ==> {
            &&& timeouts.connect == contract.connect_timeout
            &&& timeouts.total == contract.request_timeout
            &&& timeouts.read_idle == contract.read_idle_timeout
        },
        cfg.provider_contract is None ==> timeouts.connect.millis == 300_000
            && timeouts.total.millis == 300_000 && timeouts.read_idle.millis == 300_000,
{
}

/// An operation takes no longer than a read may be idle nor, but in a stream, than the
/// request may take, and as long as both allow. A reply that is read whole has a total
/// limit, a stream has none.
pub proof fn law_operations_keep_the_limits(
    timeouts: InferenceTimeouts,
    models: ModelsTimeouts,
    whole: Duration,
    stream: Duration,
    list: Duration,
    limited: bool,
    unlimited: bool,
)
    requires
        call_ensures(inference_operation_timeout, (timeouts, true), whole),
        call_ensures(inference_operation_timeout, (timeouts, false), stream),
        call_ensures(models_operation_timeout, (models,), list),
        call_ensures(enforces_total, (AttemptMode::Nonstream,), limited),
        call_ensures(enforces_total, (AttemptMode::Stream,), unlimited),
    ensures
        limited && !unlimited,
        stream == timeouts.read_idle,
        whole.millis <= timeouts.total.millis && whole.millis <= timeouts.read_idle.millis,
        whole == timeouts.total || whole == timeouts.read_idle,
        list.millis <= models.total.millis && list.millis <= models.read_idle.millis,
        list == models.total || list == models.read_idle,
{
}

/// The time that passed and the time that is left make up the total; when more has
/// passed, the deadline is over.
pub proof fn law_time_is_spent_once(
    total: Duration,
    elapsed: Duration,
    left: Result<Duration, BodyReadFailure>,
)
    requires
        call_ensures(remaining_time, (total, elapsed), left),
    ensures
        left matches Ok(left) ==> left.millis + elapsed.millis == total.millis,
        left is Err <==> elapsed.millis > total.millis,
        left matches Err(failure) ==> failure == BodyReadFailure::Deadline,
{
}

/// A body is what its chunks bring, one behind the other, up to the limit; a read that
/// fails or comes too late gives none.
pub proof fn law_bodies_are_read_in_order(
    reader: BodyReader,
    chunk: Vec<u8>,
    room: usize,
    n: usize,
    error: String,
    longer: Result<BodyReader, Result<Vec<u8>, BodyReadFailure>>,
    ended: Result<BodyReader, Result<Vec<u8>, BodyReadFailure>>,
    late: Result<BodyReader, Result<Vec<u8>, BodyReadFailure>>,
    failed: Result<BodyReader, Result<Vec<u8>, BodyReadFailure>>,
)
    requires
        call_ensures(BodyReader::capacity, (&reader, room), n),
        chunk@.len() <= n,
        call_ensures(BodyReader::on_read, (reader, ReadEvent::Chunk(chunk)), longer),
        call_ensures(BodyReader::on_read, (reader, ReadEvent::End), ended),
        call_ensures(BodyReader::on_read, (reader, ReadEvent::Cancelled), late),
        call_ensures(BodyReader::on_read, (reader, ReadEvent::Failed(error)), failed),
        reader.limit matches Some(limit) ==> reader.body@.len() <= limit,
    ensures
        reader.limit is None ==> n == room,
        reader.limit matches Some(limit) ==> n <= room && reader.body@.len() + n <= limit && (n
            == room || reader.body@.len() + n == limit),
        longer is Ok && longer->Ok_0.body@ == reader.body@ + chunk@ && longer->Ok_0.limit
            == reader.limit,
        ended matches Err(Ok(body)) && body@ == reader.body@,
        late matches Err(Err(BodyReadFailure::Deadline)),
        failed matches Err(Err(BodyReadFailure::Io(text))) && text@ == error@,
{
}

/// A reader starts with nothing.
pub proof fn law_a_body_starts_empty(limit: Option<u64>, reader: BodyReader)
    requires
        call_ensures(BodyReader::new, (limit,), reader),
    ensures
        reader.body@.len() == 0,
        reader.limit == limit,
{
}

/// What is shown of the body of a refusal is the redacted body, or why there is none.
pub proof fn law_refusals_are_shown_redacted(
    bytes: Vec<u8>,
    slice: &[u8],
    error: String,
    api_key: &str,
    shown: String,
    late: String,
    unread: String,
    redacted: String,
)
    requires
        call_ensures(
            bounded_redacted_error_body,
            (&Ok::<Vec<u8>, BodyReadFailure>(bytes), api_key),
            shown,
        ),
        call_ensures(
            bounded_redacted_error_body,
            (&Err::<Vec<u8>, BodyReadFailure>(BodyReadFailure::Deadline), api_key),
            late,
        ),
        call_ensures(
            bounded_redacted_error_body,
            (&Err::<Vec<u8>, BodyReadFailure>(BodyReadFailure::Io(error)), api_key),
            unread,
        ),
        slice@ == bytes@,
        call_ensures(redact_error_body, (slice, api_key), redacted),
    ensures
        shown@ == redacted@,
        late@ == "upstream error body exceeded the total timeout"@,
        unread@ == "upstream error body could not be read"@,
{
}

/// The status of a client or server error is passed on, any other becomes a bad
/// gateway; the provider's own status is told in any case, in the text with what is
/// shown of the body behind it.
pub proof fn law_refusals_are_passed_on(
    status: u16,
    body: &Result<Vec<u8>, BodyReadFailure>,
    api_key: &str,
    error: UpstreamError,
    shown: String,
)
    requires
        call_ensures(map_http_error, (status, body, api_key), error),
        call_ensures(bounded_redacted_error_body, (body, api_key), shown),
    ensures
        400 <= status <= 599 ==> error.status == status,
        status < 400 || status > 599 ==> error.status == 502,
        error.upstream_status == Some(status),
        shown@.len() == 0 ==> error.detail@ == "upstream "@ + decimal(status as nat),
        shown@.len() > 0 ==> error.detail@ == "upstream "@ + decimal(status as nat) + ": "@
            + shown@,
{
}

/// A quota named by type or code is a quota; else a rate limit named by either is one;
/// else there is neither. The code counts where there is one, and the type stands in
/// for it where there is none.
pub proof fn law_words_of_a_refusal(
    bytes: &[u8],
    read: Option<ErrorTokens>,
    facts: (Option<RateKind>, ErrorCode),
)
    requires
        call_ensures(FailureJsonScanner::project, (bytes, false), read),
        call_ensures(project_api_failure_body, (bytes,), facts),
    ensures
        bytes@.len() > 16384 || read is None ==> facts == (None::<RateKind>, ErrorCode::Absent),
        bytes@.len() <= 16384 ==> (read matches Some(tokens) ==> {
            let quota = tokens.kind == Some(FailureBodyToken::InsufficientQuota) || tokens.code
                == Some(FailureBodyToken::InsufficientQuota);
            let rate = tokens.kind == Some(FailureBodyToken::RateLimitError) || tokens.kind == Some(
                FailureBodyToken::RateLimitExceeded,
            ) || tokens.code == Some(FailureBodyToken::RateLimitError) || tokens.code == Some(
                FailureBodyToken::RateLimitExceeded,
            );
            let word = if tokens.code is Some {
                tokens.code
            } else {
                tokens.kind
            };
            &&& facts.0 == Some(RateKind::Quota) <==> quota
            &&& facts.0 == Some(RateKind::RateLimit) <==> rate && !quota
            &&& facts.0 is None <==> !rate && !quota
            &&& facts.1 == ErrorCode::InsufficientQuota <==> word == Some(
                FailureBodyToken::InsufficientQuota,
            )
            &&& facts.1 == ErrorCode::RateLimitExceeded <==> word == Some(
                FailureBodyToken::RateLimitExceeded,
            )
            &&& facts.1 == ErrorCode::RateLimitError <==> word == Some(
                FailureBodyToken::RateLimitError,
            )
            &&& facts.1 == ErrorCode::Other ==> tokens.code is Some
            &&& facts.1 == ErrorCode::Absent ==> tokens.code is None
            &&& facts.1 == ErrorCode::InsufficientQuota || facts.1 == ErrorCode::RateLimitExceeded
                || facts.1 == ErrorCode::RateLimitError || facts.1 == ErrorCode::Other || facts.1
                == ErrorCode::Absent
        }),
{
}

/// A refusal tells its status, the pause and the identifier of its headers, and the
/// words of the first sixteen kibibytes of its body; it names no parameter.
pub proof fn law_refusals_are_observed(
    refusal: Refusal,
    retry_after: Option<&str>,
    request_id: Option<&str>,
    part: &[u8],
    observation: FailureObservation,
    facts: (Option<RateKind>, ErrorCode),
    wait: Option<u64>,
    id: Option<RequestId>,
    posted: Result<(), FailureObservation>,
)
    requires
        call_ensures(project_http_failure, (&refusal,), observation),
        call_ensures(post_once, (PostOutcome::Refused(refusal),), posted),
        match refusal.retry_after {
            Some(text) => retry_after matches Some(borrowed) && borrowed@ == text@,
            None => retry_after is None,
        },
        match refusal.request_id {
            Some(text) => request_id matches Some(borrowed) && borrowed@ == text@,
            None => request_id is None,
        },
        refusal.body matches Ok(bytes) ==> part@ == (if bytes@.len() <= 16384 {
            bytes@
        } else {
            bytes@.take(16384)
        }),
        call_ensures(project_api_failure_body, (part,), facts),
        call_ensures(parse_retry_after, (retry_after,), wait),
        call_ensures(parse_request_id, (request_id,), id),
    ensures
        observation matches FailureObservation::Http {
            status,
            rate_kind,
            retry_after_seconds,
            request_id: told,
            error_code,
            error_param,
        } && {
            &&& status == refusal.status
            &&& retry_after_seconds == wait
            &&& told is Some <==> id is Some
            &&& told is Some ==> told->Some_0@ == id->Some_0@
            &&& error_param == ErrorParam::Absent
            &&& refusal.body is Ok ==> rate_kind == facts.0 && error_code == facts.1
            &&& refusal.body is Err ==> rate_kind is None && error_code == ErrorCode::Absent
        },
        posted matches Err(
            FailureObservation::Http {
                status,
                rate_kind,
                retry_after_seconds,
                request_id: told,
                error_code,
                error_param,
            },
        ) && {
            &&& status == refusal.status
            &&& retry_after_seconds == wait
            &&& told is Some <==> id is Some
            &&& told is Some ==> told->Some_0@ == id->Some_0@
            &&& error_param == ErrorParam::Absent
            &&& refusal.body is Ok ==> rate_kind == facts.0 && error_code == facts.1
            &&& refusal.body is Err ==> rate_kind is None && error_code == ErrorCode::Absent
        },
{
}

/// A request that was not sent is a timeout, else a failed connection, else a failed
/// read; one that could not be built counts as a failed connection, and a reply that
/// began is no failure.
pub proof fn law_unsent_requests_are_told_apart(
    is_timeout: bool,
    is_connect: bool,
    observation: FailureObservation,
    unbuilt: Result<(), FailureObservation>,
    unsent: Result<(), FailureObservation>,
    opened: Result<(), FailureObservation>,
)
    requires
        call_ensures(send_failure, (is_timeout, is_connect), observation),
        call_ensures(post_once, (PostOutcome::NotBuilt,), unbuilt),
        call_ensures(post_once, (PostOutcome::NotSent { is_timeout, is_connect },), unsent),
        call_ensures(post_once, (PostOutcome::Opened,), opened),
    ensures
        opened is Ok,
        unbuilt == Err::<(), FailureObservation>(FailureObservation::Network(NetworkKind::Connect)),
        unsent == Err::<(), FailureObservation>(observation),
        is_timeout ==> observation == FailureObservation::Network(NetworkKind::Timeout),
        !is_timeout && is_connect ==> observation == FailureObservation::Network(
            NetworkKind::Connect,
        ),
        !is_timeout && !is_connect ==> observation == FailureObservation::Network(
            NetworkKind::Read,
        ),
{
}

/// A whole reply is passed on as it came: its status, its bytes and its content type,
/// which is JSON where it names none.
pub proof fn law_whole_replies_are_passed_on(
    reply: Reply,
    result: Result<UpstreamBody, FailureObservation>,
)
    requires
        call_ensures(Reply::into_nonstream, (reply,), result),
    ensures
        reply.body matches Ok(bytes) ==> result is Ok && {
            let body = result->Ok_0;
            &&& body.status == reply.status
            &&& body.body@ == bytes@
            &&& reply.content_type matches Some(text) ==> body.content_type@ == text@
            &&& reply.content_type is None ==> body.content_type@ == "application/json"@
        },
        reply.body is Err ==> result == Err::<UpstreamBody, FailureObservation>(
            FailureObservation::Network(NetworkKind::Read),
        ),
{
}

/// A request for a whole reply brings the reply where its status is in the two
/// hundreds, and else the refusal.
pub proof fn law_whole_requests_bring_the_reply(
    reply: Reply,
    failure: String,
    api_key: &str,
    posted: Result<UpstreamBody, UpstreamError>,
    got: Result<UpstreamBody, UpstreamError>,
    unposted: Result<UpstreamBody, UpstreamError>,
    ungot: Result<UpstreamBody, UpstreamError>,
    refusal: UpstreamError,
)
    requires
        call_ensures(post_nonstream, (WholeOutcome::Replied(reply), api_key), posted),
        call_ensures(get_once, (WholeOutcome::Replied(reply), api_key), got),
        call_ensures(post_nonstream, (WholeOutcome::Failed(failure), api_key), unposted),
        call_ensures(get_once, (WholeOutcome::Failed(failure), api_key), ungot),
        call_ensures(map_http_error, (reply.status, &reply.body, api_key), refusal),
    ensures
        200 <= reply.status <= 299 ==> (reply.body matches Ok(bytes) ==> posted is Ok && got is Ok
            && posted->Ok_0.status == reply.status && posted->Ok_0.body@ == bytes@
            && got->Ok_0.status == reply.status && got->Ok_0.body@ == bytes@ && (
        reply.content_type matches Some(text) ==> posted->Ok_0.content_type@ == text@
            && got->Ok_0.content_type@ == text@) && (reply.content_type is None
            ==> posted->Ok_0.content_type@ == "application/json"@ && got->Ok_0.content_type@
            == "application/json"@)),
        reply.status < 200 || reply.status > 299 ==> posted is Err && got is Err
            && posted->Err_0.status == refusal.status && posted->Err_0.upstream_status == Some(
            reply.status,
        ) && posted->Err_0.detail@ == refusal.detail@ && got->Err_0.status == refusal.status
            && got->Err_0.upstream_status == Some(reply.status) && got->Err_0.detail@
            == refusal.detail@,
        200 <= reply.status <= 299 && reply.body is Err ==> posted is Err && got is Err
            && posted->Err_0.status == 502 && posted->Err_0.upstream_status == Some(200u16)
            && posted->Err_0.detail@ == "upstream response body read failed"@ && got->Err_0.status
            == 502 && got->Err_0.upstream_status is None,
        200 <= reply.status <= 299 && reply.body == Err::<Vec<u8>, BodyReadFailure>(
            BodyReadFailure::Deadline,
        ) ==> got->Err_0.detail@ == "upstream models response exceeded the total timeout"@,
        200 <= reply.status <= 299 ==> (reply.body matches Err(BodyReadFailure::Io(reason))
            ==> got->Err_0.detail@ == "upstream response body read failed: "@ + reason@),
        unposted is Err && ungot is Err && unposted->Err_0.status == 502 && ungot->Err_0.status
            == 502 && unposted->Err_0.upstream_status is None && ungot->Err_0.upstream_status is None
            && unposted->Err_0.detail@ == failure@ && ungot->Err_0.detail@ == failure@,
{
}

/// A request for a stream opens one where the reply says that it is one; what came
/// otherwise is told with a status of its own.
pub proof fn law_streams_are_opened_or_refused(
    is_timeout: bool,
    is_connect: bool,
    status: u16,
    body: Result<Vec<u8>, BodyReadFailure>,
    content_type: Option<String>,
    borrowed: Option<&str>,
    api_key: &str,
    accepted: Result<(), FailureObservation>,
    opened: Result<(), UpstreamError>,
    refused: Result<(), UpstreamError>,
    unsent: Result<(), UpstreamError>,
    unbuilt: Result<(), UpstreamError>,
    refusal: UpstreamError,
)
    requires
        match content_type {
            Some(text) => borrowed matches Some(part) && part@ == text@,
            None => borrowed is None,
        },
        call_ensures(into_stream, (borrowed,), accepted),
        call_ensures(open_stream, (StreamOutcome::Opened { status, content_type }, api_key), opened),
        call_ensures(open_stream, (StreamOutcome::Refused { status, body }, api_key), refused),
        call_ensures(
            open_stream,
            (StreamOutcome::NotSent { is_timeout, is_connect }, api_key),
            unsent,
        ),
        call_ensures(open_stream, (StreamOutcome::NotBuilt, api_key), unbuilt),
        call_ensures(map_http_error, (status, &body, api_key), refusal),
    ensures
        opened is Ok <==> accepted is Ok,
        accepted matches Err(failure) ==> failure == FailureObservation::Protocol(
            ProtocolKind::InvalidResponse,
        ),
        opened matches Err(error) ==> error.status == 502 && error.upstream_status == Some(status)
            && error.detail@ == "upstream 200 returned a non-SSE Content-Type"@,
        refused matches Err(error) && error.status == refusal.status && error.upstream_status
            == Some(status) && error.detail@ == refusal.detail@,
        unbuilt matches Err(error) && error.status == 502 && error.upstream_status is None
            && error.detail@ == "upstream connection failed"@,
        unsent matches Err(error) && error.status == 502 && error.upstream_status is None
            && error.detail@ == (if is_timeout {
            "upstream request timed out"@
        } else if is_connect {
            "upstream connection failed"@
        } else {
            "upstream request failed"@
        }),
{
}

/// A reply without a content type is no stream; one whose type, up to a semicolon and
/// without regard to case and space, reads `text/event-stream` is one.
pub proof fn law_streams_say_so(
    plain: &str,
    parameters: Seq<char>,
    typed: &str,
    of_nothing: Result<(), FailureObservation>,
    of_plain: Result<(), FailureObservation>,
    of_typed: Result<(), FailureObservation>,
)
    requires
        call_ensures(into_stream, (None::<&str>,), of_nothing),
        call_ensures(into_stream, (Some(plain),), of_plain),
        call_ensures(into_stream, (Some(typed),), of_typed),
        !plain@.contains(';'),
        typed@ == plain@.push(';') + parameters,
    ensures
        of_nothing is Err,
        of_plain is Ok <==> lowered(trimmed(plain@)) == "text/event-stream"@,
        of_typed is Ok <==> of_plain is Ok,
{
    crate::text_laws::law_before_a_mark(plain@, ';', parameters);
    reveal_strlit("text/event-stream");
    assert(lowered("text/event-stream"@) =~= "text/event-stream"@);
    assert(lowered(trimmed(plain@)).len() == trimmed(plain@).len());
}

/// A model list is asked for again only where no provider answered, up to three times
/// in all, after eight tenths of a second and then twice that.
pub proof fn law_model_lists_are_asked_for_three_times(
    attempt: usize,
    result: Result<UpstreamBody, UpstreamError>,
    step: GetStep,
)
    requires
        1 <= attempt <= 3,
        call_ensures(get, (attempt, result), step),
    ensures
        result is Ok || attempt == 3 || (result matches Err(error) && error.upstream_status is Some)
            ==> step == GetStep::Done(result),
        attempt == 1 && (result matches Err(error) && error.upstream_status is None)
            ==> step == (GetStep::Again { attempt: 2, delay: Duration { millis: 800 } }),
        attempt == 2 && (result matches Err(error) && error.upstream_status is None)
            ==> step == (GetStep::Again { attempt: 3, delay: Duration { millis: 1600 } }),
{
}

/// A first line is over at a line feed, at the end of the stream, or at sixty-four
/// kibibytes, and is handed over whole; a stream that brings nothing is told.
pub proof fn law_first_lines_are_whole(
    line: FirstLine,
    byte: u8,
    reason: String,
    after: Result<FirstLine, Result<Vec<u8>, UpstreamError>>,
    ended: Result<FirstLine, Result<Vec<u8>, UpstreamError>>,
    failed: Result<FirstLine, Result<Vec<u8>, UpstreamError>>,
)
    requires
        line.bytes@.len() < 65536,
        call_ensures(FirstLine::read_first_line, (line, ByteEvent::Byte(byte)), after),
        call_ensures(FirstLine::read_first_line, (line, ByteEvent::End), ended),
        call_ensures(FirstLine::read_first_line, (line, ByteEvent::Failed(reason)), failed),
    ensures
        byte == 10 || line.bytes@.len() == 65535 ==> (after matches Err(Ok(bytes)) && bytes@
            == line.bytes@.push(byte)),
        byte != 10 && line.bytes@.len() < 65535 ==> (after matches Ok(longer) && longer.bytes@
            == line.bytes@.push(byte)),
        line.bytes@.len() > 0 ==> (ended matches Err(Ok(bytes)) && bytes@ == line.bytes@),
        line.bytes@.len() == 0 ==> (ended matches Err(Err(error)) && error.status == 502
            && error.upstream_status == Some(200u16) && error.detail@
            == "upstream 200 but empty body"@),
        failed matches Err(Err(error)) && error.status == 502 && error.upstream_status is None
            && error.detail@ == reason@,
{
}

} // verus!
