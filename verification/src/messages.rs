//! Requests to providers that are reached with an API key, and what their replies mean.

use vstd::prelude::*;
use vstd::string::*;

use crate::codex_transport::{
    is_media_type, media_type, media_type_is, media_type_of, parse_request_id, parse_retry_after,
    request_id_of, retry_after_of, view_of_id,
};
use crate::config::GatewayConfig;
use crate::duration::Duration;
use crate::failure_json::{body_tokens, ErrorTokens, FailureBodyToken, FailureJsonScanner};
use crate::provider_contracts::AuthScheme;
use crate::provider_failure::{
    ErrorCode, ErrorParam, FailureObservation, NetworkKind, ProtocolKind, RateKind,
};
use crate::redaction::{redact_error_body, shown_error_body, MAX_ERROR_BODY_BYTES};
use crate::text::{append_bytes, as_text, decimal, join, str_eq, to_decimal, view_of, view_of_str};

verus! {

/// Whether the reply is read whole or passed on as it comes.
#[derive(Clone, Copy, Debug, PartialEq, Eq, Structural)]
pub enum AttemptMode {
    Nonstream,
    Stream,
}

/// A reply that was read whole.
#[derive(Debug)]
pub struct UpstreamBody {
    pub status: u16,
    pub content_type: String,
    pub body: Vec<u8>,
}

/// Why there is no reply to pass on.
#[derive(Debug)]
pub struct UpstreamError {
    pub status: u16,
    pub upstream_status: Option<u16>,
    pub detail: String,
}

impl UpstreamError {
    pub open spec fn says(
        self,
        status: u16,
        upstream_status: Option<u16>,
        detail: Seq<char>,
    ) -> bool {
        &&& self.status == status
        &&& self.upstream_status == upstream_status
        &&& self.detail@ == detail
    }

    fn new(status: u16, upstream_status: Option<u16>, detail: &str) -> (error: UpstreamError)
        ensures
            error.says(status, upstream_status, detail@),
    {
        UpstreamError { status, upstream_status, detail: detail.to_owned() }
    }
}

// ---------------------------------------------------------------------------
// How a request is sent
// ---------------------------------------------------------------------------

#[derive(Clone, Copy, Debug, PartialEq, Eq, Structural)]
pub struct InferenceTimeouts {
    pub connect: Duration,
    pub total: Duration,
    pub read_idle: Duration,
}

#[derive(Clone, Copy, Debug, PartialEq, Eq, Structural)]
pub struct ModelsTimeouts {
    pub connect: Duration,
    pub total: Duration,
    pub read_idle: Duration,
}

/// The scheme of the contract, or else that of the adapter.
pub open spec fn auth_scheme_of(cfg: GatewayConfig) -> AuthScheme {
    match cfg.provider_contract {
        Some(contract) => contract.auth_scheme,
        None => if cfg.provider@ == "qwen"@ || cfg.provider@ == "openai-custom"@ || cfg.provider@
            == "openai-responses"@ {
            AuthScheme::Bearer
        } else if cfg.provider@ == "relay"@ {
            AuthScheme::AnthropicDual
        } else if cfg.provider@ == "codex"@ {
            AuthScheme::CsswitchOauth
        } else {
            AuthScheme::AnthropicXApiKey
        },
    }
}

pub fn auth_scheme(cfg: &GatewayConfig) -> (scheme: AuthScheme)
    ensures
        scheme == auth_scheme_of(*cfg),
{
    if let Some(contract) = &cfg.provider_contract {
        return contract.auth_scheme;
    }
    let provider = cfg.provider.as_str();
    if str_eq(provider, "qwen") || str_eq(provider, "openai-custom") || str_eq(
        provider,
        "openai-responses",
    ) {
        AuthScheme::Bearer
    } else if str_eq(provider, "relay") {
        AuthScheme::AnthropicDual
    } else if str_eq(provider, "codex") {
        AuthScheme::CsswitchOauth
    } else {
        AuthScheme::AnthropicXApiKey
    }
}

pub open spec fn models_timeout_of(provider: Seq<char>) -> u64 {
    if provider == "qwen"@ || provider == "openai-custom"@ || provider == "openai-responses"@ {
        300
    } else {
        120
    }
}

pub fn models_timeout_secs(provider: &str) -> (secs: u64)
    ensures
        secs == models_timeout_of(provider@),
{
    if str_eq(provider, "qwen") || str_eq(provider, "openai-custom") || str_eq(
        provider,
        "openai-responses",
    ) {
        300
    } else {
        120
    }
}

/// A managed launch takes the contract's timeouts; otherwise the adapter has one for
/// all three.
pub fn models_timeouts(cfg: &GatewayConfig) -> (timeouts: ModelsTimeouts)
    ensures
        match cfg.provider_contract {
            Some(contract) => timeouts == (ModelsTimeouts {
                connect: contract.connect_timeout,
                total: contract.request_timeout,
                read_idle: contract.read_idle_timeout,
            }),
            None => {
                &&& timeouts.connect.millis == models_timeout_of(cfg.provider@) * 1_000
                &&& timeouts.total == timeouts.connect
                &&& timeouts.read_idle == timeouts.connect
            },
        },
{
    match &cfg.provider_contract {
        Some(contract) => ModelsTimeouts {
            connect: contract.connect_timeout,
            total: contract.request_timeout,
            read_idle: contract.read_idle_timeout,
        },
        None => {
            let legacy = Duration::from_secs(models_timeout_secs(cfg.provider.as_str()));
            ModelsTimeouts { connect: legacy, total: legacy, read_idle: legacy }
        },
    }
}

/// The limits of a launch without a contract.
pub fn standalone_inference_timeouts() -> (timeouts: InferenceTimeouts)
    ensures
        timeouts.connect.millis == 300_000,
        timeouts.total.millis == 300_000,
        timeouts.read_idle.millis == 300_000,
{
    InferenceTimeouts {
        connect: Duration::from_secs(300),
        total: Duration::from_secs(300),
        read_idle: Duration::from_secs(300),
    }
}

pub fn inference_timeouts(cfg: &GatewayConfig) -> (timeouts: InferenceTimeouts)
    ensures
        match cfg.provider_contract {
            Some(contract) => timeouts == (InferenceTimeouts {
                connect: contract.connect_timeout,
                total: contract.request_timeout,
                read_idle: contract.read_idle_timeout,
            }),
            None => {
                &&& timeouts.connect.millis == 300_000
                &&& timeouts.total.millis == 300_000
                &&& timeouts.read_idle.millis == 300_000
            },
        },
{
    match &cfg.provider_contract {
        Some(contract) => InferenceTimeouts {
            connect: contract.connect_timeout,
            total: contract.request_timeout,
            read_idle: contract.read_idle_timeout,
        },
        None => standalone_inference_timeouts(),
    }
}

/// The timeout of one operation on the connection. A stream has no total limit, only
/// one between two reads.
pub fn inference_operation_timeout(
    timeouts: InferenceTimeouts,
    enforce_total: bool,
) -> (timeout: Duration)
    ensures
        timeout == if enforce_total {
            timeouts.total.shorter(timeouts.read_idle)
        } else {
            timeouts.read_idle
        },
{
    if enforce_total {
        timeouts.total.shorter_of(timeouts.read_idle)
    } else {
        timeouts.read_idle
    }
}

pub fn models_operation_timeout(timeouts: ModelsTimeouts) -> (timeout: Duration)
    ensures
        timeout == timeouts.total.shorter(timeouts.read_idle),
{
    timeouts.total.shorter_of(timeouts.read_idle)
}

/// A total limit holds for a reply that is read whole.
pub fn enforces_total(mode: AttemptMode) -> (enforced: bool)
    ensures
        enforced == (mode is Nonstream),
{
    mode == AttemptMode::Nonstream
}

/// The headers by which a provider knows its customer.
pub open spec fn auth_headers_of(scheme: AuthScheme, api_key: Seq<char>) -> Seq<
    (Seq<char>, Seq<char>),
> {
    let version = ("anthropic-version"@, "2023-06-01"@);
    let key = ("x-api-key"@, api_key);
    let bearer = ("authorization"@, "Bearer "@ + api_key);
    match scheme {
        AuthScheme::Bearer => seq![bearer],
        AuthScheme::AnthropicDual => seq![version, key, bearer],
        AuthScheme::AnthropicXApiKey => seq![version, key],
        AuthScheme::CsswitchOauth => Seq::empty(),
    }
}

pub open spec fn header_views(headers: Seq<(&'static str, String)>) -> Seq<(Seq<char>, Seq<char>)> {
    Seq::new(headers.len(), |i: int| (headers[i].0@, headers[i].1@))
}

pub open spec fn api_key_of(cfg: GatewayConfig) -> Seq<char> {
    match cfg.api_key {
        Some(key) => key@,
        None => Seq::empty(),
    }
}

pub fn auth_headers(cfg: &GatewayConfig) -> (headers: Vec<(&'static str, String)>)
    ensures
        header_views(headers@) == auth_headers_of(auth_scheme_of(*cfg), api_key_of(*cfg)),
{
    let key: String = match &cfg.api_key {
        Some(key) => key.clone(),
        None => String::new(),
    };
    let mut headers: Vec<(&'static str, String)> = Vec::new();
    match auth_scheme(cfg) {
        AuthScheme::Bearer => {
            headers.push(("authorization", join("Bearer ", key.as_str())));
        },
        AuthScheme::AnthropicDual => {
            headers.push(("anthropic-version", "2023-06-01".to_owned()));
            headers.push(("x-api-key", key.clone()));
            headers.push(("authorization", join("Bearer ", key.as_str())));
        },
        AuthScheme::AnthropicXApiKey => {
            headers.push(("anthropic-version", "2023-06-01".to_owned()));
            headers.push(("x-api-key", key));
        },
        AuthScheme::CsswitchOauth => {},
    }
    assert(header_views(headers@) =~= auth_headers_of(auth_scheme_of(*cfg), api_key_of(*cfg)));
    headers
}

/// The headers of an inference request. `user_agent` is the gateway's own.
pub fn inference_headers(cfg: &GatewayConfig, user_agent: &str) -> (headers: Vec<
    (&'static str, String),
>)
    ensures
        header_views(headers@) == seq![
            ("content-type"@, "application/json"@),
            ("user-agent"@, user_agent@),
        ] + auth_headers_of(auth_scheme_of(*cfg), api_key_of(*cfg)),
{
    let mut auth = auth_headers(cfg);
    let ghost before = auth@;
    let mut headers: Vec<(&'static str, String)> = Vec::new();
    headers.push(("content-type", "application/json".to_owned()));
    headers.push(("user-agent", user_agent.to_owned()));
    let ghost first = headers@;
    headers.append(&mut auth);
    assert(headers@ =~= first + before);
    assert(header_views(headers@) =~= header_views(first) + header_views(before));
    assert(header_views(first) =~= seq![
        ("content-type"@, "application/json"@),
        ("user-agent"@, user_agent@),
    ]);
    headers
}

// ---------------------------------------------------------------------------
// Reading a body
// ---------------------------------------------------------------------------

#[derive(Debug, PartialEq, Eq)]
pub enum BodyReadFailure {
    Deadline,
    Io(String),
}

/// How much of the total time is left, if any is.
pub fn remaining_time(total: Duration, elapsed: Duration) -> (left: Result<Duration, BodyReadFailure>)
    ensures
        if elapsed.millis <= total.millis {
            left matches Ok(left) && left.millis == total.millis - elapsed.millis
        } else {
            left == Err::<Duration, BodyReadFailure>(BodyReadFailure::Deadline)
        },
{
    if elapsed.millis <= total.millis {
        Ok(Duration::from_millis(total.millis - elapsed.millis))
    } else {
        Err(BodyReadFailure::Deadline)
    }
}

/// A body that is read in chunks, up to a limit.
pub struct BodyReader {
    pub body: Vec<u8>,
    pub limit: Option<u64>,
}

/// What came of one read.
pub enum ReadEvent {
    Cancelled,
    End,
    Chunk(Vec<u8>),
    Failed(String),
}

impl BodyReader {
    pub open spec fn within_limit(self) -> bool {
        self.limit matches Some(limit) ==> self.body@.len() <= limit
    }

    pub fn new(limit: Option<u64>) -> (reader: BodyReader)
        ensures
            reader.limit == limit,
            reader.body@ == Seq::<u8>::empty(),
            reader.within_limit(),
    {
        BodyReader { body: Vec::new(), limit }
    }

    /// How much the next read may bring into a buffer of `room` bytes. Nothing more
    /// is read once the limit is reached.
    pub fn capacity(&self, room: usize) -> (n: usize)
        requires
            self.within_limit(),
        ensures
            match self.limit {
                None => n == room,
                Some(limit) => n == if limit - self.body@.len() < room {
                    limit - self.body@.len()
                } else {
                    room as int
                },
            },
    {
        match self.limit {
            None => room,
            Some(limit) => {
                let left: u64 = limit - self.body.len() as u64;
                if left < room as u64 {
                    left as usize
                } else {
                    room
                }
            },
        }
    }

    /// Takes what a read brought: the end of it, or the reader that reads on.
    pub fn on_read(self, event: ReadEvent) -> (next: Result<
        BodyReader,
        Result<Vec<u8>, BodyReadFailure>,
    >)
        requires
            self.within_limit(),
            event matches ReadEvent::Chunk(chunk) ==> (self.limit matches Some(limit)
                ==> self.body@.len() + chunk@.len() <= limit),
        ensures
            match event {
                ReadEvent::Cancelled => next matches Err(Err(BodyReadFailure::Deadline)),
                ReadEvent::End => next matches Err(Ok(body)) && body@ == self.body@,
                ReadEvent::Failed(error) => next matches Err(Err(BodyReadFailure::Io(text)))
                    && text@ == error@,
                ReadEvent::Chunk(chunk) => {
                    &&& next matches Ok(reader)
                    &&& reader.limit == self.limit
                    &&& reader.body@ == self.body@ + chunk@
                    &&& reader.within_limit()
                },
            },
    {
        match event {
            ReadEvent::Cancelled => Err(Err(BodyReadFailure::Deadline)),
            ReadEvent::End => Err(Ok(self.body)),
            ReadEvent::Failed(error) => Err(Err(BodyReadFailure::Io(error))),
            ReadEvent::Chunk(chunk) => {
                let mut body = self.body;
                append_bytes(&mut body, chunk.as_slice());
                Ok(BodyReader { body, limit: self.limit })
            },
        }
    }
}

// ---------------------------------------------------------------------------
// Refusals
// ---------------------------------------------------------------------------

/// What is shown of the body of a refusal.
pub open spec fn shown_refusal(body: Result<Vec<u8>, BodyReadFailure>, api_key: Seq<char>) -> Seq<
    char,
> {
    match body {
        Ok(bytes) => shown_error_body(bytes@, api_key),
        Err(BodyReadFailure::Deadline) => "upstream error body exceeded the total timeout"@,
        Err(BodyReadFailure::Io(_)) => "upstream error body could not be read"@,
    }
}

pub fn bounded_redacted_error_body(
    body: &Result<Vec<u8>, BodyReadFailure>,
    api_key: &str,
) -> (text: String)
    ensures
        text@ == shown_refusal(*body, api_key@),
{
    match body {
        Ok(bytes) => redact_error_body(bytes.as_slice(), api_key),
        Err(BodyReadFailure::Deadline) => {
            "upstream error body exceeded the total timeout".to_owned()
        },
        Err(BodyReadFailure::Io(_)) => "upstream error body could not be read".to_owned(),
    }
}

/// A client or server error keeps its status; anything else is a bad gateway.
pub open spec fn passed_status(status: u16) -> u16 {
    if 400 <= status <= 599 {
        status
    } else {
        502
    }
}

pub open spec fn refusal_detail(status: u16, shown: Seq<char>) -> Seq<char> {
    let plain = "upstream "@ + decimal(status as nat);
    if shown.len() == 0 {
        plain
    } else {
        plain + ": "@ + shown
    }
}

/// What a reply with a status that is no success means.
pub fn map_http_error(
    status: u16,
    body: &Result<Vec<u8>, BodyReadFailure>,
    api_key: &str,
) -> (error: UpstreamError)
    ensures
        error.says(
            passed_status(status),
            Some(status),
            refusal_detail(status, shown_refusal(*body, api_key@)),
        ),
{
    let shown = bounded_redacted_error_body(body, api_key);
    let mut detail = join("upstream ", to_decimal(status as u64).as_str());
    if !shown.as_str().is_empty() {
        detail.append(": ");
        detail.append(shown.as_str());
    }
    let mapped: u16 = if 400 <= status && status <= 599 {
        status
    } else {
        502
    };
    UpstreamError { status: mapped, upstream_status: Some(status), detail }
}

/// What the words of an error body mean. A quota wins over a rate limit, and the type
/// stands in for a missing code.
pub open spec fn api_facts_of(tokens: ErrorTokens) -> (Option<RateKind>, ErrorCode) {
    let is_rate = |token: Option<FailureBodyToken>|
        token == Some(FailureBodyToken::RateLimitError) || token == Some(
            FailureBodyToken::RateLimitExceeded,
        );
    let quota = tokens.kind == Some(FailureBodyToken::InsufficientQuota) || tokens.code == Some(
        FailureBodyToken::InsufficientQuota,
    );
    let rate_kind = if quota {
        Some(RateKind::Quota)
    } else if is_rate(tokens.kind) || is_rate(tokens.code) {
        Some(RateKind::RateLimit)
    } else {
        None
    };
    let code = match tokens.code {
        Some(token) => match token {
            FailureBodyToken::InsufficientQuota => ErrorCode::InsufficientQuota,
            FailureBodyToken::RateLimitExceeded => ErrorCode::RateLimitExceeded,
            FailureBodyToken::RateLimitError => ErrorCode::RateLimitError,
            _ => ErrorCode::Other,
        },
        None => match tokens.kind {
            Some(FailureBodyToken::InsufficientQuota) => ErrorCode::InsufficientQuota,
            Some(FailureBodyToken::RateLimitExceeded) => ErrorCode::RateLimitExceeded,
            Some(FailureBodyToken::RateLimitError) => ErrorCode::RateLimitError,
            _ => ErrorCode::Absent,
        },
    };
    (rate_kind, code)
}

fn api_facts(tokens: ErrorTokens) -> (facts: (Option<RateKind>, ErrorCode))
    ensures
        facts == api_facts_of(tokens),
{
    let quota = tokens.kind == Some(FailureBodyToken::InsufficientQuota) || tokens.code == Some(
        FailureBodyToken::InsufficientQuota,
    );
    let rate = tokens.kind == Some(FailureBodyToken::RateLimitError) || tokens.kind == Some(
        FailureBodyToken::RateLimitExceeded,
    ) || tokens.code == Some(FailureBodyToken::RateLimitError) || tokens.code == Some(
        FailureBodyToken::RateLimitExceeded,
    );
    let rate_kind = if quota {
        Some(RateKind::Quota)
    } else if rate {
        Some(RateKind::RateLimit)
    } else {
        None
    };
    let code = match tokens.code {
        Some(token) => match token {
            FailureBodyToken::InsufficientQuota => ErrorCode::InsufficientQuota,
            FailureBodyToken::RateLimitExceeded => ErrorCode::RateLimitExceeded,
            FailureBodyToken::RateLimitError => ErrorCode::RateLimitError,
            _ => ErrorCode::Other,
        },
        None => match tokens.kind {
            Some(FailureBodyToken::InsufficientQuota) => ErrorCode::InsufficientQuota,
            Some(FailureBodyToken::RateLimitExceeded) => ErrorCode::RateLimitExceeded,
            Some(FailureBodyToken::RateLimitError) => ErrorCode::RateLimitError,
            _ => ErrorCode::Absent,
        },
    };
    (rate_kind, code)
}

pub open spec fn api_facts_of_body(bytes: Seq<u8>) -> (Option<RateKind>, ErrorCode) {
    if bytes.len() > MAX_ERROR_BODY_BYTES {
        (None, ErrorCode::Absent)
    } else {
        match body_tokens(bytes, false) {
            Some(tokens) => api_facts_of(tokens),
            None => (None, ErrorCode::Absent),
        }
    }
}

pub fn project_api_failure_body(bytes: &[u8]) -> (facts: (Option<RateKind>, ErrorCode))
    ensures
        facts == api_facts_of_body(bytes@),
{
    if bytes.len() > MAX_ERROR_BODY_BYTES {
        return (None, ErrorCode::Absent);
    }
    match FailureJsonScanner::project(bytes, false) {
        Some(tokens) => api_facts(tokens),
        None => (None, ErrorCode::Absent),
    }
}

/// A refusal as it is observed.
pub struct Refusal {
    pub status: u16,
    pub retry_after: Option<String>,
    pub request_id: Option<String>,
    pub body: Result<Vec<u8>, BodyReadFailure>,
}

/// The facts of a refusal's body: of its first 16 KiB, where it could be read.
pub open spec fn refusal_facts(body: Result<Vec<u8>, BodyReadFailure>) -> (
    Option<RateKind>,
    ErrorCode,
) {
    match body {
        Ok(bytes) => api_facts_of_body(crate::redaction::shown_part(bytes@)),
        Err(_) => (None, ErrorCode::Absent),
    }
}

/// What a refusal tells. Nothing of its text is kept.
pub fn project_http_failure(refusal: &Refusal) -> (observation: FailureObservation)
    ensures
        observation matches FailureObservation::Http {
            status,
            rate_kind,
            retry_after_seconds,
            request_id,
            error_code,
            error_param,
        } && {
            &&& status == refusal.status
            &&& (rate_kind, error_code) == refusal_facts(refusal.body)
            &&& retry_after_seconds == retry_after_of(view_of(refusal.retry_after))
            &&& view_of_id(request_id) == request_id_of(view_of(refusal.request_id))
            &&& error_param is Absent
        },
{
    let (rate_kind, error_code) = match &refusal.body {
        Ok(bytes) => {
            let end = if bytes.len() > MAX_ERROR_BODY_BYTES {
                MAX_ERROR_BODY_BYTES
            } else {
                bytes.len()
            };
            let admitted = vstd::slice::slice_subrange(bytes.as_slice(), 0, end);
            assert(admitted@ =~= crate::redaction::shown_part(bytes@));
            project_api_failure_body(admitted)
        },
        Err(_) => (None, ErrorCode::Absent),
    };
    FailureObservation::Http {
        status: refusal.status,
        rate_kind,
        retry_after_seconds: parse_retry_after(as_text(&refusal.retry_after)),
        request_id: parse_request_id(as_text(&refusal.request_id)),
        error_code,
        error_param: ErrorParam::Absent,
    }
}

/// What it means that a request could not be sent.
pub fn send_failure(is_timeout: bool, is_connect: bool) -> (observation: FailureObservation)
    ensures
        observation == FailureObservation::Network(
            if is_timeout {
                NetworkKind::Timeout
            } else if is_connect {
                NetworkKind::Connect
            } else {
                NetworkKind::Read
            },
        ),
{
    if is_timeout {
        FailureObservation::Network(NetworkKind::Timeout)
    } else if is_connect {
        FailureObservation::Network(NetworkKind::Connect)
    } else {
        FailureObservation::Network(NetworkKind::Read)
    }
}

pub open spec fn is_success(status: u16) -> bool {
    200 <= status <= 299
}

fn status_is_success(status: u16) -> (success: bool)
    ensures
        success == is_success(status),
{
    200 <= status && status <= 299
}

/// What came of sending a request once.
pub enum PostOutcome {
    /// No request could be made of the configuration.
    NotBuilt,
    NotSent { is_timeout: bool, is_connect: bool },
    /// A success; its body is still to be read.
    Opened,
    Refused(Refusal),
}

/// Whether a reply has begun, and if not, why.
pub fn post_once(outcome: PostOutcome) -> (result: Result<(), FailureObservation>)
    ensures
        match outcome {
            PostOutcome::NotBuilt => result == Err::<(), FailureObservation>(
                FailureObservation::Network(NetworkKind::Connect),
            ),
            PostOutcome::NotSent { is_timeout, is_connect } => result == Err::<
                (),
                FailureObservation,
            >(
                FailureObservation::Network(
                    if is_timeout {
                        NetworkKind::Timeout
                    } else if is_connect {
                        NetworkKind::Connect
                    } else {
                        NetworkKind::Read
                    },
                ),
            ),
            PostOutcome::Opened => result is Ok,
            PostOutcome::Refused(refusal) => result matches Err(
                FailureObservation::Http {
                    status,
                    rate_kind,
                    retry_after_seconds,
                    request_id,
                    error_code,
                    error_param,
                },
            ) && {
                &&& status == refusal.status
                &&& (rate_kind, error_code) == refusal_facts(refusal.body)
                &&& retry_after_seconds == retry_after_of(view_of(refusal.retry_after))
                &&& view_of_id(request_id) == request_id_of(view_of(refusal.request_id))
                &&& error_param is Absent
            },
        },
{
    match outcome {
        PostOutcome::NotBuilt => Err(FailureObservation::Network(NetworkKind::Connect)),
        PostOutcome::NotSent { is_timeout, is_connect } => Err(
            send_failure(is_timeout, is_connect),
        ),
        PostOutcome::Opened => Ok(()),
        PostOutcome::Refused(refusal) => Err(project_http_failure(&refusal)),
    }
}

// ---------------------------------------------------------------------------
// Whole replies
// ---------------------------------------------------------------------------

/// A reply of which the head came, and the body or not.
pub struct Reply {
    pub status: u16,
    pub content_type: Option<String>,
    pub body: Result<Vec<u8>, BodyReadFailure>,
}

/// The content type of a reply; JSON where it names none.
pub open spec fn content_type_of(content_type: Option<Seq<char>>) -> Seq<char> {
    match content_type {
        Some(text) => text,
        None => "application/json"@,
    }
}

fn own_content_type(content_type: Option<String>) -> (text: String)
    ensures
        text@ == content_type_of(view_of(content_type)),
{
    match content_type {
        Some(text) => text,
        None => "application/json".to_owned(),
    }
}

pub open spec fn is_body_of(body: UpstreamBody, reply: Reply, bytes: Vec<u8>) -> bool {
    &&& body.status == reply.status
    &&& body.content_type@ == content_type_of(view_of(reply.content_type))
    &&& body.body@ == bytes@
}

impl Reply {
    /// The whole reply, where its body could be read.
    pub fn into_nonstream(self) -> (result: Result<UpstreamBody, FailureObservation>)
        ensures
            match self.body {
                Ok(bytes) => result matches Ok(body) && is_body_of(body, self, bytes),
                Err(_) => result == Err::<UpstreamBody, FailureObservation>(
                    FailureObservation::Network(NetworkKind::Read),
                ),
            },
    {
        match self.body {
            Ok(body) => Ok(
                UpstreamBody {
                    status: self.status,
                    content_type: own_content_type(self.content_type),
                    body,
                },
            ),
            Err(_) => Err(FailureObservation::Network(NetworkKind::Read)),
        }
    }
}

/// A reply may be passed on as a stream only where it says that it is one.
pub fn into_stream(content_type: Option<&str>) -> (result: Result<(), FailureObservation>)
    ensures
        if is_media_type(media_type_of(view_of_str(content_type)), "text/event-stream"@) {
            result is Ok
        } else {
            result == Err::<(), FailureObservation>(
                FailureObservation::Protocol(ProtocolKind::InvalidResponse),
            )
        },
{
    if media_type_is(&media_type(content_type), "text/event-stream") {
        Ok(())
    } else {
        Err(FailureObservation::Protocol(ProtocolKind::InvalidResponse))
    }
}

/// What came of a request for a whole reply.
pub enum WholeOutcome {
    /// The client could not be built or the request not be sent, for this reason.
    Failed(String),
    Replied(Reply),
}

/// What the caller of a request for a whole reply gets.
pub fn post_nonstream(outcome: WholeOutcome, api_key: &str) -> (result: Result<
    UpstreamBody,
    UpstreamError,
>)
    ensures
        match outcome {
            WholeOutcome::Failed(detail) => result matches Err(error) && error.says(
                502,
                None,
                detail@,
            ),
            WholeOutcome::Replied(reply) => if !is_success(reply.status) {
                result matches Err(error) && error.says(
                    passed_status(reply.status),
                    Some(reply.status),
                    refusal_detail(reply.status, shown_refusal(reply.body, api_key@)),
                )
            } else {
                match reply.body {
                    Ok(bytes) => result matches Ok(body) && is_body_of(body, reply, bytes),
                    Err(_) => result matches Err(error) && error.says(
                        502,
                        Some(200u16),
                        "upstream response body read failed"@,
                    ),
                }
            },
        },
{
    match outcome {
        WholeOutcome::Failed(detail) => Err(
            UpstreamError { status: 502, upstream_status: None, detail },
        ),
        WholeOutcome::Replied(reply) => {
            if !status_is_success(reply.status) {
                return Err(map_http_error(reply.status, &reply.body, api_key));
            }
            match reply.into_nonstream() {
                Ok(body) => Ok(body),
                Err(_) => Err(
                    UpstreamError::new(502, Some(200), "upstream response body read failed"),
                ),
            }
        },
    }
}

/// What came of a request for a stream.
pub enum StreamOutcome {
    /// No request could be made of the configuration.
    NotBuilt,
    NotSent { is_timeout: bool, is_connect: bool },
    Refused { status: u16, body: Result<Vec<u8>, BodyReadFailure> },
    Opened { status: u16, content_type: Option<String> },
}

pub open spec fn not_sent_detail(is_timeout: bool, is_connect: bool) -> Seq<char> {
    if is_timeout {
        "upstream request timed out"@
    } else if is_connect {
        "upstream connection failed"@
    } else {
        "upstream request failed"@
    }
}

/// Whether the caller of a request for a stream gets one.
pub fn open_stream(outcome: StreamOutcome, api_key: &str) -> (result: Result<(), UpstreamError>)
    ensures
        match outcome {
            StreamOutcome::NotBuilt => result matches Err(error) && error.says(
                502,
                None,
                "upstream connection failed"@,
            ),
            StreamOutcome::NotSent { is_timeout, is_connect } => result matches Err(error)
                && error.says(502, None, not_sent_detail(is_timeout, is_connect)),
            StreamOutcome::Refused { status, body } => result matches Err(error) && error.says(
                passed_status(status),
                Some(status),
                refusal_detail(status, shown_refusal(body, api_key@)),
            ),
            StreamOutcome::Opened { status, content_type } => if is_media_type(
                media_type_of(view_of(content_type)),
                "text/event-stream"@,
            ) {
                result is Ok
            } else {
                result matches Err(error) && error.says(
                    502,
                    Some(status),
                    "upstream 200 returned a non-SSE Content-Type"@,
                )
            },
        },
{
    match outcome {
        StreamOutcome::NotBuilt => Err(
            UpstreamError::new(502, None, "upstream connection failed"),
        ),
        StreamOutcome::NotSent { is_timeout, is_connect } => {
            let detail = if is_timeout {
                "upstream request timed out"
            } else if is_connect {
                "upstream connection failed"
            } else {
                "upstream request failed"
            };
            Err(UpstreamError::new(502, None, detail))
        },
        StreamOutcome::Refused { status, body } => Err(map_http_error(status, &body, api_key)),
        StreamOutcome::Opened { status, content_type } => {
            match into_stream(as_text(&content_type)) {
                Ok(_) => Ok(()),
                Err(_) => Err(
                    UpstreamError::new(
                        502,
                        Some(status),
                        "upstream 200 returned a non-SSE Content-Type",
                    ),
                ),
            }
        },
    }
}

// ---------------------------------------------------------------------------
// Model lists
// ---------------------------------------------------------------------------

/// What one request for a model list came to.
pub fn get_once(outcome: WholeOutcome, api_key: &str) -> (result: Result<
    UpstreamBody,
    UpstreamError,
>)
    ensures
        match outcome {
            WholeOutcome::Failed(detail) => result matches Err(error) && error.says(
                502,
                None,
                detail@,
            ),
            WholeOutcome::Replied(reply) => if !is_success(reply.status) {
                result matches Err(error) && error.says(
                    passed_status(reply.status),
                    Some(reply.status),
                    refusal_detail(reply.status, shown_refusal(reply.body, api_key@)),
                )
            } else {
                match reply.body {
                    Ok(bytes) => result matches Ok(body) && is_body_of(body, reply, bytes),
                    Err(BodyReadFailure::Deadline) => result matches Err(error) && error.says(
                        502,
                        None,
                        "upstream models response exceeded the total timeout"@,
                    ),
                    Err(BodyReadFailure::Io(reason)) => result matches Err(error) && error.says(
                        502,
                        None,
                        "upstream response body read failed: "@ + reason@,
                    ),
                }
            },
        },
{
    match outcome {
        WholeOutcome::Failed(detail) => Err(
            UpstreamError { status: 502, upstream_status: None, detail },
        ),
        WholeOutcome::Replied(reply) => {
            if !status_is_success(reply.status) {
                return Err(map_http_error(reply.status, &reply.body, api_key));
            }
            match reply.body {
                Ok(body) => Ok(
                    UpstreamBody {
                        status: reply.status,
                        content_type: own_content_type(reply.content_type),
                        body,
                    },
                ),
                Err(BodyReadFailure::Deadline) => Err(
                    UpstreamError::new(
                        502,
                        None,
                        "upstream models response exceeded the total timeout",
                    ),
                ),
                Err(BodyReadFailure::Io(reason)) => {
                    let detail = join("upstream response body read failed: ", reason.as_str());
                    Err(UpstreamError { status: 502, upstream_status: None, detail })
                },
            }
        },
    }
}

/// What to do after one request for a model list.
pub enum GetStep {
    Done(Result<UpstreamBody, UpstreamError>),
    /// Wait, then make the request that has this number.
    Again { attempt: usize, delay: Duration },
}

/// A model list is asked for up to three times, with growing pauses; an answer of the
/// provider, good or bad, ends it. `attempt` is the number of the request that came to
/// `result`.
pub fn get(attempt: usize, result: Result<UpstreamBody, UpstreamError>) -> (step: GetStep)
    requires
        1 <= attempt <= 3,
    ensures
        if attempt < 3 && (result matches Err(error) && error.upstream_status is None) {
            &&& step matches GetStep::Again { attempt: next, delay }
            &&& next == attempt + 1
            &&& delay.millis == 800 * attempt
        } else {
            step == GetStep::Done(result)
        },
{
    let again = match &result {
        Ok(_) => false,
        Err(error) => error.upstream_status.is_none(),
    };
    if again && attempt < 3 {
        GetStep::Again {
            attempt: attempt + 1,
            delay: Duration::from_millis(800 * attempt as u64),
        }
    } else {
        GetStep::Done(result)
    }
}

// ---------------------------------------------------------------------------
// The first line of a stream
// ---------------------------------------------------------------------------

/// The longest first line that is waited for.
pub const FIRST_LINE_LIMIT: usize = 65536;

/// A first line, as far as it has come.
pub struct FirstLine {
    pub bytes: Vec<u8>,
}

/// What came of reading one byte.
pub enum ByteEvent {
    End,
    Byte(u8),
    Failed(String),
}

impl FirstLine {
    /// Takes one byte: the line or the failure, or the line that goes on.
    pub fn read_first_line(self, event: ByteEvent) -> (next: Result<
        FirstLine,
        Result<Vec<u8>, UpstreamError>,
    >)
        requires
            self.bytes@.len() < FIRST_LINE_LIMIT,
        ensures
            match event {
                ByteEvent::Failed(reason) => next matches Err(Err(error)) && error.says(
                    502,
                    None,
                    reason@,
                ),
                ByteEvent::End => if self.bytes@.len() == 0 {
                    next matches Err(Err(error)) && error.says(
                        502,
                        Some(200u16),
                        "upstream 200 but empty body"@,
                    )
                } else {
                    next matches Err(Ok(line)) && line@ == self.bytes@
                },
                ByteEvent::Byte(byte) => {
                    let line = self.bytes@.push(byte);
                    if byte == 0x0a || line.len() == FIRST_LINE_LIMIT {
                        next matches Err(Ok(bytes)) && bytes@ == line
                    } else {
                        next matches Ok(longer) && longer.bytes@ == line && line.len()
                            < FIRST_LINE_LIMIT
                    }
                },
            },
    {
        let mut bytes = self.bytes;
        match event {
            ByteEvent::Failed(detail) => Err(
                Err(UpstreamError { status: 502, upstream_status: None, detail }),
            ),
            ByteEvent::End => {
                if bytes.len() == 0 {
                    Err(Err(UpstreamError::new(502, Some(200), "upstream 200 but empty body")))
                } else {
                    Err(Ok(bytes))
                }
            },
            ByteEvent::Byte(byte) => {
                bytes.push(byte);
                if byte == 0x0a || bytes.len() == FIRST_LINE_LIMIT {
                    Err(Ok(bytes))
                } else {
                    Ok(FirstLine { bytes })
                }
            },
        }
    }
}

// ---------------------------------------------------------------------------
// Laws
// ---------------------------------------------------------------------------

/// The caller never sees a success or a redirect in the place of a refusal.
pub proof fn law_refusals_look_like_errors(status: u16)
    ensures
        400 <= passed_status(status) <= 599,
        400 <= status <= 599 ==> passed_status(status) == status,
{
}

/// A quota that the type or the code proves is a quota, whatever else is said.
pub proof fn law_quota_beats_rate_limit(tokens: ErrorTokens)
    ensures
        api_facts_of(tokens).0 == Some(RateKind::Quota) <==> tokens.kind == Some(
            FailureBodyToken::InsufficientQuota,
        ) || tokens.code == Some(FailureBodyToken::InsufficientQuota),
{
}

} // verus!
