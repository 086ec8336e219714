//! What a provider failure means to the caller, and when a request may be sent again.

use vstd::prelude::*;
use vstd::utf8::is_ascii_chars;

use crate::json::{JsonFields, JsonTree, JsonValue};
use crate::text::{
    byte_is_alphanumeric, decimal, is_alphanumeric_byte, optional_number_text, quoted, quoted_text,
    show_optional_number, show_truth, str_eq, to_decimal, truth_text,
};
use vstd::string::*;

verus! {

/// The providers that the gateway knows.
#[derive(Clone, Copy, Debug, PartialEq, Eq, Structural)]
pub enum ProviderId {
    Codex,
    Deepseek,
    Qwen,
    Relay,
    OpenaiCustom,
    OpenaiResponses,
}

impl ProviderId {
    /// The provider that an adapter name stands for.
    pub open spec fn of_adapter(adapter: Seq<char>) -> Option<ProviderId> {
        if adapter == "codex"@ {
            Some(ProviderId::Codex)
        } else if adapter == "deepseek"@ {
            Some(ProviderId::Deepseek)
        } else if adapter == "qwen"@ {
            Some(ProviderId::Qwen)
        } else if adapter == "relay"@ {
            Some(ProviderId::Relay)
        } else if adapter == "openai-custom"@ {
            Some(ProviderId::OpenaiCustom)
        } else if adapter == "openai-responses"@ {
            Some(ProviderId::OpenaiResponses)
        } else {
            None
        }
    }

    pub fn from_adapter(adapter: &str) -> (provider: Option<ProviderId>)
        ensures
            provider == Self::of_adapter(adapter@),
    {
        if str_eq(adapter, "codex") {
            Some(ProviderId::Codex)
        } else if str_eq(adapter, "deepseek") {
            Some(ProviderId::Deepseek)
        } else if str_eq(adapter, "qwen") {
            Some(ProviderId::Qwen)
        } else if str_eq(adapter, "relay") {
            Some(ProviderId::Relay)
        } else if str_eq(adapter, "openai-custom") {
            Some(ProviderId::OpenaiCustom)
        } else if str_eq(adapter, "openai-responses") {
            Some(ProviderId::OpenaiResponses)
        } else {
            None
        }
    }
}

impl ProviderId {
    /// The provider's name in error bodies and diagnostics.
    pub open spec fn name(self) -> Seq<char> {
        match self {
            ProviderId::Codex => "codex"@,
            ProviderId::Deepseek => "deepseek"@,
            ProviderId::Qwen => "qwen"@,
            ProviderId::Relay => "relay"@,
            ProviderId::OpenaiCustom => "openai_custom"@,
            ProviderId::OpenaiResponses => "openai_responses"@,
        }
    }

    pub fn as_str(&self) -> (name: &'static str)
        ensures
            name@ == self.name(),
    {
        match self {
            ProviderId::Codex => "codex",
            ProviderId::Deepseek => "deepseek",
            ProviderId::Qwen => "qwen",
            ProviderId::Relay => "relay",
            ProviderId::OpenaiCustom => "openai_custom",
            ProviderId::OpenaiResponses => "openai_responses",
        }
    }
}

/// The request shapes that the gateway sends upstream.
#[derive(Clone, Copy, Debug, PartialEq, Eq, Structural)]
pub enum RouteMode {
    Responses,
    ResponsesLite,
    AnthropicMessages,
    OpenaiChat,
    OpenaiResponses,
}

impl RouteMode {
    /// The route of an API-key transport.
    pub open spec fn of_api_key_transport(transport: Seq<char>) -> Option<RouteMode> {
        if transport == "anthropic_messages"@ {
            Some(RouteMode::AnthropicMessages)
        } else if transport == "openai_chat"@ {
            Some(RouteMode::OpenaiChat)
        } else if transport == "openai_responses"@ {
            Some(RouteMode::OpenaiResponses)
        } else {
            None
        }
    }

    pub fn from_api_key_transport(transport: &str) -> (route: Option<RouteMode>)
        ensures
            route == Self::of_api_key_transport(transport@),
    {
        if str_eq(transport, "anthropic_messages") {
            Some(RouteMode::AnthropicMessages)
        } else if str_eq(transport, "openai_chat") {
            Some(RouteMode::OpenaiChat)
        } else if str_eq(transport, "openai_responses") {
            Some(RouteMode::OpenaiResponses)
        } else {
            None
        }
    }

    pub open spec fn name(self) -> Seq<char> {
        match self {
            RouteMode::Responses => "responses"@,
            RouteMode::ResponsesLite => "responses_lite"@,
            RouteMode::AnthropicMessages => "anthropic_messages"@,
            RouteMode::OpenaiChat => "openai_chat"@,
            RouteMode::OpenaiResponses => "openai_responses"@,
        }
    }

    pub fn as_str(&self) -> (name: &'static str)
        ensures
            name@ == self.name(),
    {
        match self {
            RouteMode::Responses => "responses",
            RouteMode::ResponsesLite => "responses_lite",
            RouteMode::AnthropicMessages => "anthropic_messages",
            RouteMode::OpenaiChat => "openai_chat",
            RouteMode::OpenaiResponses => "openai_responses",
        }
    }

    /// Whether only the Codex provider is spoken to this way.
    pub open spec fn is_codex(self) -> bool {
        self is Responses || self is ResponsesLite
    }
}

/// `[0-9A-Za-z._:-]`, the alphabet of identifiers that may be shown and logged.
pub open spec fn is_id_byte(byte: u8) -> bool {
    is_alphanumeric_byte(byte) || byte == 0x2d || byte == 0x5f || byte == 0x2e || byte == 0x3a
}

/// A text of 1 to 256 identifier characters.
pub open spec fn valid_id(text: Seq<char>) -> bool {
    &&& 0 < text.len() <= 256
    &&& is_ascii_chars(text)
    &&& forall|i: int| 0 <= i < text.len() ==> is_id_byte(#[trigger] text[i] as u8)
}

/// An identifier that a provider gave to one of its replies.
#[derive(Debug, PartialEq, Eq)]
pub struct RequestId(String);

impl View for RequestId {
    type V = Seq<char>;

    closed spec fn view(&self) -> Seq<char> {
        self.0@
    }
}

impl Clone for RequestId {
    fn clone(&self) -> (copy: Self)
        ensures
            copy == *self,
    {
        RequestId(self.0.clone())
    }
}

impl RequestId {
    pub fn new(value: &str) -> (id: Option<RequestId>)
        ensures
            id is Some <==> valid_id(value@),
            id matches Some(id) ==> id@ == value@,
    {
        if Self::is_valid(value) {
            Some(RequestId(value.to_owned()))
        } else {
            None
        }
    }

    pub fn is_valid(value: &str) -> (valid: bool)
        ensures
            valid == valid_id(value@),
    {
        if !value.is_ascii() {
            return false;
        }
        let bytes = value.as_bytes();
        proof {
            vstd::string::is_ascii_spec_bytes(value);
        }
        if bytes.len() == 0 || bytes.len() > 256 {
            return false;
        }
        let mut i: usize = 0;
        while i < bytes.len()
            invariant
                i <= bytes.len(),
                bytes@.len() == value@.len(),
                0 < value@.len() <= 256,
                value.is_ascii(),
                forall|k: int| 0 <= k < bytes@.len() ==> bytes@[k] == value@[k] as u8,
                forall|k: int| 0 <= k < i ==> is_id_byte(#[trigger] bytes@[k]),
            decreases bytes.len() - i,
        {
            let byte = bytes[i];
            if !(byte_is_alphanumeric(byte) || byte == 0x2d || byte == 0x5f || byte == 0x2e
                || byte == 0x3a) {
                assert(!is_id_byte(value@[i as int] as u8));
                return false;
            }
            i += 1;
        }
        assert forall|k: int| 0 <= k < value@.len() implies is_id_byte(
            #[trigger] value@[k] as u8,
        ) by {
            assert(is_id_byte(bytes@[k]));
        }
        true
    }

    pub fn as_str(&self) -> (text: &str)
        ensures
            text@ == self@,
    {
        self.0.as_str()
    }
}

/// The identifier that ties a caller's request to its diagnostics.
#[derive(Debug, PartialEq, Eq)]
pub struct CorrelationId(String);

impl View for CorrelationId {
    type V = Seq<char>;

    closed spec fn view(&self) -> Seq<char> {
        self.0@
    }
}

impl Clone for CorrelationId {
    fn clone(&self) -> (copy: Self)
        ensures
            copy == *self,
    {
        CorrelationId(self.0.clone())
    }
}

impl CorrelationId {
    pub fn new(value: &str) -> (id: Option<CorrelationId>)
        ensures
            id is Some <==> valid_id(value@),
            id matches Some(id) ==> id@ == value@,
    {
        if RequestId::is_valid(value) {
            Some(CorrelationId(value.to_owned()))
        } else {
            None
        }
    }

    pub fn as_str(&self) -> (text: &str)
        ensures
            text@ == self@,
    {
        self.0.as_str()
    }
}

#[derive(Clone, Copy, Debug, PartialEq, Eq, Structural)]
pub enum RateKind {
    RateLimit,
    Quota,
}

#[derive(Clone, Copy, Debug, PartialEq, Eq, Structural)]
pub enum ErrorCode {
    Absent,
    UnsupportedValue,
    InsufficientQuota,
    RateLimitError,
    RateLimitExceeded,
    Other,
}

#[derive(Clone, Copy, Debug, PartialEq, Eq, Structural)]
pub enum ErrorParam {
    Absent,
    ToolChoice,
    Other,
}

#[derive(Clone, Copy, Debug, PartialEq, Eq, Structural)]
pub enum NetworkKind {
    Connect,
    Timeout,
    Read,
}

#[derive(Clone, Copy, Debug, PartialEq, Eq, Structural)]
pub enum ProtocolKind {
    InvalidResponse,
}

/// How one attempt to reach a provider ended.
#[derive(Debug, PartialEq, Eq)]
pub enum FailureObservation {
    Http {
        status: u16,
        rate_kind: Option<RateKind>,
        retry_after_seconds: Option<u64>,
        request_id: Option<RequestId>,
        error_code: ErrorCode,
        error_param: ErrorParam,
    },
    Network(NetworkKind),
    Protocol(ProtocolKind),
    Cancelled,
}

impl Clone for FailureObservation {
    fn clone(&self) -> (copy: Self)
        ensures
            copy == *self,
    {
        match self {
            FailureObservation::Http {
                status,
                rate_kind,
                retry_after_seconds,
                request_id,
                error_code,
                error_param,
            } => FailureObservation::Http {
                status: *status,
                rate_kind: *rate_kind,
                retry_after_seconds: *retry_after_seconds,
                request_id: match request_id {
                    Some(id) => Some(id.clone()),
                    None => None,
                },
                error_code: *error_code,
                error_param: *error_param,
            },
            FailureObservation::Network(kind) => FailureObservation::Network(*kind),
            FailureObservation::Protocol(kind) => FailureObservation::Protocol(*kind),
            FailureObservation::Cancelled => FailureObservation::Cancelled,
        }
    }
}

impl FailureObservation {
    /// The provider answered with this status.
    pub open spec fn has_status(self, wanted: u16) -> bool {
        self matches FailureObservation::Http { status, .. } && status == wanted
    }

    /// The provider answered with an exhausted account quota.
    pub open spec fn is_quota(self) -> bool {
        self matches FailureObservation::Http { status, rate_kind, .. } && status == 429 && rate_kind
            == Some(RateKind::Quota)
    }

    /// The provider named the tool choice as the one unsupported value.
    pub open spec fn is_tool_choice_rejection(self) -> bool {
        self matches FailureObservation::Http { status, error_code, error_param, .. } && status
            == 400 && error_code is UnsupportedValue && error_param is ToolChoice
    }
}

/// When a failed request may be sent again.
#[derive(Clone, Copy, Debug, PartialEq, Eq)]
pub struct RetryPolicy {
    pub max_posts: u8,
    pub fallback_delays_ms: [u64; 2],
    pub retry_after_cap_seconds: u64,
    pub retry_408: bool,
    pub retry_409: bool,
    pub retry_429: bool,
    pub retry_5xx: bool,
    pub retry_connect: bool,
    pub retry_timeout: bool,
    pub retry_unknown_429: bool,
}

impl RetryPolicy {
    /// There is a fallback delay for every retry, and a delay in milliseconds fits.
    pub open spec fn wf(self) -> bool {
        &&& self.max_posts <= 3
        &&& self.retry_after_cap_seconds * 1_000 <= u64::MAX
    }

    /// What the shipped policies have in common.
    pub open spec fn shipped(self, retry_409: bool, retry_unknown_429: bool) -> bool {
        &&& self.max_posts == 3
        &&& self.fallback_delays_ms@ == seq![500u64, 1_000u64]
        &&& self.retry_after_cap_seconds == 60
        &&& self.retry_408 && self.retry_429 && self.retry_5xx
        &&& self.retry_connect && self.retry_timeout
        &&& self.retry_409 == retry_409
        &&& self.retry_unknown_429 == retry_unknown_429
    }

    fn with_rules(retry_409: bool, retry_unknown_429: bool) -> (policy: Self)
        ensures
            policy.shipped(retry_409, retry_unknown_429),
            policy.wf(),
    {
        let policy = RetryPolicy {
            max_posts: 3,
            fallback_delays_ms: [500, 1_000],
            retry_after_cap_seconds: 60,
            retry_408: true,
            retry_409,
            retry_429: true,
            retry_5xx: true,
            retry_connect: true,
            retry_timeout: true,
            retry_unknown_429,
        };
        assert(policy.fallback_delays_ms@ =~= seq![500u64, 1_000u64]);
        policy
    }

    /// The Codex policy: conflicts and broken reads are retried, a 429 that names
    /// no reason is not.
    pub fn codex() -> (policy: Self)
        ensures
            policy.shipped(true, false),
            policy.wf(),
    {
        Self::with_rules(true, false)
    }

    pub fn anthropic_messages() -> (policy: Self)
        ensures
            policy.shipped(false, true),
            policy.wf(),
    {
        Self::with_rules(false, true)
    }

    pub fn openai_chat() -> (policy: Self)
        ensures
            policy.shipped(true, true),
            policy.wf(),
    {
        Self::with_rules(true, true)
    }

    pub fn openai_responses() -> (policy: Self)
        ensures
            policy.shipped(true, true),
            policy.wf(),
    {
        Self::with_rules(true, true)
    }

    /// This is the Codex policy.
    pub open spec fn is_codex(self) -> bool {
        self.shipped(true, false)
    }

    fn equals_codex(&self) -> (same: bool)
        ensures
            same == self.is_codex(),
    {
        let same = self.max_posts == 3 && self.fallback_delays_ms[0] == 500
            && self.fallback_delays_ms[1] == 1_000 && self.retry_after_cap_seconds == 60
            && self.retry_408 && self.retry_409 && self.retry_429 && self.retry_5xx
            && self.retry_connect && self.retry_timeout && !self.retry_unknown_429;
        proof {
            let delays = self.fallback_delays_ms@;
            if delays[0] == 500 && delays[1] == 1_000 {
                assert(delays =~= seq![500u64, 1_000u64]);
            }
        }
        same
    }

    /// Whether the policy lets a request be sent again after `observation`. Only
    /// the Codex policy does so after a broken read.
    pub open spec fn permits(self, observation: FailureObservation) -> bool {
        match observation {
            FailureObservation::Http { status, rate_kind, .. } => {
                if status == 408 {
                    self.retry_408
                } else if status == 409 {
                    self.retry_409
                } else if status == 429 {
                    self.retry_429 && (rate_kind is Some || self.retry_unknown_429)
                } else {
                    500 <= status <= 599 && self.retry_5xx
                }
            },
            FailureObservation::Network(NetworkKind::Connect) => self.retry_connect,
            FailureObservation::Network(NetworkKind::Timeout) => self.retry_timeout,
            FailureObservation::Network(NetworkKind::Read) => self.is_codex(),
            FailureObservation::Protocol(_) => false,
            FailureObservation::Cancelled => false,
        }
    }

    pub fn allows(&self, observation: &FailureObservation) -> (allowed: bool)
        ensures
            allowed == self.permits(*observation),
    {
        match observation {
            FailureObservation::Http { status, rate_kind, .. } => {
                if *status == 408 {
                    self.retry_408
                } else if *status == 409 {
                    self.retry_409
                } else if *status == 429 {
                    self.retry_429 && (rate_kind.is_some() || self.retry_unknown_429)
                } else {
                    500 <= *status && *status <= 599 && self.retry_5xx
                }
            },
            FailureObservation::Network(NetworkKind::Connect) => self.retry_connect,
            FailureObservation::Network(NetworkKind::Timeout) => self.retry_timeout,
            FailureObservation::Network(NetworkKind::Read) => self.equals_codex(),
            FailureObservation::Protocol(_) => false,
            FailureObservation::Cancelled => false,
        }
    }
}

/// Where a request goes and under which rules.
#[derive(Debug, PartialEq, Eq)]
pub struct RouteContext {
    pub provider: ProviderId,
    pub route: RouteMode,
    pub correlation_id: CorrelationId,
    pub retry_policy: RetryPolicy,
}

impl Clone for RouteContext {
    fn clone(&self) -> (copy: Self)
        ensures
            copy == *self,
    {
        RouteContext {
            provider: self.provider,
            route: self.route,
            correlation_id: self.correlation_id.clone(),
            retry_policy: self.retry_policy,
        }
    }
}

impl RouteContext {
    pub fn codex(route: RouteMode, correlation_id: CorrelationId) -> (context: Self)
        ensures
            context.provider is Codex,
            context.route == route,
            context.correlation_id == correlation_id,
            context.retry_policy.shipped(true, false),
            context.retry_policy.wf(),
    {
        RouteContext {
            provider: ProviderId::Codex,
            route,
            correlation_id,
            retry_policy: RetryPolicy::codex(),
        }
    }

    /// A context for a provider that is reached with an API key. Nothing of Codex
    /// may be in it.
    pub fn api_key(
        provider: ProviderId,
        route: RouteMode,
        correlation_id: CorrelationId,
        retry_policy: RetryPolicy,
    ) -> (context: Self)
        requires
            !(provider is Codex),
            !route.is_codex(),
            !retry_policy.is_codex(),
        ensures
            context == (RouteContext { provider, route, correlation_id, retry_policy }),
    {
        RouteContext { provider, route, correlation_id, retry_policy }
    }
}

#[derive(Clone, Copy, Debug, PartialEq, Eq, Structural)]
pub enum FailureClass {
    Authentication,
    Authorization,
    InvalidRequest,
    Capability,
    Quota,
    RateLimit,
    Transient,
    Network,
    Protocol,
}

impl FailureClass {
    /// The name that a developer is shown.
    pub open spec fn title(self) -> Seq<char> {
        match self {
            FailureClass::Authentication => "Authentication"@,
            FailureClass::Authorization => "Authorization"@,
            FailureClass::InvalidRequest => "InvalidRequest"@,
            FailureClass::Capability => "Capability"@,
            FailureClass::Quota => "Quota"@,
            FailureClass::RateLimit => "RateLimit"@,
            FailureClass::Transient => "Transient"@,
            FailureClass::Network => "Network"@,
            FailureClass::Protocol => "Protocol"@,
        }
    }

    pub fn as_title(self) -> (text: &'static str)
        ensures
            text@ == self.title(),
    {
        match self {
            FailureClass::Authentication => "Authentication",
            FailureClass::Authorization => "Authorization",
            FailureClass::InvalidRequest => "InvalidRequest",
            FailureClass::Capability => "Capability",
            FailureClass::Quota => "Quota",
            FailureClass::RateLimit => "RateLimit",
            FailureClass::Transient => "Transient",
            FailureClass::Network => "Network",
            FailureClass::Protocol => "Protocol",
        }
    }

    pub open spec fn name(self) -> Seq<char> {
        match self {
            FailureClass::Authentication => "authentication"@,
            FailureClass::Authorization => "authorization"@,
            FailureClass::InvalidRequest => "invalid_request"@,
            FailureClass::Capability => "capability"@,
            FailureClass::Quota => "quota"@,
            FailureClass::RateLimit => "rate_limit"@,
            FailureClass::Transient => "transient"@,
            FailureClass::Network => "network"@,
            FailureClass::Protocol => "protocol"@,
        }
    }

    pub fn as_str(&self) -> (name: &'static str)
        ensures
            name@ == self.name(),
    {
        match self {
            FailureClass::Authentication => "authentication",
            FailureClass::Authorization => "authorization",
            FailureClass::InvalidRequest => "invalid_request",
            FailureClass::Capability => "capability",
            FailureClass::Quota => "quota",
            FailureClass::RateLimit => "rate_limit",
            FailureClass::Transient => "transient",
            FailureClass::Network => "network",
            FailureClass::Protocol => "protocol",
        }
    }

    /// Failures of these classes pass by themselves.
    pub open spec fn passes(self) -> bool {
        self is RateLimit || self is Transient || self is Network
    }
}

#[derive(Clone, Copy, Debug, PartialEq, Eq, Structural)]
pub enum AttemptOutcome {
    Completed,
    Failed,
    Cancelled,
}

impl AttemptOutcome {
    pub open spec fn name(self) -> Seq<char> {
        match self {
            AttemptOutcome::Completed => "completed"@,
            AttemptOutcome::Failed => "failed"@,
            AttemptOutcome::Cancelled => "cancelled"@,
        }
    }

    pub fn as_str(&self) -> (name: &'static str)
        ensures
            name@ == self.name(),
    {
        match self {
            AttemptOutcome::Completed => "completed",
            AttemptOutcome::Failed => "failed",
            AttemptOutcome::Cancelled => "cancelled",
        }
    }
}

/// What the caller is told of a failure.
#[derive(Debug, PartialEq, Eq)]
pub struct ProviderFailure {
    pub status: u16,
    pub error_type: &'static str,
    pub message: &'static str,
    pub context: RouteContext,
    pub failure_class: FailureClass,
    pub upstream_status: Option<u16>,
    pub retryable: bool,
    pub recovery: &'static str,
    pub request_id: Option<RequestId>,
    pub retry_after_seconds: Option<u64>,
}

/// The class of a failure on a route.
pub open spec fn class_of(route: RouteMode, observation: FailureObservation) -> FailureClass {
    match observation {
        FailureObservation::Http { status, rate_kind, error_code, error_param, .. } => {
            if status == 401 {
                FailureClass::Authentication
            } else if status == 403 {
                FailureClass::Authorization
            } else if status == 400 && (error_code is UnsupportedValue || error_param is ToolChoice) {
                FailureClass::Capability
            } else if status == 429 {
                if rate_kind == Some(RateKind::Quota) {
                    FailureClass::Quota
                } else {
                    FailureClass::RateLimit
                }
            } else if status == 408 || 500 <= status <= 599 || (status == 409 && !(
            route is AnthropicMessages)) {
                FailureClass::Transient
            } else if 400 <= status <= 499 {
                FailureClass::InvalidRequest
            } else {
                FailureClass::Protocol
            }
        },
        FailureObservation::Network(_) => FailureClass::Network,
        FailureObservation::Protocol(_) => FailureClass::Protocol,
        FailureObservation::Cancelled => FailureClass::Protocol,
    }
}

/// The status that the caller sees: the provider's own, unless it would mislead.
/// A redirect reaches the caller only on the OpenAI chat route.
pub open spec fn mapped_status(route: RouteMode, observation: FailureObservation) -> u16 {
    let class = class_of(route, observation);
    match observation {
        FailureObservation::Http { status, .. } => {
            if class is Transient {
                if status == 408 {
                    504
                } else {
                    502
                }
            } else if class is Protocol {
                if route is OpenaiChat && 300 <= status <= 399 {
                    status
                } else {
                    502
                }
            } else {
                status
            }
        },
        FailureObservation::Network(NetworkKind::Timeout) => 504,
        _ => 502,
    }
}

pub open spec fn error_type_of(class: FailureClass) -> &'static str {
    match class {
        FailureClass::Authentication => "authentication_error",
        FailureClass::Authorization => "permission_error",
        FailureClass::InvalidRequest => "invalid_request_error",
        FailureClass::Capability => "invalid_request_error",
        FailureClass::Quota => "rate_limit_error",
        FailureClass::RateLimit => "rate_limit_error",
        FailureClass::Transient => "api_error",
        FailureClass::Network => "api_error",
        FailureClass::Protocol => "api_error",
    }
}

pub open spec fn message_of(class: FailureClass, observation: FailureObservation) -> &'static str {
    match class {
        FailureClass::Authentication => "Provider authentication failed",
        FailureClass::Authorization => "Provider authorization failed",
        FailureClass::InvalidRequest => "Provider rejected the request",
        FailureClass::Capability => "Provider Route cannot preserve this request",
        FailureClass::Quota => "Provider quota prevents this request",
        FailureClass::RateLimit => "Provider rate limit prevents this request",
        FailureClass::Transient => "Provider transient failure exhausted retry budget",
        FailureClass::Network => "Provider network failure exhausted retry budget",
        FailureClass::Protocol => if observation is Http {
            "Provider returned an unsupported status"
        } else {
            "Provider response violated the expected protocol"
        },
    }
}

pub open spec fn recovery_of(class: FailureClass) -> &'static str {
    match class {
        FailureClass::Authentication => "Re-authenticate, then start a new caller request",
        FailureClass::Authorization => "Check account, workspace, geography, and model entitlement",
        FailureClass::InvalidRequest => "Correct the request or select a compatible model",
        FailureClass::Capability => "Use equivalent supported request semantics or select a compatible model",
        FailureClass::Quota => "Restore account quota before starting a new request",
        FailureClass::RateLimit => "Wait for rate capacity before starting a new request",
        FailureClass::Transient => "Start a new request after the provider recovers",
        FailureClass::Network => "Check the network route before starting a new request",
        FailureClass::Protocol => "Inspect sanitized diagnostics and start a new request",
    }
}

impl ProviderFailure {
    /// What the caller is told of `observation`, where `exhausted` says that the
    /// request would have been retried had the budget allowed it.
    pub open spec fn of(
        context: RouteContext,
        observation: FailureObservation,
        exhausted: bool,
    ) -> ProviderFailure {
        let class = class_of(context.route, observation);
        ProviderFailure {
            status: mapped_status(context.route, observation),
            error_type: error_type_of(class),
            message: message_of(class, observation),
            context,
            failure_class: class,
            upstream_status: match observation {
                FailureObservation::Http { status, .. } => Some(status),
                _ => None,
            },
            retryable: exhausted && class.passes(),
            recovery: recovery_of(class),
            request_id: match observation {
                FailureObservation::Http { request_id, .. } => request_id,
                _ => None,
            },
            retry_after_seconds: match observation {
                FailureObservation::Http { retry_after_seconds, .. } => retry_after_seconds,
                _ => None,
            },
        }
    }

    fn class(route: RouteMode, observation: &FailureObservation) -> (class: FailureClass)
        ensures
            class == class_of(route, *observation),
    {
        match observation {
            FailureObservation::Http { status, rate_kind, error_code, error_param, .. } => {
                let status = *status;
                if status == 401 {
                    FailureClass::Authentication
                } else if status == 403 {
                    FailureClass::Authorization
                } else if status == 400 && (*error_code == ErrorCode::UnsupportedValue
                    || *error_param == ErrorParam::ToolChoice) {
                    FailureClass::Capability
                } else if status == 429 {
                    match rate_kind {
                        Some(RateKind::Quota) => FailureClass::Quota,
                        _ => FailureClass::RateLimit,
                    }
                } else if status == 408 || (500 <= status && status <= 599) || (status == 409
                    && route != RouteMode::AnthropicMessages) {
                    FailureClass::Transient
                } else if 400 <= status && status <= 499 {
                    FailureClass::InvalidRequest
                } else {
                    FailureClass::Protocol
                }
            },
            FailureObservation::Network(_) => FailureClass::Network,
            FailureObservation::Protocol(_) => FailureClass::Protocol,
            FailureObservation::Cancelled => FailureClass::Protocol,
        }
    }

    fn caller_status(
        route: RouteMode,
        class: FailureClass,
        observation: &FailureObservation,
    ) -> (mapped: u16)
        requires
            class == class_of(route, *observation),
        ensures
            mapped == mapped_status(route, *observation),
    {
        match observation {
            FailureObservation::Http { status, .. } => {
                let status = *status;
                match class {
                    FailureClass::Transient => if status == 408 {
                        504
                    } else {
                        502
                    },
                    FailureClass::Protocol => if route == RouteMode::OpenaiChat && 300 <= status
                        && status <= 399 {
                        status
                    } else {
                        502
                    },
                    _ => status,
                }
            },
            FailureObservation::Network(NetworkKind::Timeout) => 504,
            _ => 502,
        }
    }

    /// A cancellation is no failure to tell of.
    pub fn from_observation(
        context: &RouteContext,
        observation: &FailureObservation,
        exhausted: bool,
    ) -> (failure: ProviderFailure)
        requires
            !(observation is Cancelled),
        ensures
            failure == Self::of(*context, *observation, exhausted),
    {
        let class = Self::class(context.route, observation);
        let (upstream_status, request_id, retry_after_seconds) = match observation {
            FailureObservation::Http { status, request_id, retry_after_seconds, .. } => {
                let copy = match request_id {
                    Some(id) => Some(id.clone()),
                    None => None,
                };
                (Some(*status), copy, *retry_after_seconds)
            },
            _ => (None, None, None),
        };
        let (error_type, message, recovery) = match class {
            FailureClass::Authentication => (
                "authentication_error",
                "Provider authentication failed",
                "Re-authenticate, then start a new caller request",
            ),
            FailureClass::Authorization => (
                "permission_error",
                "Provider authorization failed",
                "Check account, workspace, geography, and model entitlement",
            ),
            FailureClass::InvalidRequest => (
                "invalid_request_error",
                "Provider rejected the request",
                "Correct the request or select a compatible model",
            ),
            FailureClass::Capability => (
                "invalid_request_error",
                "Provider Route cannot preserve this request",
                "Use equivalent supported request semantics or select a compatible model",
            ),
            FailureClass::Quota => (
                "rate_limit_error",
                "Provider quota prevents this request",
                "Restore account quota before starting a new request",
            ),
            FailureClass::RateLimit => (
                "rate_limit_error",
                "Provider rate limit prevents this request",
                "Wait for rate capacity before starting a new request",
            ),
            FailureClass::Transient => (
                "api_error",
                "Provider transient failure exhausted retry budget",
                "Start a new request after the provider recovers",
            ),
            FailureClass::Network => (
                "api_error",
                "Provider network failure exhausted retry budget",
                "Check the network route before starting a new request",
            ),
            FailureClass::Protocol => (
                "api_error",
                if upstream_status.is_some() {
                    "Provider returned an unsupported status"
                } else {
                    "Provider response violated the expected protocol"
                },
                "Inspect sanitized diagnostics and start a new request",
            ),
        };
        let passes = match class {
            FailureClass::RateLimit | FailureClass::Transient | FailureClass::Network => true,
            _ => false,
        };
        ProviderFailure {
            status: Self::caller_status(context.route, class, observation),
            error_type,
            message,
            context: context.clone(),
            failure_class: class,
            upstream_status,
            retryable: exhausted && passes,
            recovery,
            request_id,
            retry_after_seconds,
        }
    }

    pub fn status(&self) -> (status: u16)
        ensures
            status == self.status,
    {
        self.status
    }

    pub fn failure_class(&self) -> (class: FailureClass)
        ensures
            class == self.failure_class,
    {
        self.failure_class
    }

    pub fn retryable(&self) -> (retryable: bool)
        ensures
            retryable == self.retryable,
    {
        self.retryable
    }

    /// The fields of the `error` object that the caller gets. What is not known is
    /// left out.
    pub open spec fn error_fields(self) -> Seq<(Seq<char>, JsonTree)> {
        let always = seq![
            ("type"@, JsonTree::Text(self.error_type@)),
            ("message"@, JsonTree::Text(self.message@)),
            ("provider"@, JsonTree::Text(self.context.provider.name())),
            ("route"@, JsonTree::Text(self.context.route.name())),
            ("failure_class"@, JsonTree::Text(self.failure_class.name())),
            ("retryable"@, JsonTree::Bool(self.retryable)),
            ("correlation_id"@, JsonTree::Text(self.context.correlation_id@)),
            ("recovery"@, JsonTree::Text(self.recovery@)),
        ];
        let with_status = match self.upstream_status {
            Some(status) => always.push(("upstream_status"@, JsonTree::Number(status as u64))),
            None => always,
        };
        let with_id = match self.request_id {
            Some(id) => with_status.push(("request_id"@, JsonTree::Text(id@))),
            None => with_status,
        };
        match self.retry_after_seconds {
            Some(seconds) => with_id.push(
                (
                    "retry_after_seconds"@,
                    JsonTree::Number(
                        if seconds < 60 {
                            seconds
                        } else {
                            60
                        },
                    ),
                ),
            ),
            None => with_id,
        }
    }

    /// What may be logged of a failure.
    pub open spec fn shown(self) -> Seq<char> {
        "ProviderFailure { status: "@ + decimal(self.status as nat) + ", error_type: "@
            + quoted_text(self.error_type@) + ", failure_class: "@ + self.failure_class.title()
            + ", upstream_status: "@ + optional_number_text(self.upstream_status)
            + ", retryable: "@ + truth_text(self.retryable) + ", correlation_id: "@ + quoted_text(
            self.context.correlation_id@,
        ) + " }"@
    }

    pub fn debug_text(&self) -> (text: String)
        ensures
            text@ == self.shown(),
    {
        let mut text = "ProviderFailure { status: ".to_owned();
        text.append(to_decimal(self.status as u64).as_str());
        text.append(", error_type: ");
        text.append(quoted(self.error_type).as_str());
        text.append(", failure_class: ");
        text.append(self.failure_class.as_title());
        text.append(", upstream_status: ");
        text.append(show_optional_number(self.upstream_status).as_str());
        text.append(", retryable: ");
        text.append(show_truth(self.retryable));
        text.append(", correlation_id: ");
        text.append(quoted(self.context.correlation_id.as_str()).as_str());
        text.append(" }");
        text
    }

    /// The body of the reply to the caller.
    pub fn anthropic_json(&self) -> (body: JsonValue)
        ensures
            body@ == JsonTree::Object(
                seq![
                    ("type"@, JsonTree::Text("error"@)),
                    ("error"@, JsonTree::Object(self.error_fields())),
                ],
            ),
    {
        let mut error = JsonFields::new();
        error.put_text("type", self.error_type);
        error.put_text("message", self.message);
        error.put_text("provider", self.context.provider.as_str());
        error.put_text("route", self.context.route.as_str());
        error.put_text("failure_class", self.failure_class.as_str());
        error.put_bool("retryable", self.retryable);
        error.put_text("correlation_id", self.context.correlation_id.as_str());
        error.put_text("recovery", self.recovery);
        if let Some(status) = self.upstream_status {
            error.put_number("upstream_status", status as u64);
        }
        if let Some(id) = &self.request_id {
            error.put_text("request_id", id.as_str());
        }
        if let Some(seconds) = self.retry_after_seconds {
            let shown: u64 = if seconds < 60 {
                seconds
            } else {
                60
            };
            error.put_number("retry_after_seconds", shown);
        }
        assert(error@ =~= self.error_fields());
        let mut body = JsonFields::new();
        body.put_text("type", "error");
        body.put("error", error.into_value());
        assert(body@ =~= seq![
            ("type"@, JsonTree::Text("error"@)),
            ("error"@, JsonTree::Object(self.error_fields())),
        ]);
        body.into_value()
    }
}

#[derive(Clone, Copy, Debug, PartialEq, Eq, Structural)]
pub enum RepairKind {
    OmitAutomaticToolChoice,
}

#[derive(Clone, Copy, Debug, PartialEq, Eq, Structural)]
pub enum AttemptPhase {
    Ready,
    InFlight,
    RetryAuthorized,
    RepairAuthorized,
    UpstreamOpen,
    TerminalPending(AttemptOutcome),
    Finalized(AttemptOutcome),
}

impl AttemptPhase {
    pub open spec fn is_over(self) -> bool {
        self is TerminalPending || self is Finalized
    }

    fn over(&self) -> (over: bool)
        ensures
            over == self.is_over(),
    {
        match self {
            AttemptPhase::TerminalPending(_) => true,
            AttemptPhase::Finalized(_) => true,
            _ => false,
        }
    }
}

/// What to do after a failed attempt.
#[derive(Debug, PartialEq, Eq)]
pub enum AttemptDirective {
    RetryAfter(u64),
    RepairOnce(RepairKind),
    Fail(ProviderFailure),
    Cancel,
}

#[derive(Clone, Copy, Debug, PartialEq, Eq, Structural)]
pub enum TransitionError {
    PostNotAuthorized,
    ObservationNotAuthorized,
    ResponseAlreadyStarted,
    FinalizationNotAuthorized,
}

/// What has been spent so far.
#[derive(Debug, PartialEq, Eq)]
pub struct AttemptSnapshot {
    pub posts: u8,
    pub repairs: u8,
    pub delays_ms: Vec<u64>,
    pub response_started: bool,
}

/// The record that is written once per caller request.
#[derive(Debug, PartialEq, Eq)]
pub struct AttemptDiagnostic {
    pub outcome: AttemptOutcome,
    pub provider: ProviderId,
    pub route: RouteMode,
    pub correlation_id: CorrelationId,
    pub posts: u8,
    pub repairs: u8,
    pub delays_ms: Vec<u64>,
    pub mapped_status: Option<u16>,
    pub upstream_status: Option<u16>,
    pub failure_class: Option<FailureClass>,
    pub retryable: Option<bool>,
}

/// The state of a request: what an [`AttemptController`] knows.
pub struct AttemptState {
    pub context: RouteContext,
    pub repair_enabled: bool,
    pub phase: AttemptPhase,
    pub posts: u8,
    pub repairs: u8,
    pub delays_ms: Seq<u64>,
    pub response_started: bool,
}

impl AttemptState {
    pub open spec fn initial(context: RouteContext, repair_enabled: bool) -> AttemptState {
        AttemptState {
            context,
            repair_enabled,
            phase: AttemptPhase::Ready,
            posts: 0,
            repairs: 0,
            delays_ms: Seq::empty(),
            response_started: false,
        }
    }

    /// How many posts the request may take.
    pub open spec fn post_limit(self) -> u8 {
        if self.repairs == 0 {
            self.context.retry_policy.max_posts
        } else {
            2
        }
    }

    /// Every post after the first was paid for with a delay or with the repair.
    pub open spec fn wf(self) -> bool {
        let spent = self.delays_ms.len() + self.repairs;
        &&& self.context.retry_policy.wf()
        &&& self.repairs <= 1
        &&& self.repairs == 1 ==> self.delays_ms.len() == 0
        &&& self.delays_ms.len() > 0 ==> self.delays_ms.len() < self.context.retry_policy.max_posts
        &&& self.posts <= self.post_limit()
        &&& match self.phase {
            AttemptPhase::Ready => self.posts == 0 && spent == 0 && !self.response_started,
            AttemptPhase::InFlight => self.posts == spent + 1 && !self.response_started,
            AttemptPhase::RetryAuthorized => {
                &&& self.posts == spent
                &&& self.posts >= 1
                &&& self.repairs == 0
                &&& self.posts < self.context.retry_policy.max_posts
                &&& !self.response_started
            },
            AttemptPhase::RepairAuthorized => {
                &&& self.posts == 1
                &&& self.repairs == 1
                &&& !self.response_started
            },
            AttemptPhase::UpstreamOpen => self.posts == spent + 1 && self.response_started,
            AttemptPhase::TerminalPending(_) => spent <= self.posts <= spent + 1,
            AttemptPhase::Finalized(_) => spent <= self.posts <= spent + 1,
        }
    }

    pub open spec fn may_post(self) -> bool {
        self.phase is Ready || self.phase is RetryAuthorized || self.phase is RepairAuthorized
    }

    /// Sending the request.
    pub open spec fn posted(self) -> Result<AttemptState, TransitionError> {
        if self.may_post() && self.posts < self.post_limit() {
            Ok(AttemptState { posts: (self.posts + 1) as u8, phase: AttemptPhase::InFlight, ..self })
        } else {
            Err(TransitionError::PostNotAuthorized)
        }
    }

    /// The reply to the request in flight begins.
    pub open spec fn opened(self) -> Result<AttemptState, TransitionError> {
        if self.phase is InFlight && !self.response_started {
            Ok(AttemptState { response_started: true, phase: AttemptPhase::UpstreamOpen, ..self })
        } else {
            Err(TransitionError::ResponseAlreadyStarted)
        }
    }

    pub open spec fn ended(self, outcome: AttemptOutcome) -> AttemptState {
        AttemptState { phase: AttemptPhase::TerminalPending(outcome), ..self }
    }

    pub open spec fn finalized(self, outcome: AttemptOutcome) -> AttemptState {
        AttemptState { phase: AttemptPhase::Finalized(outcome), ..self }
    }

    /// The tool choice may be left out once: on the first post of a Lite request.
    pub open spec fn may_repair(self, observation: FailureObservation) -> bool {
        &&& observation.is_tool_choice_rejection()
        &&& self.repair_enabled
        &&& self.context.route is ResponsesLite
        &&& self.posts == 1
        &&& self.repairs == 0
        &&& self.delays_ms.len() == 0
    }

    pub open spec fn is_retryable(self, observation: FailureObservation) -> bool {
        !observation.is_quota() && self.context.retry_policy.permits(observation)
    }

    pub open spec fn may_retry(self, observation: FailureObservation) -> bool {
        &&& self.repairs == 0
        &&& self.posts < self.context.retry_policy.max_posts
        &&& self.is_retryable(observation)
    }

    /// How long to wait: what the provider asked for, up to the cap, or else the
    /// fallback for this retry.
    pub open spec fn retry_delay(self, observation: FailureObservation) -> u64 {
        let policy = self.context.retry_policy;
        match observation {
            FailureObservation::Http { retry_after_seconds: Some(seconds), .. } => {
                let capped = if seconds < policy.retry_after_cap_seconds {
                    seconds
                } else {
                    policy.retry_after_cap_seconds
                };
                (capped * 1_000) as u64
            },
            _ => policy.fallback_delays_ms@[self.posts - 1],
        }
    }

    /// An attempt ended with `observation`.
    pub open spec fn observed(self, observation: FailureObservation) -> Result<
        (AttemptState, AttemptDirective),
        TransitionError,
    > {
        if observation is Cancelled {
            if self.phase.is_over() {
                Err(TransitionError::ObservationNotAuthorized)
            } else {
                Ok((self.ended(AttemptOutcome::Cancelled), AttemptDirective::Cancel))
            }
        } else if !(self.phase is InFlight || self.phase is UpstreamOpen) {
            Err(TransitionError::ObservationNotAuthorized)
        } else if self.response_started {
            Ok(
                (
                    self.ended(AttemptOutcome::Failed),
                    AttemptDirective::Fail(ProviderFailure::of(self.context, observation, false)),
                ),
            )
        } else if self.may_repair(observation) {
            Ok(
                (
                    AttemptState {
                        repairs: 1,
                        phase: AttemptPhase::RepairAuthorized,
                        ..self
                    },
                    AttemptDirective::RepairOnce(RepairKind::OmitAutomaticToolChoice),
                ),
            )
        } else if self.may_retry(observation) {
            let delay = self.retry_delay(observation);
            Ok(
                (
                    AttemptState {
                        delays_ms: self.delays_ms.push(delay),
                        phase: AttemptPhase::RetryAuthorized,
                        ..self
                    },
                    AttemptDirective::RetryAfter(delay),
                ),
            )
        } else {
            Ok(
                (
                    self.ended(AttemptOutcome::Failed),
                    AttemptDirective::Fail(
                        ProviderFailure::of(
                            self.context,
                            observation,
                            self.is_retryable(observation),
                        ),
                    ),
                ),
            )
        }
    }
}

impl AttemptDiagnostic {
    /// The record tells of this state and nothing of a failure.
    pub open spec fn records(self, outcome: AttemptOutcome, state: AttemptState) -> bool {
        &&& self.outcome == outcome
        &&& self.provider == state.context.provider
        &&& self.route == state.context.route
        &&& self.correlation_id == state.context.correlation_id
        &&& self.posts == state.posts
        &&& self.repairs == state.repairs
        &&& self.delays_ms@ == state.delays_ms
    }

    pub open spec fn tells_no_failure(self) -> bool {
        &&& self.mapped_status is None
        &&& self.upstream_status is None
        &&& self.failure_class is None
        &&& self.retryable is None
    }

    pub open spec fn tells_failure(self, failure: ProviderFailure) -> bool {
        &&& self.mapped_status == Some(failure.status)
        &&& self.upstream_status == failure.upstream_status
        &&& self.failure_class == Some(failure.failure_class)
        &&& self.retryable == Some(failure.retryable)
    }

    fn without_failure(
        outcome: AttemptOutcome,
        context: &RouteContext,
        snapshot: AttemptSnapshot,
    ) -> (diagnostic: Self)
        ensures
            diagnostic.outcome == outcome,
            diagnostic.provider == context.provider,
            diagnostic.route == context.route,
            diagnostic.correlation_id == context.correlation_id,
            diagnostic.posts == snapshot.posts,
            diagnostic.repairs == snapshot.repairs,
            diagnostic.delays_ms == snapshot.delays_ms,
            diagnostic.tells_no_failure(),
    {
        AttemptDiagnostic {
            outcome,
            provider: context.provider,
            route: context.route,
            correlation_id: context.correlation_id.clone(),
            posts: snapshot.posts,
            repairs: snapshot.repairs,
            delays_ms: snapshot.delays_ms,
            mapped_status: None,
            upstream_status: None,
            failure_class: None,
            retryable: None,
        }
    }

    pub fn failed(
        context: &RouteContext,
        posts: u8,
        repairs: u8,
        delays_ms: Vec<u64>,
        failure: &ProviderFailure,
    ) -> (diagnostic: Self)
        ensures
            diagnostic.outcome is Failed,
            diagnostic.provider == context.provider,
            diagnostic.route == context.route,
            diagnostic.correlation_id == context.correlation_id,
            diagnostic.posts == posts,
            diagnostic.repairs == repairs,
            diagnostic.delays_ms == delays_ms,
            diagnostic.tells_failure(*failure),
    {
        AttemptDiagnostic {
            outcome: AttemptOutcome::Failed,
            provider: context.provider,
            route: context.route,
            correlation_id: context.correlation_id.clone(),
            posts,
            repairs,
            delays_ms,
            mapped_status: Some(failure.status),
            upstream_status: failure.upstream_status,
            failure_class: Some(failure.failure_class),
            retryable: Some(failure.retryable),
        }
    }

    /// The fields of the written record. What is not known is left out.
    pub open spec fn fields(self) -> Seq<(Seq<char>, JsonTree)> {
        let always = seq![
            ("outcome"@, JsonTree::Text(self.outcome.name())),
            ("provider"@, JsonTree::Text(self.provider.name())),
            ("route"@, JsonTree::Text(self.route.name())),
            ("correlation_id"@, JsonTree::Text(self.correlation_id@)),
            ("posts"@, JsonTree::Number(self.posts as u64)),
            ("repairs"@, JsonTree::Number(self.repairs as u64)),
            (
                "delays_ms"@,
                JsonTree::List(
                    Seq::new(
                        self.delays_ms@.len(),
                        |i: int| JsonTree::Number(self.delays_ms@[i]),
                    ),
                ),
            ),
        ];
        let a = match self.mapped_status {
            Some(status) => always.push(("mapped_status"@, JsonTree::Number(status as u64))),
            None => always,
        };
        let b = match self.upstream_status {
            Some(status) => a.push(("upstream_status"@, JsonTree::Number(status as u64))),
            None => a,
        };
        let c = match self.failure_class {
            Some(class) => b.push(("failure_class"@, JsonTree::Text(class.name()))),
            None => b,
        };
        match self.retryable {
            Some(retryable) => c.push(("retryable"@, JsonTree::Bool(retryable))),
            None => c,
        }
    }

    pub fn to_json(&self) -> (json: JsonValue)
        ensures
            json@ == JsonTree::Object(self.fields()),
    {
        let mut delays: Vec<JsonValue> = Vec::new();
        let mut i: usize = 0;
        while i < self.delays_ms.len()
            invariant
                i <= self.delays_ms@.len(),
                delays@.len() == i,
                forall|k: int| 0 <= k < i ==> delays@[k] == JsonValue::Number(self.delays_ms@[k]),
            decreases self.delays_ms.len() - i,
        {
            delays.push(JsonValue::Number(self.delays_ms[i]));
            i += 1;
        }
        proof {
            crate::json::lemma_trees(delays@);
            assert(crate::json::trees(delays@) =~= Seq::new(
                self.delays_ms@.len(),
                |i: int| JsonTree::Number(self.delays_ms@[i]),
            ));
        }
        let mut fields = JsonFields::new();
        fields.put_text("outcome", self.outcome.as_str());
        fields.put_text("provider", self.provider.as_str());
        fields.put_text("route", self.route.as_str());
        fields.put_text("correlation_id", self.correlation_id.as_str());
        fields.put_number("posts", self.posts as u64);
        fields.put_number("repairs", self.repairs as u64);
        fields.put("delays_ms", JsonValue::List(delays));
        if let Some(status) = self.mapped_status {
            fields.put_number("mapped_status", status as u64);
        }
        if let Some(status) = self.upstream_status {
            fields.put_number("upstream_status", status as u64);
        }
        if let Some(class) = self.failure_class {
            fields.put_text("failure_class", class.as_str());
        }
        if let Some(retryable) = self.retryable {
            fields.put_bool("retryable", retryable);
        }
        assert(fields@ =~= self.fields());
        fields.into_value()
    }
}

/// Decides, for one caller request, when it is sent, sent again or given up.
pub struct AttemptController {
    context: RouteContext,
    repair_enabled: bool,
    phase: AttemptPhase,
    posts: u8,
    repairs: u8,
    delays_ms: Vec<u64>,
    response_started: bool,
}

impl View for AttemptController {
    type V = AttemptState;

    closed spec fn view(&self) -> AttemptState {
        AttemptState {
            context: self.context,
            repair_enabled: self.repair_enabled,
            phase: self.phase,
            posts: self.posts,
            repairs: self.repairs,
            delays_ms: self.delays_ms@,
            response_started: self.response_started,
        }
    }
}

impl AttemptController {
    pub open spec fn wf(self) -> bool {
        self@.wf()
    }

    pub fn new(context: RouteContext, repair_enabled: bool) -> (controller: Self)
        requires
            context.retry_policy.wf(),
        ensures
            controller.wf(),
            controller@ == AttemptState::initial(context, repair_enabled),
    {
        let controller = AttemptController {
            context,
            repair_enabled,
            phase: AttemptPhase::Ready,
            posts: 0,
            repairs: 0,
            delays_ms: Vec::new(),
            response_started: false,
        };
        assert(controller@.delays_ms =~= Seq::empty());
        controller
    }

    pub fn context(&self) -> (context: &RouteContext)
        ensures
            *context == self@.context,
    {
        &self.context
    }

    pub fn snapshot(&self) -> (snapshot: AttemptSnapshot)
        ensures
            snapshot.posts == self@.posts,
            snapshot.repairs == self@.repairs,
            snapshot.delays_ms@ == self@.delays_ms,
            snapshot.response_started == self@.response_started,
    {
        let delays_ms = self.delays_ms.clone();
        assert(delays_ms@ =~= self.delays_ms@);
        AttemptSnapshot {
            posts: self.posts,
            repairs: self.repairs,
            delays_ms,
            response_started: self.response_started,
        }
    }

    /// The record of a failed request. It can be had once.
    pub fn failed_diagnostic(&mut self, failure: &ProviderFailure) -> (result: Result<
        AttemptDiagnostic,
        TransitionError,
    >)
        requires
            old(self).wf(),
        ensures
            final(self).wf(),
            if old(self)@.phase == AttemptPhase::TerminalPending(AttemptOutcome::Failed) {
                &&& result matches Ok(diagnostic) && diagnostic.records(
                    AttemptOutcome::Failed,
                    old(self)@,
                ) && diagnostic.tells_failure(*failure)
                &&& final(self)@ == old(self)@.finalized(AttemptOutcome::Failed)
            } else {
                &&& result == Err::<AttemptDiagnostic, TransitionError>(
                    TransitionError::FinalizationNotAuthorized,
                )
                &&& final(self)@ == old(self)@
            },
    {
        match self.phase {
            AttemptPhase::TerminalPending(AttemptOutcome::Failed) => {},
            _ => {
                return Err(TransitionError::FinalizationNotAuthorized);
            },
        }
        self.phase = AttemptPhase::Finalized(AttemptOutcome::Failed);
        let snapshot = self.snapshot();
        Ok(
            AttemptDiagnostic::failed(
                &self.context,
                snapshot.posts,
                snapshot.repairs,
                snapshot.delays_ms,
                failure,
            ),
        )
    }

    /// Gives the request up for a reason of the gateway's own.
    pub fn internal_terminal_failure(&mut self) -> (result: Result<(), TransitionError>)
        requires
            old(self).wf(),
        ensures
            final(self).wf(),
            if old(self)@.phase.is_over() {
                &&& result == Err::<(), TransitionError>(TransitionError::ObservationNotAuthorized)
                &&& final(self)@ == old(self)@
            } else {
                &&& result is Ok
                &&& final(self)@ == old(self)@.ended(AttemptOutcome::Failed)
            },
    {
        if self.phase.over() {
            return Err(TransitionError::ObservationNotAuthorized);
        }
        self.phase = AttemptPhase::TerminalPending(AttemptOutcome::Failed);
        Ok(())
    }

    /// The record of a request whose reply was passed on whole.
    pub fn completed_diagnostic(&mut self) -> (result: Result<AttemptDiagnostic, TransitionError>)
        requires
            old(self).wf(),
        ensures
            final(self).wf(),
            if old(self)@.phase is UpstreamOpen {
                &&& result matches Ok(diagnostic) && diagnostic.records(
                    AttemptOutcome::Completed,
                    old(self)@,
                ) && diagnostic.tells_no_failure()
                &&& final(self)@ == old(self)@.finalized(AttemptOutcome::Completed)
            } else {
                &&& result == Err::<AttemptDiagnostic, TransitionError>(
                    TransitionError::FinalizationNotAuthorized,
                )
                &&& final(self)@ == old(self)@
            },
    {
        match self.phase {
            AttemptPhase::UpstreamOpen => {},
            _ => {
                return Err(TransitionError::FinalizationNotAuthorized);
            },
        }
        self.phase = AttemptPhase::Finalized(AttemptOutcome::Completed);
        let snapshot = self.snapshot();
        Ok(AttemptDiagnostic::without_failure(AttemptOutcome::Completed, &self.context, snapshot))
    }

    /// The record of a request that the caller abandoned.
    pub fn cancelled_diagnostic(&mut self) -> (result: Result<AttemptDiagnostic, TransitionError>)
        requires
            old(self).wf(),
        ensures
            final(self).wf(),
            if old(self)@.phase is UpstreamOpen || old(self)@.phase
                == AttemptPhase::TerminalPending(AttemptOutcome::Failed) || old(self)@.phase
                == AttemptPhase::TerminalPending(AttemptOutcome::Cancelled) {
                &&& result matches Ok(diagnostic) && diagnostic.records(
                    AttemptOutcome::Cancelled,
                    old(self)@,
                ) && diagnostic.tells_no_failure()
                &&& final(self)@ == old(self)@.finalized(AttemptOutcome::Cancelled)
            } else {
                &&& result == Err::<AttemptDiagnostic, TransitionError>(
                    TransitionError::FinalizationNotAuthorized,
                )
                &&& final(self)@ == old(self)@
            },
    {
        match self.phase {
            AttemptPhase::UpstreamOpen => {},
            AttemptPhase::TerminalPending(AttemptOutcome::Failed) => {},
            AttemptPhase::TerminalPending(AttemptOutcome::Cancelled) => {},
            _ => {
                return Err(TransitionError::FinalizationNotAuthorized);
            },
        }
        self.phase = AttemptPhase::Finalized(AttemptOutcome::Cancelled);
        let snapshot = self.snapshot();
        Ok(AttemptDiagnostic::without_failure(AttemptOutcome::Cancelled, &self.context, snapshot))
    }

    pub fn begin_post(&mut self) -> (result: Result<(), TransitionError>)
        requires
            old(self).wf(),
        ensures
            final(self).wf(),
            match old(self)@.posted() {
                Ok(next) => result is Ok && final(self)@ == next,
                Err(error) => result == Err::<(), TransitionError>(error) && final(self)@ == old(self)@,
            },
    {
        let authorized = match self.phase {
            AttemptPhase::Ready => true,
            AttemptPhase::RetryAuthorized => true,
            AttemptPhase::RepairAuthorized => true,
            _ => false,
        };
        let maximum: u8 = if self.repairs == 0 {
            self.context.retry_policy.max_posts
        } else {
            2
        };
        if !authorized || self.posts >= maximum {
            return Err(TransitionError::PostNotAuthorized);
        }
        self.posts += 1;
        self.phase = AttemptPhase::InFlight;
        Ok(())
    }

    pub fn mark_response_started(&mut self) -> (result: Result<(), TransitionError>)
        requires
            old(self).wf(),
        ensures
            final(self).wf(),
            match old(self)@.opened() {
                Ok(next) => result is Ok && final(self)@ == next,
                Err(error) => result == Err::<(), TransitionError>(error) && final(self)@ == old(self)@,
            },
    {
        let in_flight = match self.phase {
            AttemptPhase::InFlight => true,
            _ => false,
        };
        if !in_flight || self.response_started {
            return Err(TransitionError::ResponseAlreadyStarted);
        }
        self.response_started = true;
        self.phase = AttemptPhase::UpstreamOpen;
        Ok(())
    }

    pub fn observe(&mut self, observation: FailureObservation) -> (result: Result<
        AttemptDirective,
        TransitionError,
    >)
        requires
            old(self).wf(),
        ensures
            final(self).wf(),
            match old(self)@.observed(observation) {
                Ok((next, directive)) => result == Ok::<AttemptDirective, TransitionError>(
                    directive,
                ) && final(self)@ == next,
                Err(error) => result == Err::<AttemptDirective, TransitionError>(error) && final(self)@ == old(self)@,
            },
    {
        let cancelled = match &observation {
            FailureObservation::Cancelled => true,
            _ => false,
        };
        if cancelled {
            if self.phase.over() {
                return Err(TransitionError::ObservationNotAuthorized);
            }
            self.phase = AttemptPhase::TerminalPending(AttemptOutcome::Cancelled);
            return Ok(AttemptDirective::Cancel);
        }
        let observable = match self.phase {
            AttemptPhase::InFlight => true,
            AttemptPhase::UpstreamOpen => true,
            _ => false,
        };
        if !observable {
            return Err(TransitionError::ObservationNotAuthorized);
        }
        if self.response_started {
            self.phase = AttemptPhase::TerminalPending(AttemptOutcome::Failed);
            return Ok(
                AttemptDirective::Fail(
                    ProviderFailure::from_observation(&self.context, &observation, false),
                ),
            );
        }
        let (exact_repair, quota, override_seconds) = match &observation {
            FailureObservation::Http {
                status,
                rate_kind,
                retry_after_seconds,
                error_code,
                error_param,
                ..
            } => {
                let quota = *status == 429 && match rate_kind {
                    Some(RateKind::Quota) => true,
                    _ => false,
                };
                let repair = *status == 400 && *error_code == ErrorCode::UnsupportedValue
                    && *error_param == ErrorParam::ToolChoice;
                (repair, quota, *retry_after_seconds)
            },
            _ => (false, false, None),
        };
        let can_repair = exact_repair && self.repair_enabled && self.context.route
            == RouteMode::ResponsesLite && self.posts == 1 && self.repairs == 0
            && self.delays_ms.len() == 0;
        if can_repair {
            self.repairs = 1;
            self.phase = AttemptPhase::RepairAuthorized;
            return Ok(AttemptDirective::RepairOnce(RepairKind::OmitAutomaticToolChoice));
        }
        let policy_allows = self.context.retry_policy.allows(&observation);
        let retryable = !quota && policy_allows;
        let can_retry = self.repairs == 0 && self.posts < self.context.retry_policy.max_posts
            && retryable;
        if can_retry {
            let cap = self.context.retry_policy.retry_after_cap_seconds;
            let delay_ms: u64 = match override_seconds {
                Some(seconds) => {
                    let capped: u64 = if seconds < cap {
                        seconds
                    } else {
                        cap
                    };
                    capped * 1_000
                },
                None => self.context.retry_policy.fallback_delays_ms[(self.posts - 1) as usize],
            };
            self.delays_ms.push(delay_ms);
            self.phase = AttemptPhase::RetryAuthorized;
            return Ok(AttemptDirective::RetryAfter(delay_ms));
        }
        self.phase = AttemptPhase::TerminalPending(AttemptOutcome::Failed);
        Ok(
            AttemptDirective::Fail(
                ProviderFailure::from_observation(&self.context, &observation, retryable),
            ),
        )
    }
}

// ---------------------------------------------------------------------------
// Laws
// ---------------------------------------------------------------------------

/// A request is posted at most three times, and at most twice once it was repaired; it
/// waits at most twice, and always for a post that its budget still has. A repaired
/// request is never delayed, and a delayed one never repaired.
pub proof fn law_budget(state: AttemptState)
    requires
        state.wf(),
    ensures
        state.posts <= 3,
        state.delays_ms.len() <= 2,
        state.delays_ms.len() > 0 ==> state.delays_ms.len() < state.context.retry_policy.max_posts,
        state.repairs <= 1,
        state.repairs == 1 ==> state.posts <= 2 && state.delays_ms.len() == 0,
{
}

/// Posting, opening and observing keep the state well formed.
pub proof fn law_transitions_keep_wf(state: AttemptState, observation: FailureObservation)
    requires
        state.wf(),
    ensures
        state.posted() matches Ok(next) ==> next.wf(),
        state.opened() matches Ok(next) ==> next.wf(),
        state.observed(observation) matches Ok((next, _)) ==> next.wf(),
{
}

/// A request that has ended is never posted, opened or observed again.
pub proof fn law_end_is_final(state: AttemptState, observation: FailureObservation)
    requires
        state.phase.is_over(),
    ensures
        state.posted() is Err,
        state.opened() is Err,
        state.observed(observation) is Err,
{
}

/// Once a reply has begun, the request is not sent again: it cannot be posted, and
/// whatever is observed ends it.
pub proof fn law_open_reply_is_not_repeated(state: AttemptState, observation: FailureObservation)
    requires
        state.wf(),
        state.response_started,
    ensures
        state.posted() is Err,
        state.observed(observation) matches Ok((next, _)) ==> next.phase.is_over(),
{
}

/// An exhausted quota ends the request and is not offered for retry.
pub proof fn law_quota_is_terminal(state: AttemptState, observation: FailureObservation)
    requires
        state.wf(),
        observation.is_quota(),
    ensures
        state.observed(observation) matches Ok((next, directive)) ==> {
            &&& next.phase == AttemptPhase::TerminalPending(AttemptOutcome::Failed)
            &&& directive matches AttemptDirective::Fail(failure) && failure.failure_class is Quota
                && !failure.retryable
        },
{
}

/// A cancellation ends a request from every phase in which it has not ended yet.
pub proof fn law_cancellation_ends(state: AttemptState)
    requires
        state.wf(),
        !state.phase.is_over(),
    ensures
        state.observed(FailureObservation::Cancelled) == Ok::<
            (AttemptState, AttemptDirective),
            TransitionError,
        >((state.ended(AttemptOutcome::Cancelled), AttemptDirective::Cancel)),
        state.ended(AttemptOutcome::Cancelled).posted() is Err,
{
}

/// The repair is granted only to the first post, and what follows a repair is
/// neither a retry nor another repair.
pub proof fn law_repair_is_single(
    state: AttemptState,
    observation: FailureObservation,
    later: FailureObservation,
)
    requires
        state.wf(),
    ensures
        state.observed(observation) matches Ok((next, AttemptDirective::RepairOnce(_))) ==> {
            &&& state.posts == 1
            &&& state.repairs == 0
            &&& state.delays_ms.len() == 0
            &&& next.posted() matches Ok(second) && second.posts == 2 && (second.observed(later)
                matches Ok((last, _)) ==> last.phase.is_over())
        },
{
}

/// A retry is granted only where a post is left, and the wait never exceeds the
/// policy's cap and fallbacks.
pub proof fn law_retry_has_a_post_left(state: AttemptState, observation: FailureObservation)
    requires
        state.wf(),
    ensures
        state.observed(observation) matches Ok((next, AttemptDirective::RetryAfter(delay))) ==> {
            &&& next.posted() is Ok
            &&& next.delays_ms == state.delays_ms.push(delay)
            &&& {
                ||| delay <= state.context.retry_policy.retry_after_cap_seconds * 1_000
                ||| delay == state.context.retry_policy.fallback_delays_ms@[0]
                ||| delay == state.context.retry_policy.fallback_delays_ms@[1]
            }
        },
{
}

/// Under a shipped policy no wait is longer than a minute.
pub proof fn law_shipped_waits(
    state: AttemptState,
    observation: FailureObservation,
    retry_409: bool,
    retry_unknown_429: bool,
)
    requires
        state.wf(),
        state.context.retry_policy.shipped(retry_409, retry_unknown_429),
    ensures
        state.observed(observation) matches Ok((_, AttemptDirective::RetryAfter(delay))) ==> delay
            <= 60_000,
{
    law_retry_has_a_post_left(state, observation);
}

/// A failure is offered for retry only where it passes by itself and the budget was
/// what ended it. The caller always sees an HTTP status of redirect, client error or
/// server error.
pub proof fn law_failure_shape(
    context: RouteContext,
    observation: FailureObservation,
    exhausted: bool,
)
    ensures
        ({
            let failure = ProviderFailure::of(context, observation, exhausted);
            &&& failure.retryable ==> exhausted && failure.failure_class.passes()
            &&& 300 <= failure.status <= 599
            &&& failure.status < 400 ==> context.route is OpenaiChat
            &&& failure.context == context
        }),
{
}

/// The Anthropic and OpenAI policies differ on conflicts and on nothing else.
pub proof fn law_policies_differ_on_conflict(
    anthropic: RetryPolicy,
    openai: RetryPolicy,
    observation: FailureObservation,
)
    requires
        anthropic.shipped(false, true),
        openai.shipped(true, true),
    ensures
        anthropic.permits(observation) != openai.permits(observation) <==> observation.has_status(
            409,
        ),
{
}

/// A granted retry waits as long as the provider asked for, to the second; a provider that
/// asks for more than the cap is waited for as long as the cap says. Without a word from the
/// provider the first retry waits for the first fallback, and the second for the second.
/// The wait is put down behind the earlier ones.
pub proof fn law_retry_waits_as_asked(state: AttemptState, observation: FailureObservation)
    requires
        state.wf(),
    ensures
        state.observed(observation) matches Ok((next, AttemptDirective::RetryAfter(delay))) ==> {
            let policy = state.context.retry_policy;
            &&& next.delays_ms == state.delays_ms.push(delay)
            &&& (observation matches FailureObservation::Http {
                retry_after_seconds: Some(seconds),
                ..
            } ==> {
                &&& seconds <= policy.retry_after_cap_seconds ==> delay == seconds * 1_000
                &&& seconds > policy.retry_after_cap_seconds ==> delay
                    == policy.retry_after_cap_seconds * 1_000
            })
            &&& (!(observation matches FailureObservation::Http {
                retry_after_seconds: Some(_),
                ..
            }) ==> {
                &&& state.posts == 1 ==> delay == policy.fallback_delays_ms@[0]
                &&& state.posts == 2 ==> delay == policy.fallback_delays_ms@[1]
            })
        },
{
}

/// The request in flight is retried after `observation`.
pub open spec fn retries(state: AttemptState, observation: FailureObservation) -> bool {
    state.observed(observation) matches Ok((_, AttemptDirective::RetryAfter(_)))
}

/// Which replies a request in flight is retried after, as long as a post is left and no
/// repair was made: each status by the switch that the policy has for it, a rate limit only
/// where it is no exhausted quota, and one without a reason only where the policy says so.
/// No other status is retried.
pub proof fn law_retried_replies(
    state: AttemptState,
    status: u16,
    rate_kind: Option<RateKind>,
    retry_after_seconds: Option<u64>,
    request_id: Option<RequestId>,
    error_code: ErrorCode,
    error_param: ErrorParam,
)
    requires
        state.wf(),
        state.phase is InFlight,
    ensures
        ({
            let policy = state.context.retry_policy;
            let again = retries(
                state,
                FailureObservation::Http {
                    status,
                    rate_kind,
                    retry_after_seconds,
                    request_id,
                    error_code,
                    error_param,
                },
            );
            let left = state.repairs == 0 && state.posts < policy.max_posts;
            &&& again ==> left
            &&& status == 408 ==> again == (left && policy.retry_408)
            &&& status == 409 ==> again == (left && policy.retry_409)
            &&& status == 429 && rate_kind == Some(RateKind::Quota) ==> !again
            &&& status == 429 && rate_kind == Some(RateKind::RateLimit) ==> again == (left
                && policy.retry_429)
            &&& status == 429 && rate_kind is None ==> again == (left && policy.retry_429
                && policy.retry_unknown_429)
            &&& 500 <= status <= 599 ==> again == (left && policy.retry_5xx)
            &&& again ==> status == 408 || status == 409 || status == 429 || 500 <= status <= 599
        }),
{
}

/// Which failures without a reply a request in flight is retried after. A broken read is
/// retried for Codex alone, and a reply that breaks the protocol never.
pub proof fn law_retried_without_reply(state: AttemptState, protocol: ProtocolKind)
    requires
        state.wf(),
        state.phase is InFlight,
    ensures
        ({
            let policy = state.context.retry_policy;
            let left = state.repairs == 0 && state.posts < policy.max_posts;
            &&& retries(state, FailureObservation::Network(NetworkKind::Connect)) == (left
                && policy.retry_connect)
            &&& retries(state, FailureObservation::Network(NetworkKind::Timeout)) == (left
                && policy.retry_timeout)
            &&& policy.shipped(true, false) ==> retries(
                state,
                FailureObservation::Network(NetworkKind::Read),
            ) == left
            &&& policy.shipped(false, true) || policy.shipped(true, true) ==> !retries(
                state,
                FailureObservation::Network(NetworkKind::Read),
            )
            &&& !retries(state, FailureObservation::Protocol(protocol))
        }),
{
}

/// The tool choice is left out exactly where a first Lite post was refused with status 400
/// for an unsupported value of that parameter, and the caller allows it.
pub proof fn law_repaired_requests(state: AttemptState, observation: FailureObservation)
    requires
        state.wf(),
        state.phase is InFlight,
    ensures
        (state.observed(observation) matches Ok((_, AttemptDirective::RepairOnce(_)))) <==> {
            &&& state.repair_enabled
            &&& state.context.route == RouteMode::ResponsesLite
            &&& state.posts == 1
            &&& (observation matches FailureObservation::Http {
                status: 400,
                error_code: ErrorCode::UnsupportedValue,
                error_param: ErrorParam::ToolChoice,
                ..
            })
        },
{
}

/// A request in flight that is neither retried, repaired nor cancelled fails, and the caller
/// is told of exactly what was observed.
pub proof fn law_otherwise_it_fails(state: AttemptState, observation: FailureObservation)
    requires
        state.wf(),
        state.phase is InFlight,
    ensures
        match state.observed(observation) {
            Ok((next, AttemptDirective::Fail(failure))) => {
                &&& !(observation is Cancelled)
                &&& next.phase == AttemptPhase::TerminalPending(AttemptOutcome::Failed)
                &&& failure.context == state.context
                &&& failure.retryable ==> !retries(state, observation)
                &&& observation matches FailureObservation::Http { status, .. }
                    ==> failure.upstream_status == Some(status)
                &&& !(observation is Http) ==> failure.upstream_status is None
            },
            Ok((next, AttemptDirective::Cancel)) => observation is Cancelled,
            Ok((next, AttemptDirective::RetryAfter(_))) => next.phase is RetryAuthorized
                && next.posts == state.posts,
            Ok((next, AttemptDirective::RepairOnce(_))) => next.phase is RepairAuthorized
                && next.posts == state.posts,
            Err(_) => false,
        },
{
}

/// A request that was retried as often as it could be is still told to be worth another
/// try, where what ended it passes by itself.
pub proof fn law_spent_requests_are_retryable(state: AttemptState, observation: FailureObservation)
    requires
        state.wf(),
        state.phase is InFlight,
        state.posts == state.context.retry_policy.max_posts,
        state.context.retry_policy.shipped(true, true),
        match observation {
            FailureObservation::Http { status, rate_kind, .. } => status == 408 || status == 409
                || 500 <= status <= 599 || (status == 429 && rate_kind != Some(RateKind::Quota)),
            FailureObservation::Network(kind) => !(kind is Read),
            _ => false,
        },
    ensures
        state.observed(observation) matches Ok((_, AttemptDirective::Fail(failure)))
            && (failure.failure_class is Transient || failure.failure_class is RateLimit
            || failure.failure_class is Network || failure.failure_class is InvalidRequest)
            && failure.retryable == !(failure.failure_class is InvalidRequest),
{
}

/// A post counts, and is followed by a request in flight; the budget is the policy's, and
/// two once a repair was made.
pub proof fn law_posts_are_counted(state: AttemptState)
    requires
        state.wf(),
    ensures
        match state.posted() {
            Ok(next) => {
                &&& next.posts == state.posts + 1
                &&& next.phase is InFlight
                &&& next.delays_ms == state.delays_ms
                &&& next.repairs == state.repairs
                &&& next.context == state.context
                &&& next.posts <= state.context.retry_policy.max_posts || next.posts == 2
            },
            Err(_) => {
                ||| state.phase is InFlight
                ||| state.phase is UpstreamOpen
                ||| state.phase is TerminalPending
                ||| state.phase is Finalized
                ||| state.phase is Ready && state.context.retry_policy.max_posts == 0
            },
        },
{
}

/// What the caller is told of a reply: the provider's own status and words that depend on
/// nothing but that reply. A status that the caller could act on is passed through; a
/// failure of the provider's own is a 502, a late one a 504.
pub proof fn law_told_of_a_reply(
    context: RouteContext,
    status: u16,
    rate_kind: Option<RateKind>,
    retry_after_seconds: Option<u64>,
    request_id: Option<RequestId>,
    error_code: ErrorCode,
    error_param: ErrorParam,
    exhausted: bool,
)
    ensures
        ({
            let told = ProviderFailure::of(
                context,
                FailureObservation::Http {
                    status,
                    rate_kind,
                    retry_after_seconds,
                    request_id,
                    error_code,
                    error_param,
                },
                exhausted,
            );
            let conflict = status == 409 && context.route != RouteMode::AnthropicMessages;
            let unfit = status == 400 && (error_code == ErrorCode::UnsupportedValue || error_param
                == ErrorParam::ToolChoice);
            let redirect = 300 <= status <= 399 && context.route == RouteMode::OpenaiChat;
            &&& told.upstream_status == Some(status)
            &&& told.request_id == request_id
            &&& told.retry_after_seconds == retry_after_seconds
            &&& status == 401 ==> told.status == 401 && told.failure_class
                == FailureClass::Authentication && told.error_type == "authentication_error"
            &&& status == 403 ==> told.status == 403 && told.failure_class
                == FailureClass::Authorization && told.error_type == "permission_error"
            &&& unfit ==> told.status == 400 && told.failure_class == FailureClass::Capability
                && told.error_type == "invalid_request_error"
            &&& status == 429 && rate_kind == Some(RateKind::Quota) ==> told.status == 429
                && told.failure_class == FailureClass::Quota && told.error_type
                == "rate_limit_error" && !told.retryable
            &&& status == 429 && rate_kind != Some(RateKind::Quota) ==> told.status == 429
                && told.failure_class == FailureClass::RateLimit && told.error_type
                == "rate_limit_error" && told.retryable == exhausted
            &&& status == 408 ==> told.status == 504
            &&& 500 <= status <= 599 || conflict ==> told.status == 502
            &&& status == 408 || 500 <= status <= 599 || conflict ==> told.failure_class
                == FailureClass::Transient && told.error_type == "api_error" && told.retryable
                == exhausted
            &&& 400 <= status <= 499 && status != 401 && status != 403 && status != 408 && status
                != 429 && !conflict && !unfit ==> told.status == status && told.failure_class
                == FailureClass::InvalidRequest && told.error_type == "invalid_request_error"
                && !told.retryable
            &&& status < 400 || status > 599 ==> told.failure_class == FailureClass::Protocol
                && told.error_type == "api_error" && !told.retryable && told.status == (
            if redirect {
                status
            } else {
                502
            })
        }),
{
}

/// What the caller is told where there was no reply to tell of.
pub proof fn law_told_without_a_reply(
    context: RouteContext,
    network: NetworkKind,
    protocol: ProtocolKind,
    exhausted: bool,
)
    ensures
        ({
            let told = ProviderFailure::of(context, FailureObservation::Network(network), exhausted);
            &&& told.status == (if network == NetworkKind::Timeout {
                504u16
            } else {
                502u16
            })
            &&& told.failure_class == FailureClass::Network
            &&& told.error_type == "api_error"
            &&& told.retryable == exhausted
            &&& told.upstream_status is None && told.request_id is None
            &&& told.retry_after_seconds is None
        }),
        ({
            let told = ProviderFailure::of(
                context,
                FailureObservation::Protocol(protocol),
                exhausted,
            );
            &&& told.status == 502
            &&& told.failure_class == FailureClass::Protocol
            &&& told.error_type == "api_error"
            &&& !told.retryable
            &&& told.upstream_status is None && told.request_id is None
            &&& told.retry_after_seconds is None
        }),
{
}

/// The words that go with a failure: each class has its own message and its own advice, and
/// a status that no class is for has a message of its own.
pub proof fn law_words_of_a_failure(
    context: RouteContext,
    observation: FailureObservation,
    exhausted: bool,
)
    ensures
        ({
            let told = ProviderFailure::of(context, observation, exhausted);
            let says = |class: FailureClass, message: Seq<char>, recovery: Seq<char>|
                told.failure_class == class ==> told.message@ == message && told.recovery@
                    == recovery;
            &&& says(
                FailureClass::Authentication,
                "Provider authentication failed"@,
                "Re-authenticate, then start a new caller request"@,
            )
            &&& says(
                FailureClass::Authorization,
                "Provider authorization failed"@,
                "Check account, workspace, geography, and model entitlement"@,
            )
            &&& says(
                FailureClass::InvalidRequest,
                "Provider rejected the request"@,
                "Correct the request or select a compatible model"@,
            )
            &&& says(
                FailureClass::Capability,
                "Provider Route cannot preserve this request"@,
                "Use equivalent supported request semantics or select a compatible model"@,
            )
            &&& says(
                FailureClass::Quota,
                "Provider quota prevents this request"@,
                "Restore account quota before starting a new request"@,
            )
            &&& says(
                FailureClass::RateLimit,
                "Provider rate limit prevents this request"@,
                "Wait for rate capacity before starting a new request"@,
            )
            &&& says(
                FailureClass::Transient,
                "Provider transient failure exhausted retry budget"@,
                "Start a new request after the provider recovers"@,
            )
            &&& says(
                FailureClass::Network,
                "Provider network failure exhausted retry budget"@,
                "Check the network route before starting a new request"@,
            )
            &&& says(
                FailureClass::Protocol,
                if observation is Http {
                    "Provider returned an unsupported status"@
                } else {
                    "Provider response violated the expected protocol"@
                },
                "Inspect sanitized diagnostics and start a new request"@,
            )
        }),
{
}

/// The error object that the caller gets holds what the failure says, field by field; how
/// long to wait is told up to a minute; and what is not known is not mentioned.
pub proof fn law_error_object_tells_the_failure(failure: ProviderFailure)
    ensures
        ({
            let fields = failure.error_fields();
            &&& fields.contains(("type"@, JsonTree::Text(failure.error_type@)))
            &&& fields.contains(("message"@, JsonTree::Text(failure.message@)))
            &&& fields.contains(("provider"@, JsonTree::Text(failure.context.provider.name())))
            &&& fields.contains(("route"@, JsonTree::Text(failure.context.route.name())))
            &&& fields.contains(("failure_class"@, JsonTree::Text(failure.failure_class.name())))
            &&& fields.contains(("retryable"@, JsonTree::Bool(failure.retryable)))
            &&& fields.contains(
                ("correlation_id"@, JsonTree::Text(failure.context.correlation_id@)),
            )
            &&& fields.contains(("recovery"@, JsonTree::Text(failure.recovery@)))
            &&& failure.upstream_status matches Some(status) ==> fields.contains(
                ("upstream_status"@, JsonTree::Number(status as u64)),
            )
            &&& failure.request_id matches Some(id) ==> fields.contains(
                ("request_id"@, JsonTree::Text(id@)),
            )
            &&& failure.retry_after_seconds matches Some(seconds) ==> {
                &&& seconds <= 60 ==> fields.contains(
                    ("retry_after_seconds"@, JsonTree::Number(seconds)),
                )
                &&& seconds > 60 ==> fields.contains(("retry_after_seconds"@, JsonTree::Number(60)))
            }
            &&& fields.len() == 8 + (if failure.upstream_status is Some {
                1int
            } else {
                0
            }) + (if failure.request_id is Some {
                1int
            } else {
                0
            }) + (if failure.retry_after_seconds is Some {
                1int
            } else {
                0
            })
        }),
{
    let fields = failure.error_fields();
    assert(fields[0] == ("type"@, JsonTree::Text(failure.error_type@)));
    assert(fields[1] == ("message"@, JsonTree::Text(failure.message@)));
    assert(fields[2] == ("provider"@, JsonTree::Text(failure.context.provider.name())));
    assert(fields[3] == ("route"@, JsonTree::Text(failure.context.route.name())));
    assert(fields[4] == ("failure_class"@, JsonTree::Text(failure.failure_class.name())));
    assert(fields[5] == ("retryable"@, JsonTree::Bool(failure.retryable)));
    assert(fields[6] == ("correlation_id"@, JsonTree::Text(failure.context.correlation_id@)));
    assert(fields[7] == ("recovery"@, JsonTree::Text(failure.recovery@)));
    let n: int = 8 + (if failure.upstream_status is Some {
        1int
    } else {
        0
    });
    if failure.upstream_status is Some {
        assert(fields[8] == (
            "upstream_status"@,
            JsonTree::Number(failure.upstream_status->Some_0 as u64),
        ));
    }
    if failure.request_id is Some {
        assert(fields[n] == ("request_id"@, JsonTree::Text(failure.request_id->Some_0@)));
    }
    if failure.retry_after_seconds is Some {
        assert(fields.last().0 == "retry_after_seconds"@);
    }
}

} // verus!
