//! Opening a Codex reply stream: what is sent, and what each answer leads to.

use vstd::prelude::*;
use vstd::string::*;
use vstd::utf8::encode_utf8;

use crate::failure_json::{
    body_tokens, law_spaces_behind_a_body, spaces, ErrorTokens, FailureBodyToken,
    FailureJsonScanner,
};
use crate::provider_failure::{
    valid_id, ErrorCode, ErrorParam, FailureObservation, NetworkKind, ProtocolKind, RateKind,
    RequestId,
};
use crate::text::{
    append_bytes, as_text, before, decimal, eq_ignoring_case, has_prefix, is_number, lowered,
    number_of, optional_number_text, parse_number, quoted, quoted_text, show_optional_number,
    show_truth, starts_with_bytes, text_before, to_decimal, trim, trimmed, truth_text, view_of,
    view_of_str,
};

verus! {

/// The first-party originator, also sent as the user agent: the Codex edge takes
/// other user agents for automated traffic.
pub const CODEX_ORIGINATOR: &'static str = "codex_cli_rs";

pub const CODEX_INFERENCE_UA: &'static str = "codex_cli_rs";

pub const RESPONSES_LITE_HEADER: &'static str = "x-openai-internal-codex-responses-lite";

/// Longest error body that is looked at.
pub const FAILURE_BODY_LIMIT: usize = 16384;

/// Longest prefix that is looked at to tell what an unlabelled reply is.
pub const SNIFF_LIMIT: usize = 512;

// ---------------------------------------------------------------------------
// Facts of an error body
// ---------------------------------------------------------------------------

#[derive(Clone, Copy, Debug, PartialEq, Eq, Structural)]
pub struct FailureBodyFacts {
    pub rate_kind: Option<RateKind>,
    pub error_code: ErrorCode,
    pub error_param: ErrorParam,
}

impl FailureBodyFacts {
    /// Nothing is known.
    #[verifier::allow_in_spec]
    pub fn empty() -> FailureBodyFacts
        returns
            (FailureBodyFacts {
                rate_kind: None,
                error_code: ErrorCode::Absent,
                error_param: ErrorParam::Absent,
            }),
    {
        FailureBodyFacts {
            rate_kind: None,
            error_code: ErrorCode::Absent,
            error_param: ErrorParam::Absent,
        }
    }

    /// What the words of an error body mean. A quota wins over a rate limit.
    pub open spec fn of(tokens: ErrorTokens) -> FailureBodyFacts {
        let quota = tokens.kind == Some(FailureBodyToken::InsufficientQuota) || tokens.code == Some(
            FailureBodyToken::InsufficientQuota,
        );
        let rate = tokens.kind == Some(FailureBodyToken::RateLimitError) || tokens.code == Some(
            FailureBodyToken::RateLimitExceeded,
        );
        FailureBodyFacts {
            rate_kind: if quota {
                Some(RateKind::Quota)
            } else if rate {
                Some(RateKind::RateLimit)
            } else {
                None
            },
            error_code: match tokens.code {
                Some(FailureBodyToken::UnsupportedValue) => ErrorCode::UnsupportedValue,
                Some(FailureBodyToken::RateLimitExceeded) => ErrorCode::RateLimitExceeded,
                Some(_) => if quota {
                    ErrorCode::InsufficientQuota
                } else {
                    ErrorCode::Other
                },
                None => if quota {
                    ErrorCode::InsufficientQuota
                } else {
                    ErrorCode::Absent
                },
            },
            error_param: match tokens.param {
                Some(FailureBodyToken::ToolChoice) => ErrorParam::ToolChoice,
                Some(_) => ErrorParam::Other,
                None => ErrorParam::Absent,
            },
        }
    }

    fn from_tokens(tokens: ErrorTokens) -> (facts: FailureBodyFacts)
        ensures
            facts == Self::of(tokens),
    {
        let quota = tokens.kind == Some(FailureBodyToken::InsufficientQuota) || tokens.code == Some(
            FailureBodyToken::InsufficientQuota,
        );
        let rate = tokens.kind == Some(FailureBodyToken::RateLimitError) || tokens.code == Some(
            FailureBodyToken::RateLimitExceeded,
        );
        FailureBodyFacts {
            rate_kind: if quota {
                Some(RateKind::Quota)
            } else if rate {
                Some(RateKind::RateLimit)
            } else {
                None
            },
            error_code: match tokens.code {
                Some(FailureBodyToken::UnsupportedValue) => ErrorCode::UnsupportedValue,
                Some(FailureBodyToken::RateLimitExceeded) => ErrorCode::RateLimitExceeded,
                Some(_) => if quota {
                    ErrorCode::InsufficientQuota
                } else {
                    ErrorCode::Other
                },
                None => if quota {
                    ErrorCode::InsufficientQuota
                } else {
                    ErrorCode::Absent
                },
            },
            error_param: match tokens.param {
                Some(FailureBodyToken::ToolChoice) => ErrorParam::ToolChoice,
                Some(_) => ErrorParam::Other,
                None => ErrorParam::Absent,
            },
        }
    }
}

/// The facts of a whole error body. Beyond the limit nothing is read.
pub open spec fn facts_of_body(body: Seq<u8>) -> FailureBodyFacts {
    if body.len() > FAILURE_BODY_LIMIT {
        FailureBodyFacts::empty()
    } else {
        match body_tokens(body, true) {
            Some(tokens) => FailureBodyFacts::of(tokens),
            None => FailureBodyFacts::empty(),
        }
    }
}

pub fn reduce_failure_body(body: &[u8]) -> (facts: FailureBodyFacts)
    ensures
        facts == facts_of_body(body@),
{
    if body.len() > FAILURE_BODY_LIMIT {
        return FailureBodyFacts::empty();
    }
    match FailureJsonScanner::project(body, true) {
        Some(tokens) => FailureBodyFacts::from_tokens(tokens),
        None => FailureBodyFacts::empty(),
    }
}

/// Keeps an error body of a length that was declared beforehand.
pub struct FailureBodyCollector {
    body: [u8; 16384],
    retained: usize,
    declared_length: usize,
}

impl FailureBodyCollector {
    pub closed spec fn wf(self) -> bool {
        self.retained <= self.declared_length <= FAILURE_BODY_LIMIT
    }

    /// What has been kept.
    pub closed spec fn kept(self) -> Seq<u8> {
        self.body@.subrange(0, self.retained as int)
    }

    pub closed spec fn declared(self) -> nat {
        self.declared_length as nat
    }

    /// A body is collected only where its length is declared and within the limit.
    pub fn new(declared_length: Option<u64>) -> (collector: Option<Self>)
        ensures
            match collector {
                Some(collector) => {
                    &&& declared_length == Some(collector.declared() as u64)
                    &&& collector.declared() <= FAILURE_BODY_LIMIT
                    &&& collector.kept() == Seq::<u8>::empty()
                    &&& collector.wf()
                },
                None => declared_length matches Some(length) ==> length > FAILURE_BODY_LIMIT,
            },
    {
        let declared = declared_length?;
        if declared > FAILURE_BODY_LIMIT as u64 {
            return None;
        }
        let collector = FailureBodyCollector {
            body: [0;16384],
            retained: 0,
            declared_length: declared as usize,
        };
        assert(collector.kept() =~= Seq::<u8>::empty());
        Some(collector)
    }

    pub fn remaining(&self) -> (n: usize)
        requires
            self.wf(),
        ensures
            n == self.declared() - self.kept().len(),
    {
        self.declared_length - self.retained
    }

    /// Keeps a chunk, unless there would be more than was declared.
    pub fn retain(&mut self, chunk: &[u8]) -> (kept: bool)
        requires
            old(self).wf(),
        ensures
            final(self).wf(),
            final(self).declared() == old(self).declared(),
            kept == (old(self).kept().len() + chunk@.len() <= old(self).declared()),
            final(self).kept() == if kept {
                old(self).kept() + chunk@
            } else {
                old(self).kept()
            },
    {
        if chunk.len() > self.remaining() {
            return false;
        }
        let start = self.retained;
        let mut i: usize = 0;
        while i < chunk.len()
            invariant
                i <= chunk@.len(),
                start + chunk@.len() <= FAILURE_BODY_LIMIT,
                start == old(self).retained,
                self.retained == start,
                self.declared_length == old(self).declared_length,
                forall|k: int| 0 <= k < start ==> self.body@[k] == old(self).body@[k],
                forall|k: int| 0 <= k < i ==> self.body@[start + k] == chunk@[k],
            decreases chunk.len() - i,
        {
            self.body[start + i] = chunk[i];
            i += 1;
        }
        self.retained = start + chunk.len();
        assert(self.kept() =~= old(self).kept() + chunk@);
        true
    }

    pub fn retained_len(&self) -> (n: usize)
        requires
            self.wf(),
        ensures
            n == self.kept().len(),
    {
        self.retained
    }

    /// The facts of the body, where it came whole.
    pub fn facts(self) -> (facts: FailureBodyFacts)
        requires
            self.wf(),
        ensures
            facts == if self.kept().len() == self.declared() {
                facts_of_body(self.kept())
            } else {
                FailureBodyFacts::empty()
            },
    {
        if self.retained != self.declared_length {
            return FailureBodyFacts::empty();
        }
        reduce_failure_body(vstd::slice::slice_subrange(self.body.as_slice(), 0, self.retained))
    }
}

// ---------------------------------------------------------------------------
// Response headers
// ---------------------------------------------------------------------------

/// The seconds that a `retry-after` header asks for. Only a plain number counts.
pub open spec fn retry_after_of(value: Option<Seq<char>>) -> Option<u64> {
    match value {
        Some(text) => if is_number(text) && number_of(text) <= u64::MAX {
            Some(number_of(text) as u64)
        } else {
            None
        },
        None => None,
    }
}

pub fn parse_retry_after(value: Option<&str>) -> (seconds: Option<u64>)
    ensures
        seconds == retry_after_of(view_of_str(value)),
{
    match value {
        Some(text) => parse_number(text),
        None => None,
    }
}

/// The identifier in an `x-request-id` header, where it may be shown.
pub open spec fn request_id_of(value: Option<Seq<char>>) -> Option<Seq<char>> {
    match value {
        Some(text) => if valid_id(text) {
            Some(text)
        } else {
            None
        },
        None => None,
    }
}

pub open spec fn view_of_id(id: Option<RequestId>) -> Option<Seq<char>> {
    match id {
        Some(id) => Some(id@),
        None => None,
    }
}

pub fn parse_request_id(value: Option<&str>) -> (id: Option<RequestId>)
    ensures
        view_of_id(id) == request_id_of(view_of_str(value)),
{
    match value {
        Some(text) => RequestId::new(text),
        None => None,
    }
}

/// What a reply says before its body. Header values that are no text are missing.
pub struct ResponseHead {
    pub status: u16,
    pub retry_after: Option<String>,
    pub request_id: Option<String>,
    pub content_type: Option<String>,
    pub cf_mitigated: Option<String>,
    pub content_length: Option<u64>,
}

/// The media type of a `content-type` header: what stands before its parameters.
pub open spec fn media_type_of(content_type: Option<Seq<char>>) -> Option<Seq<char>> {
    match content_type {
        Some(text) => {
            let media_type = trimmed(before(text, ';'));
            if media_type.len() == 0 {
                None
            } else {
                Some(media_type)
            }
        },
        None => None,
    }
}

pub open spec fn is_media_type(media_type: Option<Seq<char>>, wanted: Seq<char>) -> bool {
    media_type matches Some(text) && lowered(text) == lowered(wanted)
}

pub fn media_type(content_type: Option<&str>) -> (media_type: Option<String>)
    ensures
        view_of(media_type) == media_type_of(view_of_str(content_type)),
{
    let text = trim(text_before(content_type?, ';'));
    if text.as_str().is_empty() {
        None
    } else {
        Some(text)
    }
}

pub fn media_type_is(media_type: &Option<String>, wanted: &str) -> (yes: bool)
    ensures
        yes == is_media_type(view_of(*media_type), wanted@),
{
    match media_type {
        Some(text) => eq_ignoring_case(text.as_str(), wanted),
        None => false,
    }
}

impl ResponseHead {
    pub open spec fn is_success(self) -> bool {
        200 <= self.status <= 299
    }

    pub open spec fn is_challenge(self) -> bool {
        self.cf_mitigated matches Some(text) && lowered(text@) == lowered("challenge"@)
    }

    pub open spec fn media_type(self) -> Option<Seq<char>> {
        media_type_of(view_of(self.content_type))
    }

    pub fn challenge_detected(&self) -> (yes: bool)
        ensures
            yes == self.is_challenge(),
    {
        match &self.cf_mitigated {
            Some(text) => eq_ignoring_case(text.as_str(), "challenge"),
            None => false,
        }
    }

    pub fn response_media_type(&self) -> (media_type: Option<String>)
        ensures
            view_of(media_type) == self.media_type(),
    {
        media_type(as_text(&self.content_type))
    }

    /// Why a successful reply that is no event stream is refused.
    pub open spec fn unexpected_detail(self) -> &'static str {
        if self.is_challenge() {
            "Codex upstream returned a Cloudflare challenge response"
        } else if is_media_type(self.media_type(), "application/json"@) {
            "Codex upstream returned JSON instead of an event stream"
        } else if is_media_type(self.media_type(), "text/html"@) {
            "Codex upstream returned HTML instead of an event stream"
        } else if self.media_type() is None {
            "Codex upstream returned no response content type"
        } else {
            "Codex upstream returned an unsupported response content type"
        }
    }

    pub fn unexpected_response_detail(&self) -> (detail: &'static str)
        ensures
            detail == self.unexpected_detail(),
    {
        if self.challenge_detected() {
            return "Codex upstream returned a Cloudflare challenge response";
        }
        let media_type = self.response_media_type();
        if media_type_is(&media_type, "application/json") {
            "Codex upstream returned JSON instead of an event stream"
        } else if media_type_is(&media_type, "text/html") {
            "Codex upstream returned HTML instead of an event stream"
        } else if media_type.is_none() {
            "Codex upstream returned no response content type"
        } else {
            "Codex upstream returned an unsupported response content type"
        }
    }
}

// ---------------------------------------------------------------------------
// Telling an unlabelled reply by its first bytes
// ---------------------------------------------------------------------------

#[derive(Clone, Copy, Debug, PartialEq, Eq, Structural)]
pub enum ResponsePrefixKind {
    Sse,
    Html,
    Json,
    NeedMore,
    Other,
}

pub open spec fn is_ascii_space(byte: u8) -> bool {
    byte == 0x20 || byte == 0x09 || byte == 0x0a || byte == 0x0c || byte == 0x0d
}

/// The bytes from the first that is no ASCII white space on.
pub open spec fn skip_ascii_space(s: Seq<u8>) -> Seq<u8>
    decreases s.len(),
{
    if s.len() > 0 && is_ascii_space(s[0]) {
        skip_ascii_space(s.skip(1))
    } else {
        s
    }
}

pub open spec fn without_byte_order_mark(s: Seq<u8>) -> Seq<u8> {
    if s.len() >= 3 && s[0] == 0xef && s[1] == 0xbb && s[2] == 0xbf {
        s.skip(3)
    } else {
        s
    }
}

/// `s` starts with a field name of an event stream.
pub open spec fn starts_sse_field(s: Seq<u8>) -> bool {
    ||| has_prefix(s, encode_utf8("data:"@))
    ||| has_prefix(s, encode_utf8("event:"@))
    ||| has_prefix(s, encode_utf8("id:"@))
    ||| has_prefix(s, encode_utf8("retry:"@))
    ||| has_prefix(s, encode_utf8(":"@))
}

/// `s` is the beginning of a field name of an event stream.
pub open spec fn begins_sse_field(s: Seq<u8>) -> bool {
    ||| has_prefix(encode_utf8("data:"@), s)
    ||| has_prefix(encode_utf8("event:"@), s)
    ||| has_prefix(encode_utf8("id:"@), s)
    ||| has_prefix(encode_utf8("retry:"@), s)
    ||| has_prefix(encode_utf8(":"@), s)
}

pub open spec fn prefix_kind(bytes: Seq<u8>) -> ResponsePrefixKind {
    let s = skip_ascii_space(without_byte_order_mark(bytes));
    if s.len() == 0 {
        ResponsePrefixKind::NeedMore
    } else if starts_sse_field(s) {
        ResponsePrefixKind::Sse
    } else if begins_sse_field(s) {
        ResponsePrefixKind::NeedMore
    } else if s[0] == 0x3c {
        ResponsePrefixKind::Html
    } else if s[0] == 0x7b || s[0] == 0x5b {
        ResponsePrefixKind::Json
    } else {
        ResponsePrefixKind::Other
    }
}

pub fn classify_response_prefix(prefix: &[u8]) -> (kind: ResponsePrefixKind)
    ensures
        kind == prefix_kind(prefix@),
{
    let mut start: usize = 0;
    if prefix.len() >= 3 && prefix[0] == 0xef && prefix[1] == 0xbb && prefix[2] == 0xbf {
        start = 3;
    }
    let ghost body = without_byte_order_mark(prefix@);
    assert(prefix@.skip(start as int) =~= body);
    while start < prefix.len() && (prefix[start] == 0x20 || prefix[start] == 0x09 || prefix[start]
        == 0x0a || prefix[start] == 0x0c || prefix[start] == 0x0d)
        invariant
            start <= prefix@.len(),
            skip_ascii_space(prefix@.skip(start as int)) == skip_ascii_space(body),
        decreases prefix.len() - start,
    {
        assert(prefix@.skip(start as int).skip(1) =~= prefix@.skip(start + 1));
        start += 1;
    }
    let rest = vstd::slice::slice_subrange(prefix, start, prefix.len());
    assert(rest@ =~= prefix@.skip(start as int));
    if rest.len() == 0 {
        return ResponsePrefixKind::NeedMore;
    }
    if starts_with_bytes(rest, "data:".as_bytes()) || starts_with_bytes(rest, "event:".as_bytes())
        || starts_with_bytes(rest, "id:".as_bytes()) || starts_with_bytes(rest, "retry:".as_bytes())
        || starts_with_bytes(rest, ":".as_bytes()) {
        return ResponsePrefixKind::Sse;
    }
    if starts_with_bytes("data:".as_bytes(), rest) || starts_with_bytes("event:".as_bytes(), rest)
        || starts_with_bytes("id:".as_bytes(), rest) || starts_with_bytes("retry:".as_bytes(), rest)
        || starts_with_bytes(":".as_bytes(), rest) {
        return ResponsePrefixKind::NeedMore;
    }
    if rest[0] == 0x3c {
        ResponsePrefixKind::Html
    } else if rest[0] == 0x7b || rest[0] == 0x5b {
        ResponsePrefixKind::Json
    } else {
        ResponsePrefixKind::Other
    }
}

// ---------------------------------------------------------------------------
// The request
// ---------------------------------------------------------------------------

/// Why no reply stream could be opened.
pub struct CodexTransportError {
    pub status: u16,
    pub upstream_status: Option<u16>,
    pub detail: &'static str,
    pub cancelled: bool,
    pub observation: FailureObservation,
}

impl CodexTransportError {
    pub fn observation(&self) -> (observation: FailureObservation)
        ensures
            observation == self.observation,
    {
        self.observation.clone()
    }

    /// The text that is shown of the error.
    pub fn message(&self) -> (text: &'static str)
        ensures
            text == self.detail,
    {
        self.detail
    }

    /// What may be logged of the error.
    pub fn debug_text(&self) -> (text: String)
        ensures
            text@ == "CodexTransportError { status: "@ + decimal(self.status as nat)
                + ", upstream_status: "@ + optional_number_text(self.upstream_status)
                + ", detail: "@ + quoted_text(self.detail@) + ", cancelled: "@ + truth_text(
                self.cancelled,
            ) + " }"@,
    {
        let mut text = "CodexTransportError { status: ".to_owned();
        text.append(to_decimal(self.status as u64).as_str());
        text.append(", upstream_status: ");
        text.append(show_optional_number(self.upstream_status).as_str());
        text.append(", detail: ");
        text.append(quoted(self.detail).as_str());
        text.append(", cancelled: ");
        text.append(show_truth(self.cancelled));
        text.append(" }");
        text
    }

    pub open spec fn network(detail: &'static str, kind: NetworkKind) -> CodexTransportError {
        CodexTransportError {
            status: if kind is Timeout {
                504
            } else {
                502
            },
            upstream_status: None,
            detail,
            cancelled: false,
            observation: FailureObservation::Network(kind),
        }
    }

    fn new_network(detail: &'static str, kind: NetworkKind) -> (error: CodexTransportError)
        ensures
            error == Self::network(detail, kind),
    {
        CodexTransportError {
            status: if kind == NetworkKind::Timeout {
                504
            } else {
                502
            },
            upstream_status: None,
            detail,
            cancelled: false,
            observation: FailureObservation::Network(kind),
        }
    }

    pub open spec fn unauthorized(detail: &'static str) -> CodexTransportError {
        CodexTransportError {
            status: 401,
            upstream_status: None,
            detail,
            cancelled: false,
            observation: FailureObservation::Http {
                status: 401,
                rate_kind: None,
                retry_after_seconds: None,
                request_id: None,
                error_code: ErrorCode::Absent,
                error_param: ErrorParam::Absent,
            },
        }
    }

    fn new_unauthorized(detail: &'static str) -> (error: CodexTransportError)
        ensures
            error == Self::unauthorized(detail),
    {
        CodexTransportError {
            status: 401,
            upstream_status: None,
            detail,
            cancelled: false,
            observation: FailureObservation::Http {
                status: 401,
                rate_kind: None,
                retry_after_seconds: None,
                request_id: None,
                error_code: ErrorCode::Absent,
                error_param: ErrorParam::Absent,
            },
        }
    }

    pub open spec fn abandoned(upstream_status: Option<u16>) -> CodexTransportError {
        CodexTransportError {
            status: 499,
            upstream_status,
            detail: "Codex request was cancelled",
            cancelled: true,
            observation: FailureObservation::Cancelled,
        }
    }

    fn new_abandoned(upstream_status: Option<u16>) -> (error: CodexTransportError)
        ensures
            error == Self::abandoned(upstream_status),
    {
        CodexTransportError {
            status: 499,
            upstream_status,
            detail: "Codex request was cancelled",
            cancelled: true,
            observation: FailureObservation::Cancelled,
        }
    }

    /// The body of a reply with `status` cannot be used.
    pub open spec fn bad_body(
        status: u16,
        detail: &'static str,
        observation: FailureObservation,
    ) -> CodexTransportError {
        CodexTransportError {
            status: if observation == FailureObservation::Network(NetworkKind::Timeout) {
                504
            } else {
                502
            },
            upstream_status: Some(status),
            detail,
            cancelled: false,
            observation,
        }
    }

    fn new_bad_body(
        status: u16,
        detail: &'static str,
        observation: FailureObservation,
    ) -> (error: CodexTransportError)
        ensures
            error == Self::bad_body(status, detail, observation),
    {
        let timed_out = match &observation {
            FailureObservation::Network(NetworkKind::Timeout) => true,
            _ => false,
        };
        CodexTransportError {
            status: if timed_out {
                504
            } else {
                502
            },
            upstream_status: Some(status),
            detail,
            cancelled: false,
            observation,
        }
    }

    pub open spec fn invalid_body(status: u16, detail: &'static str) -> CodexTransportError {
        Self::bad_body(
            status,
            detail,
            FailureObservation::Protocol(ProtocolKind::InvalidResponse),
        )
    }

    fn new_invalid_body(status: u16, detail: &'static str) -> (error: CodexTransportError)
        ensures
            error == Self::invalid_body(status, detail),
    {
        Self::new_bad_body(
            status,
            detail,
            FailureObservation::Protocol(ProtocolKind::InvalidResponse),
        )
    }

    /// The provider refused with `status` and these facts.
    pub open spec fn refused(
        status: u16,
        retry_after_seconds: Option<u64>,
        request_id: Option<RequestId>,
        facts: FailureBodyFacts,
    ) -> CodexTransportError {
        CodexTransportError {
            status: if status == 401 || status == 403 || status == 429 {
                status
            } else if status == 408 {
                504
            } else {
                502
            },
            upstream_status: Some(status),
            detail: "Codex upstream rejected the request",
            cancelled: false,
            observation: FailureObservation::Http {
                status,
                rate_kind: facts.rate_kind,
                retry_after_seconds,
                request_id,
                error_code: facts.error_code,
                error_param: facts.error_param,
            },
        }
    }

    fn new_refused(
        status: u16,
        retry_after_seconds: Option<u64>,
        request_id: Option<RequestId>,
        facts: FailureBodyFacts,
    ) -> (error: CodexTransportError)
        ensures
            error == Self::refused(status, retry_after_seconds, request_id, facts),
    {
        CodexTransportError {
            status: if status == 401 || status == 403 || status == 429 {
                status
            } else if status == 408 {
                504
            } else {
                502
            },
            upstream_status: Some(status),
            detail: "Codex upstream rejected the request",
            cancelled: false,
            observation: FailureObservation::Http {
                status,
                rate_kind: facts.rate_kind,
                retry_after_seconds,
                request_id,
                error_code: facts.error_code,
                error_param: facts.error_param,
            },
        }
    }
}

pub open spec fn is_header_byte(byte: u8) -> bool {
    (byte >= 32 && byte != 127) || byte == 9
}

/// A text that a header can carry.
pub open spec fn valid_header_value(text: Seq<char>) -> bool {
    forall|i: int|
        0 <= i < encode_utf8(text).len() ==> is_header_byte(#[trigger] encode_utf8(text)[i])
}

/// Asks `reqwest::header::HeaderValue::from_str` whether a header can carry the
/// text. It refuses exactly the texts with a control byte other than tab.
#[verifier::external_body]
fn header_value_accepts(text: &str) -> (accepted: bool)
    ensures
        accepted == valid_header_value(text@),
{
    reqwest::header::HeaderValue::from_str(text).is_ok()
}

/// The headers of the one POST, and whether they hold a secret.
pub struct RequestHeader {
    pub name: &'static str,
    pub value: String,
    pub sensitive: bool,
}

pub open spec fn header_is(
    header: RequestHeader,
    name: Seq<char>,
    value: Seq<char>,
    sensitive: bool,
) -> bool {
    header.name@ == name && header.value@ == value && header.sensitive == sensitive
}

fn header(name: &'static str, value: &str, sensitive: bool) -> (header: RequestHeader)
    ensures
        header_is(header, name@, value@, sensitive),
{
    RequestHeader { name, value: value.to_owned(), sensitive }
}

/// The headers of a POST for this account.
pub open spec fn are_request_headers(
    headers: Seq<RequestHeader>,
    access_token: Seq<char>,
    account_id: Seq<char>,
    use_responses_lite: bool,
) -> bool {
    &&& headers.len() == if use_responses_lite {
        7nat
    } else {
        6
    }
    &&& header_is(headers[0], "content-type"@, "application/json"@, false)
    &&& header_is(headers[1], "accept"@, "text/event-stream"@, false)
    &&& header_is(headers[2], "user-agent"@, CODEX_INFERENCE_UA@, false)
    &&& header_is(headers[3], "originator"@, CODEX_ORIGINATOR@, false)
    &&& header_is(headers[4], "ChatGPT-Account-ID"@, account_id, true)
    &&& header_is(headers[5], "authorization"@, "Bearer "@ + access_token, true)
    &&& use_responses_lite ==> header_is(headers[6], RESPONSES_LITE_HEADER@, "true"@, false)
}

/// Why an account cannot be named in a header; nothing if it can.
pub open spec fn header_fault(access_token: Seq<char>, account_id: Seq<char>) -> Option<
    CodexTransportError,
> {
    if !valid_header_value("Bearer "@ + access_token) {
        Some(CodexTransportError::unauthorized("Codex authorization is invalid"))
    } else if !valid_header_value(account_id) {
        Some(CodexTransportError::unauthorized("Codex account authorization is invalid"))
    } else {
        None
    }
}

/// The headers that go with the POST. The token and the account are marked as
/// secrets; a token or account that no header can carry is refused before anything
/// is sent.
pub fn request_headers(
    access_token: &str,
    account_id: &str,
    use_responses_lite: bool,
) -> (headers: Result<Vec<RequestHeader>, CodexTransportError>)
    ensures
        match headers {
            Ok(headers) => header_fault(access_token@, account_id@) is None && are_request_headers(
                headers@,
                access_token@,
                account_id@,
                use_responses_lite,
            ),
            Err(error) => header_fault(access_token@, account_id@) == Some(error),
        },
{
    let mut authorization = "Bearer ".to_owned();
    authorization.append(access_token);
    if !header_value_accepts(authorization.as_str()) {
        return Err(CodexTransportError::new_unauthorized("Codex authorization is invalid"));
    }
    if !header_value_accepts(account_id) {
        return Err(CodexTransportError::new_unauthorized("Codex account authorization is invalid"));
    }
    let mut headers: Vec<RequestHeader> = Vec::new();
    headers.push(header("content-type", "application/json", false));
    headers.push(header("accept", "text/event-stream", false));
    headers.push(header("user-agent", CODEX_INFERENCE_UA, false));
    headers.push(header("originator", CODEX_ORIGINATOR, false));
    headers.push(header("ChatGPT-Account-ID", account_id, true));
    headers.push(header("authorization", authorization.as_str(), true));
    if use_responses_lite {
        headers.push(header(RESPONSES_LITE_HEADER, "true", false));
    }
    Ok(headers)
}

// ---------------------------------------------------------------------------
// The reply
// ---------------------------------------------------------------------------

/// How the one POST went.
pub enum SendOutcome {
    RuntimeFailed,
    Cancelled,
    Failed,
    TimedOut,
    Head(ResponseHead),
}

/// What came of waiting for more of the body.
pub enum BodyEvent {
    Cancelled,
    ReadFailed,
    TimedOut,
    End,
    Chunk(Vec<u8>),
}

/// A refusal whose body is being read.
pub struct FailureRead {
    pub status: u16,
    pub retry_after_seconds: Option<u64>,
    pub request_id: Option<RequestId>,
    pub collector: FailureBodyCollector,
}

/// A success without a content type whose first bytes are being looked at.
pub struct SniffRead {
    pub status: u16,
    pub prefix: Vec<u8>,
    pub consumed: Vec<u8>,
}

/// The one POST of a request.
pub struct CodexPost {
    pub endpoint: String,
    pub headers: Vec<RequestHeader>,
    pub body: Vec<u8>,
}

/// Where the opening of a reply stands.
pub enum CodexOpening {
    /// This is to be sent.
    Post(CodexPost),
    /// The stream is open; `pending` was read from it already.
    Opened { pending: Vec<u8> },
    Rejected(CodexTransportError),
    ReadFailureBody(FailureRead),
    Sniff(SniffRead),
}

impl FailureRead {
    pub open spec fn wf(self) -> bool {
        self.collector.wf()
    }

    /// The refusal with these facts.
    pub open spec fn refusal(self, facts: FailureBodyFacts) -> CodexTransportError {
        CodexTransportError::refused(
            self.status,
            self.retry_after_seconds,
            self.request_id,
            facts,
        )
    }

    fn into_refusal(self, facts: FailureBodyFacts) -> (opening: CodexOpening)
        ensures
            opening == CodexOpening::Rejected(self.refusal(facts)),
    {
        CodexOpening::Rejected(
            CodexTransportError::new_refused(
                self.status,
                self.retry_after_seconds,
                self.request_id,
                facts,
            ),
        )
    }

    /// More of the body of a refusal came, or did not. The refusal is told with the
    /// facts of the body only where the body came whole, as long as was declared.
    pub fn on_body(self, event: BodyEvent) -> (opening: CodexOpening)
        requires
            self.wf(),
            self.collector.kept().len() < self.collector.declared(),
        ensures
            !(opening is Post),
            match event {
                BodyEvent::Cancelled => opening == CodexOpening::Rejected(
                    CodexTransportError::abandoned(Some(self.status)),
                ),
                BodyEvent::ReadFailed => opening == CodexOpening::Rejected(
                    self.refusal(FailureBodyFacts::empty()),
                ),
                BodyEvent::TimedOut => opening == CodexOpening::Rejected(
                    self.refusal(FailureBodyFacts::empty()),
                ),
                BodyEvent::End => opening == CodexOpening::Rejected(
                    self.refusal(FailureBodyFacts::empty()),
                ),
                BodyEvent::Chunk(chunk) => {
                    let body = self.collector.kept() + chunk@;
                    if body.len() > self.collector.declared() {
                        opening == CodexOpening::Rejected(
                            self.refusal(FailureBodyFacts::empty()),
                        )
                    } else if body.len() == self.collector.declared() {
                        opening == CodexOpening::Rejected(self.refusal(facts_of_body(body)))
                    } else {
                        &&& opening matches CodexOpening::ReadFailureBody(next)
                        &&& next.wf()
                        &&& next.status == self.status
                        &&& next.retry_after_seconds == self.retry_after_seconds
                        &&& next.request_id == self.request_id
                        &&& next.collector.kept() == body
                        &&& next.collector.declared() == self.collector.declared()
                    }
                },
            },
    {
        match event {
            BodyEvent::Cancelled => CodexOpening::Rejected(
                CodexTransportError::new_abandoned(Some(self.status)),
            ),
            BodyEvent::ReadFailed => self.into_refusal(FailureBodyFacts::empty()),
            BodyEvent::TimedOut => self.into_refusal(FailureBodyFacts::empty()),
            BodyEvent::End => self.into_refusal(FailureBodyFacts::empty()),
            BodyEvent::Chunk(chunk) => {
                let mut collector = self.collector;
                let status = self.status;
                let retry_after_seconds = self.retry_after_seconds;
                let request_id = self.request_id;
                if !collector.retain(chunk.as_slice()) {
                    return CodexOpening::Rejected(
                        CodexTransportError::new_refused(
                            status,
                            retry_after_seconds,
                            request_id,
                            FailureBodyFacts::empty(),
                        ),
                    );
                }
                if collector.remaining() == 0 {
                    let facts = collector.facts();
                    return CodexOpening::Rejected(
                        CodexTransportError::new_refused(
                            status,
                            retry_after_seconds,
                            request_id,
                            facts,
                        ),
                    );
                }
                CodexOpening::ReadFailureBody(
                    FailureRead { status, retry_after_seconds, request_id, collector },
                )
            },
        }
    }
}

pub open spec fn first_bytes(s: Seq<u8>, n: nat) -> Seq<u8> {
    if s.len() <= n {
        s
    } else {
        s.take(n as int)
    }
}

impl SniffRead {
    /// The prefix is the beginning of what was consumed.
    pub open spec fn wf(self) -> bool {
        self.prefix@ == first_bytes(self.consumed@, SNIFF_LIMIT as nat)
    }

    /// More of an unlabelled reply came, or did not. The stream is opened only on a
    /// field name of an event stream, and hands on every byte that was consumed.
    pub fn on_body(self, event: BodyEvent) -> (opening: CodexOpening)
        requires
            self.wf(),
            self.prefix@.len() < SNIFF_LIMIT,
        ensures
            !(opening is Post),
            match event {
                BodyEvent::Cancelled => opening == CodexOpening::Rejected(
                    CodexTransportError::abandoned(Some(self.status)),
                ),
                BodyEvent::ReadFailed => opening == CodexOpening::Rejected(
                    CodexTransportError::bad_body(
                        self.status,
                        "Codex upstream read failed",
                        FailureObservation::Network(NetworkKind::Read),
                    ),
                ),
                BodyEvent::TimedOut => opening == CodexOpening::Rejected(
                    CodexTransportError::bad_body(
                        self.status,
                        "Codex upstream response body timed out",
                        FailureObservation::Network(NetworkKind::Timeout),
                    ),
                ),
                BodyEvent::End => opening == CodexOpening::Rejected(
                    CodexTransportError::invalid_body(
                        self.status,
                        "Codex upstream returned an empty response",
                    ),
                ),
                BodyEvent::Chunk(chunk) => {
                    let consumed = self.consumed@ + chunk@;
                    let prefix = first_bytes(consumed, SNIFF_LIMIT as nat);
                    match prefix_kind(prefix) {
                        ResponsePrefixKind::Sse => {
                            opening matches CodexOpening::Opened { pending } && pending@ == consumed
                        },
                        ResponsePrefixKind::Html => opening == CodexOpening::Rejected(
                            CodexTransportError::invalid_body(
                                self.status,
                                "Codex upstream returned HTML instead of an event stream",
                            ),
                        ),
                        ResponsePrefixKind::Json => opening == CodexOpening::Rejected(
                            CodexTransportError::invalid_body(
                                self.status,
                                "Codex upstream returned JSON instead of an event stream",
                            ),
                        ),
                        ResponsePrefixKind::Other => opening == CodexOpening::Rejected(
                            CodexTransportError::invalid_body(
                                self.status,
                                "Codex upstream returned an unsupported response body",
                            ),
                        ),
                        ResponsePrefixKind::NeedMore => if prefix.len() < SNIFF_LIMIT {
                            &&& opening matches CodexOpening::Sniff(next)
                            &&& next.wf()
                            &&& next.status == self.status
                            &&& next.consumed@ == consumed
                            &&& next.prefix@.len() < SNIFF_LIMIT
                        } else {
                            opening == CodexOpening::Rejected(
                                CodexTransportError::invalid_body(
                                    self.status,
                                    "Codex upstream returned an unsupported response body",
                                ),
                            )
                        },
                    }
                },
            },
    {
        let status = self.status;
        match event {
            BodyEvent::Cancelled => CodexOpening::Rejected(
                CodexTransportError::new_abandoned(Some(status)),
            ),
            BodyEvent::ReadFailed => CodexOpening::Rejected(
                CodexTransportError::new_bad_body(
                    status,
                    "Codex upstream read failed",
                    FailureObservation::Network(NetworkKind::Read),
                ),
            ),
            BodyEvent::TimedOut => CodexOpening::Rejected(
                CodexTransportError::new_bad_body(
                    status,
                    "Codex upstream response body timed out",
                    FailureObservation::Network(NetworkKind::Timeout),
                ),
            ),
            BodyEvent::End => CodexOpening::Rejected(
                CodexTransportError::new_invalid_body(
                    status,
                    "Codex upstream returned an empty response",
                ),
            ),
            BodyEvent::Chunk(chunk) => {
                let mut prefix = self.prefix;
                let mut consumed = self.consumed;
                let remaining = SNIFF_LIMIT - prefix.len();
                let taken = if chunk.len() < remaining {
                    chunk.len()
                } else {
                    remaining
                };
                append_bytes(&mut consumed, chunk.as_slice());
                append_bytes(
                    &mut prefix,
                    vstd::slice::slice_subrange(chunk.as_slice(), 0, taken),
                );
                assert(prefix@ =~= first_bytes(consumed@, SNIFF_LIMIT as nat));
                match classify_response_prefix(prefix.as_slice()) {
                    ResponsePrefixKind::Sse => CodexOpening::Opened { pending: consumed },
                    ResponsePrefixKind::Html => CodexOpening::Rejected(
                        CodexTransportError::new_invalid_body(
                            status,
                            "Codex upstream returned HTML instead of an event stream",
                        ),
                    ),
                    ResponsePrefixKind::Json => CodexOpening::Rejected(
                        CodexTransportError::new_invalid_body(
                            status,
                            "Codex upstream returned JSON instead of an event stream",
                        ),
                    ),
                    ResponsePrefixKind::Other => CodexOpening::Rejected(
                        CodexTransportError::new_invalid_body(
                            status,
                            "Codex upstream returned an unsupported response body",
                        ),
                    ),
                    ResponsePrefixKind::NeedMore => if prefix.len() < SNIFF_LIMIT {
                        CodexOpening::Sniff(SniffRead { status, prefix, consumed })
                    } else {
                        CodexOpening::Rejected(
                            CodexTransportError::new_invalid_body(
                                status,
                                "Codex upstream returned an unsupported response body",
                            ),
                        )
                    },
                }
            },
        }
    }
}

impl CodexOpening {
    /// Says what is sent: the body as it is, to the endpoint. Only this leads to a POST;
    /// whatever comes of it, nothing is sent again.
    pub fn begin(
        endpoint: &str,
        access_token: &str,
        account_id: &str,
        use_responses_lite: bool,
        body: Vec<u8>,
    ) -> (opening: CodexOpening)
        ensures
            match header_fault(access_token@, account_id@) {
                Some(error) => opening == CodexOpening::Rejected(error),
                None => {
                    &&& opening matches CodexOpening::Post(post)
                    &&& post.endpoint@ == endpoint@
                    &&& post.body@ == body@
                    &&& are_request_headers(
                        post.headers@,
                        access_token@,
                        account_id@,
                        use_responses_lite,
                    )
                },
            },
    {
        match request_headers(access_token, account_id, use_responses_lite) {
            Ok(headers) => CodexOpening::Post(
                CodexPost { endpoint: endpoint.to_owned(), headers, body },
            ),
            Err(error) => CodexOpening::Rejected(error),
        }
    }

    /// The one POST went out and this came of it. `cancelled` is whether the caller
    /// has given up; it matters only for a refusal whose body cannot be collected.
    pub fn open_responses(outcome: SendOutcome, cancelled: bool) -> (opening: CodexOpening)
        ensures
            !(opening is Post),
            match outcome {
                SendOutcome::RuntimeFailed => opening == CodexOpening::Rejected(
                    CodexTransportError::network(
                        "Codex transport runtime failed",
                        NetworkKind::Connect,
                    ),
                ),
                SendOutcome::Cancelled => opening == CodexOpening::Rejected(
                    CodexTransportError::abandoned(None),
                ),
                SendOutcome::Failed => opening == CodexOpening::Rejected(
                    CodexTransportError::network(
                        "Codex upstream request failed",
                        NetworkKind::Connect,
                    ),
                ),
                SendOutcome::TimedOut => opening == CodexOpening::Rejected(
                    CodexTransportError::network(
                        "Codex upstream response timed out",
                        NetworkKind::Timeout,
                    ),
                ),
                SendOutcome::Head(head) => if head.is_success() {
                    if is_media_type(head.media_type(), "text/event-stream"@) {
                        opening matches CodexOpening::Opened { pending } && pending@ == Seq::<
                            u8,
                        >::empty()
                    } else if head.is_challenge() || head.media_type() is Some {
                        opening == CodexOpening::Rejected(
                            CodexTransportError::invalid_body(
                                head.status,
                                head.unexpected_detail(),
                            ),
                        )
                    } else {
                        &&& opening matches CodexOpening::Sniff(sniff)
                        &&& sniff.wf()
                        &&& sniff.status == head.status
                        &&& sniff.consumed@ == Seq::<u8>::empty()
                        &&& sniff.prefix@.len() < SNIFF_LIMIT
                    }
                } else {
                    let retry_after = retry_after_of(view_of(head.retry_after));
                    let request_id = request_id_of(view_of(head.request_id));
                    match head.content_length {
                        Some(length) if 0 < length <= FAILURE_BODY_LIMIT => {
                            &&& opening matches CodexOpening::ReadFailureBody(read)
                            &&& read.wf()
                            &&& read.status == head.status
                            &&& read.retry_after_seconds == retry_after
                            &&& view_of_id(read.request_id) == request_id
                            &&& read.collector.kept() == Seq::<u8>::empty()
                            &&& read.collector.declared() == length
                        },
                        _ => if cancelled && head.content_length != Some(0u64) {
                            opening == CodexOpening::Rejected(
                                CodexTransportError::abandoned(Some(head.status)),
                            )
                        } else {
                            &&& opening matches CodexOpening::Rejected(error)
                            &&& error.observation matches FailureObservation::Http {
                                request_id: id,
                                ..
                            }
                            &&& view_of_id(id) == request_id
                            &&& error == CodexTransportError::refused(
                                head.status,
                                retry_after,
                                id,
                                FailureBodyFacts::empty(),
                            )
                        },
                    }
                },
            },
    {
        match outcome {
            SendOutcome::RuntimeFailed => CodexOpening::Rejected(
                CodexTransportError::new_network(
                    "Codex transport runtime failed",
                    NetworkKind::Connect,
                ),
            ),
            SendOutcome::Cancelled => CodexOpening::Rejected(
                CodexTransportError::new_abandoned(None),
            ),
            SendOutcome::Failed => CodexOpening::Rejected(
                CodexTransportError::new_network(
                    "Codex upstream request failed",
                    NetworkKind::Connect,
                ),
            ),
            SendOutcome::TimedOut => CodexOpening::Rejected(
                CodexTransportError::new_network(
                    "Codex upstream response timed out",
                    NetworkKind::Timeout,
                ),
            ),
            SendOutcome::Head(head) => {
                if head.status < 200 || head.status > 299 {
                    Self::refused_head(&head, cancelled)
                } else if media_type_is(&head.response_media_type(), "text/event-stream") {
                    CodexOpening::Opened { pending: Vec::new() }
                } else if head.challenge_detected() || head.response_media_type().is_some() {
                    CodexOpening::Rejected(
                        CodexTransportError::new_invalid_body(
                            head.status,
                            head.unexpected_response_detail(),
                        ),
                    )
                } else {
                    CodexOpening::Sniff(
                        SniffRead { status: head.status, prefix: Vec::new(), consumed: Vec::new() },
                    )
                }
            },
        }
    }

    fn refused_head(head: &ResponseHead, cancelled: bool) -> (opening: CodexOpening)
        ensures
            ({
                let retry_after = retry_after_of(view_of(head.retry_after));
                let request_id = request_id_of(view_of(head.request_id));
                match head.content_length {
                    Some(length) if 0 < length <= FAILURE_BODY_LIMIT => {
                        &&& opening matches CodexOpening::ReadFailureBody(read)
                        &&& read.wf()
                        &&& read.status == head.status
                        &&& read.retry_after_seconds == retry_after
                        &&& view_of_id(read.request_id) == request_id
                        &&& read.collector.kept() == Seq::<u8>::empty()
                        &&& read.collector.declared() == length
                    },
                    _ => if cancelled && head.content_length != Some(0u64) {
                        opening == CodexOpening::Rejected(
                            CodexTransportError::abandoned(Some(head.status)),
                        )
                    } else {
                        &&& opening matches CodexOpening::Rejected(error)
                        &&& error.observation matches FailureObservation::Http { request_id: id, .. }
                        &&& view_of_id(id) == request_id
                        &&& error == CodexTransportError::refused(
                            head.status,
                            retry_after,
                            id,
                            FailureBodyFacts::empty(),
                        )
                    },
                }
            }),
    {
        let retry_after_seconds = parse_retry_after(as_text(&head.retry_after));
        let request_id = parse_request_id(as_text(&head.request_id));
        match FailureBodyCollector::new(head.content_length) {
            Some(collector) => {
                if collector.remaining() == 0 {
                    let facts = collector.facts();
                    proof {
                        lemma_empty_body();
                    }
                    return CodexOpening::Rejected(
                        CodexTransportError::new_refused(
                            head.status,
                            retry_after_seconds,
                            request_id,
                            facts,
                        ),
                    );
                }
                CodexOpening::ReadFailureBody(
                    FailureRead { status: head.status, retry_after_seconds, request_id, collector },
                )
            },
            None => {
                if cancelled {
                    return CodexOpening::Rejected(
                        CodexTransportError::new_abandoned(Some(head.status)),
                    );
                }
                CodexOpening::Rejected(
                    CodexTransportError::new_refused(
                        head.status,
                        retry_after_seconds,
                        request_id,
                        FailureBodyFacts::empty(),
                    ),
                )
            },
        }
    }
}

proof fn lemma_empty_body()
    ensures
        facts_of_body(Seq::empty()) == FailureBodyFacts::empty(),
{
    let s = Seq::<u8>::empty();
    assert(crate::failure_json::space_end(s, 0) == 0);
    assert(crate::failure_json::object_at(s, 0, 1, 0, true) is None);
}

// ---------------------------------------------------------------------------
// Reading on
// ---------------------------------------------------------------------------

/// Bytes that were received and not yet handed on.
pub struct PendingBytes {
    bytes: Vec<u8>,
    offset: usize,
}

impl View for PendingBytes {
    type V = Seq<u8>;

    closed spec fn view(&self) -> Seq<u8> {
        self.bytes@.skip(self.offset as int)
    }
}

impl PendingBytes {
    pub closed spec fn wf(self) -> bool {
        self.offset <= self.bytes@.len()
    }

    pub fn new(bytes: Vec<u8>) -> (pending: PendingBytes)
        ensures
            pending.wf(),
            pending@ == bytes@,
    {
        assert(bytes@.skip(0) =~= bytes@);
        PendingBytes { bytes, offset: 0 }
    }

    pub fn is_empty(&self) -> (empty: bool)
        requires
            self.wf(),
        ensures
            empty == (self@.len() == 0),
    {
        self.offset >= self.bytes.len()
    }

    /// Hands on at most `room` bytes, in the order in which they came.
    pub fn take(&mut self, room: usize) -> (bytes: Vec<u8>)
        requires
            old(self).wf(),
        ensures
            final(self).wf(),
            bytes@ == first_bytes(old(self)@, room as nat),
            bytes@ + final(self)@ == old(self)@,
    {
        let available = self.bytes.len() - self.offset;
        let length = if available < room {
            available
        } else {
            room
        };
        let ghost before = self@;
        let taken = vstd::slice::slice_to_vec(
            vstd::slice::slice_subrange(self.bytes.as_slice(), self.offset, self.offset + length),
        );
        assert(taken@ =~= first_bytes(before, room as nat));
        self.offset = self.offset + length;
        if self.offset == self.bytes.len() {
            self.bytes = Vec::new();
            self.offset = 0;
        }
        assert(taken@ + self@ =~= before);
        taken
    }

    /// A chunk came while nothing was pending.
    pub fn take_from_chunk(&mut self, chunk: Vec<u8>, room: usize) -> (bytes: Vec<u8>)
        requires
            old(self).wf(),
            old(self)@.len() == 0,
        ensures
            final(self).wf(),
            bytes@ == first_bytes(chunk@, room as nat),
            bytes@ + final(self)@ == chunk@,
    {
        self.bytes = chunk;
        self.offset = 0;
        assert(self@ =~= chunk@);
        self.take(room)
    }
}

// ---------------------------------------------------------------------------
// Laws
// ---------------------------------------------------------------------------

/// However the pieces are cut, what is handed on is what was received.
pub proof fn law_pending_bytes_keep_order(received: Seq<u8>, room: nat)
    ensures
        first_bytes(received, room) + received.skip(first_bytes(received, room).len() as int)
            == received,
        first_bytes(received, room).len() <= room,
{
    let head = first_bytes(received, room);
    assert(head + received.skip(head.len() as int) =~= received);
}

/// An error body of more than 16 KiB means nothing, whatever stands in it.
pub proof fn law_long_bodies_mean_nothing(body: Seq<u8>)
    requires
        body.len() > FAILURE_BODY_LIMIT,
    ensures
        facts_of_body(body) == FailureBodyFacts::empty(),
{
}

/// Spaces behind an error body change nothing, up to the limit; beyond it the body means
/// nothing, whatever its beginning says.
pub proof fn law_padding_means_nothing(body: Seq<u8>, n: nat)
    requires
        body.len() <= FAILURE_BODY_LIMIT,
    ensures
        facts_of_body(body + spaces(n)) == (if body.len() + n <= FAILURE_BODY_LIMIT {
            facts_of_body(body)
        } else {
            FailureBodyFacts::empty()
        }),
{
    law_spaces_behind_a_body(body, n, true);
}

/// A quota that the type or the code proves is a quota, whatever else is said.
pub proof fn law_quota_wins(tokens: ErrorTokens)
    ensures
        FailureBodyFacts::of(tokens).rate_kind == Some(RateKind::Quota) <==> tokens.kind == Some(
            FailureBodyToken::InsufficientQuota,
        ) || tokens.code == Some(FailureBodyToken::InsufficientQuota),
{
}

/// The two signals of a repairable refusal come from exactly the two words.
pub proof fn law_repair_needs_both_words(tokens: ErrorTokens)
    ensures
        FailureBodyFacts::of(tokens).error_code is UnsupportedValue <==> tokens.code == Some(
            FailureBodyToken::UnsupportedValue,
        ),
        FailureBodyFacts::of(tokens).error_param is ToolChoice <==> tokens.param == Some(
            FailureBodyToken::ToolChoice,
        ),
{
}

/// What the facts of an error body come from: a quota word in the type or the code makes it
/// a quota; failing that, the type `rate_limit_error` or the code `rate_limit_exceeded`, and
/// nothing else, makes it a rate limit. The code and the parameter are told by their own
/// words.
pub proof fn law_words_of_an_error_body(
    body: &[u8],
    facts: FailureBodyFacts,
    kind: Option<FailureBodyToken>,
    code: Option<FailureBodyToken>,
    param: Option<FailureBodyToken>,
)
    requires
        call_ensures(reduce_failure_body, (body,), facts),
        body@.len() <= 16_384,
        body_tokens(body@, true) == Some(ErrorTokens { kind, code, param }),
    ensures
        ({
            let quota = kind == Some(FailureBodyToken::InsufficientQuota) || code == Some(
                FailureBodyToken::InsufficientQuota,
            );
            &&& facts.rate_kind == Some(RateKind::Quota) <==> quota
            &&& !quota ==> (facts.rate_kind == Some(RateKind::RateLimit) <==> kind == Some(
                FailureBodyToken::RateLimitError,
            ) || code == Some(FailureBodyToken::RateLimitExceeded))
            &&& facts.error_code == ErrorCode::UnsupportedValue <==> code == Some(
                FailureBodyToken::UnsupportedValue,
            )
            &&& facts.error_code == ErrorCode::RateLimitExceeded <==> code == Some(
                FailureBodyToken::RateLimitExceeded,
            )
            &&& facts.error_code == ErrorCode::InsufficientQuota <==> quota && code != Some(
                FailureBodyToken::UnsupportedValue,
            ) && code != Some(FailureBodyToken::RateLimitExceeded)
            &&& facts.error_code == ErrorCode::Absent <==> code is None && !quota
            &&& facts.error_param == ErrorParam::ToolChoice <==> param == Some(
                FailureBodyToken::ToolChoice,
            )
            &&& facts.error_param == ErrorParam::Absent <==> param is None
        }),
{
}

/// Without a quota word, a rate limit is told by the type `rate_limit_error` or the code
/// `rate_limit_exceeded`, and by nothing else.
pub proof fn law_rate_limit_words(tokens: ErrorTokens)
    ensures
        ({
            let quota = tokens.kind == Some(FailureBodyToken::InsufficientQuota) || tokens.code
                == Some(FailureBodyToken::InsufficientQuota);
            let rate = tokens.kind == Some(FailureBodyToken::RateLimitError) || tokens.code == Some(
                FailureBodyToken::RateLimitExceeded,
            );
            &&& !quota ==> (FailureBodyFacts::of(tokens).rate_kind == Some(RateKind::RateLimit)
                <==> rate)
            &&& FailureBodyFacts::of(tokens).rate_kind is None <==> !quota && !rate
        }),
{
}

/// A body in which no words are found tells nothing.
pub proof fn law_unreadable_bodies_tell_nothing(body: &[u8], facts: FailureBodyFacts)
    requires
        call_ensures(reduce_failure_body, (body,), facts),
        body_tokens(body@, true) is None || body@.len() > 16_384,
    ensures
        facts.rate_kind is None,
        facts.error_code == ErrorCode::Absent,
        facts.error_param == ErrorParam::Absent,
{
}

/// A `retry-after` header counts exactly where it is a number in digits that fits, and then
/// for that number: reading its digits from left to right gives it.
pub proof fn law_retry_after_is_read_in_full(text: &str, seconds: Option<u64>)
    requires
        call_ensures(parse_retry_after, (Some(text),), seconds),
        text@.len() > 0,
    ensures
        seconds is Some <==> number_of(text@) <= u64::MAX && forall|i: int|
            0 <= i < text@.len() ==> '0' <= #[trigger] text@[i] <= '9',
        seconds matches Some(n) ==> n == number_of(text@.drop_last()) * 10 + (text@.last() as u32
            - '0' as u32),
        text@.len() == 1 && '0' <= text@[0] <= '9' ==> seconds == Some(
            (text@[0] as u32 - '0' as u32) as u64,
        ),
{
    if text@.len() == 1 {
        assert(text@.drop_last() =~= Seq::<char>::empty());
        assert(number_of(Seq::<char>::empty()) == 0);
        assert(text@.last() == text@[0]);
    }
}

/// An identifier is taken over as it stands, or not at all: not where it is empty, too long
/// or has a character other than a letter, a digit, a dash, an underscore, a dot or a colon.
pub proof fn law_request_ids_are_shown_or_dropped(text: &str, id: Option<RequestId>)
    requires
        call_ensures(parse_request_id, (Some(text),), id),
    ensures
        id matches Some(id) ==> id@ == text@,
        id is Some <==> 0 < text@.len() <= 256 && forall|i: int|
            0 <= i < text@.len() ==> {
                let c = #[trigger] text@[i];
                ||| 'a' <= c <= 'z'
                ||| 'A' <= c <= 'Z'
                ||| '0' <= c <= '9'
                ||| c == '-' || c == '_' || c == '.' || c == ':'
            },
{
    assert forall|i: int| 0 <= i < text@.len() && valid_id(text@) implies {
        let c = #[trigger] text@[i];
        ||| 'a' <= c <= 'z'
        ||| 'A' <= c <= 'Z'
        ||| '0' <= c <= '9'
        ||| c == '-' || c == '_' || c == '.' || c == ':'
    } by {
        let c = text@[i];
        assert(crate::provider_failure::is_id_byte(text@[i] as u8));
        assert(vstd::utf8::is_ascii_chars(text@));
        assert(c as u32 as int == (c as u8) as int);
    }
}

/// What comes of the one POST without a reply: an error that tells why, and no status of the
/// provider's.
pub proof fn law_posts_without_a_reply(
    outcome: SendOutcome,
    cancelled: bool,
    opening: CodexOpening,
)
    requires
        call_ensures(CodexOpening::open_responses, (outcome, cancelled), opening),
        !(outcome is Head),
    ensures
        opening matches CodexOpening::Rejected(error) && {
            &&& error.upstream_status is None
            &&& outcome is RuntimeFailed || outcome is Failed ==> error.status == 502
                && !error.cancelled && error.observation == FailureObservation::Network(
                NetworkKind::Connect,
            )
            &&& outcome is TimedOut ==> error.status == 504 && !error.cancelled
                && error.observation == FailureObservation::Network(NetworkKind::Timeout)
            &&& outcome is Cancelled ==> error.status == 499 && error.cancelled
                && error.observation == FailureObservation::Cancelled
            &&& outcome is RuntimeFailed ==> error.detail == "Codex transport runtime failed"
            &&& outcome is Failed ==> error.detail == "Codex upstream request failed"
            &&& outcome is TimedOut ==> error.detail == "Codex upstream response timed out"
            &&& outcome is Cancelled ==> error.detail == "Codex request was cancelled"
        },
{
}

/// What a reply that is a success leads to: its stream, where it is labelled as one; its
/// first bytes, where it has no label; and else a refusal that names the status.
pub proof fn law_successes_are_opened_or_refused(
    head: ResponseHead,
    cancelled: bool,
    opening: CodexOpening,
)
    requires
        call_ensures(CodexOpening::open_responses, (SendOutcome::Head(head), cancelled), opening),
        200 <= head.status <= 299,
    ensures
        ({
            let label = media_type_of(view_of(head.content_type));
            let challenge = head.cf_mitigated matches Some(text) && lowered(text@) == lowered(
                "challenge"@,
            );
            let stream = label matches Some(text) && lowered(text) == lowered("text/event-stream"@);
            &&& stream <==> opening is Opened
            &&& opening matches CodexOpening::Opened { pending } ==> pending@.len() == 0
            &&& label is None && !challenge <==> opening is Sniff
            &&& opening matches CodexOpening::Sniff(read) ==> read.status == head.status
                && read.consumed@.len() == 0 && read.prefix@.len() == 0
            &&& !(opening is ReadFailureBody)
            &&& opening matches CodexOpening::Rejected(error) ==> {
                &&& error.status == 502
                &&& error.upstream_status == Some(head.status)
                &&& !error.cancelled
                &&& error.observation == FailureObservation::Protocol(ProtocolKind::InvalidResponse)
                &&& challenge <==> error.detail
                    == "Codex upstream returned a Cloudflare challenge response"
            }
        }),
{
    reveal_strlit("Codex upstream returned a Cloudflare challenge response");
    reveal_strlit("Codex upstream returned JSON instead of an event stream");
    reveal_strlit("Codex upstream returned HTML instead of an event stream");
    reveal_strlit("Codex upstream returned no response content type");
    reveal_strlit("Codex upstream returned an unsupported response content type");
}

/// What a refusal leads to: its body is read where its length is declared and bearable, and
/// else it is told at once, with the header's own words, and nothing of the body.
pub proof fn law_refusals_are_told_with_their_headers(
    head: ResponseHead,
    cancelled: bool,
    opening: CodexOpening,
)
    requires
        call_ensures(CodexOpening::open_responses, (SendOutcome::Head(head), cancelled), opening),
        head.status < 200 || head.status > 299,
    ensures
        ({
            let wait = match head.retry_after {
                Some(text) => retry_after_of(Some(text@)),
                None => None,
            };
            let id = match head.request_id {
                Some(text) if valid_id(text@) => Some(text@),
                _ => None,
            };
            let readable = head.content_length matches Some(length) && 0 < length <= 16_384;
            &&& readable <==> opening is ReadFailureBody
            &&& opening matches CodexOpening::ReadFailureBody(read) ==> {
                &&& read.status == head.status
                &&& read.retry_after_seconds == wait
                &&& view_of_id(read.request_id) == id
                &&& head.content_length == Some(read.collector.declared() as u64)
                &&& read.collector.kept().len() == 0
            }
            &&& !readable ==> opening is Rejected
            &&& opening matches CodexOpening::Rejected(error) ==> {
                &&& error.upstream_status == Some(head.status)
                &&& error.cancelled <==> cancelled && head.content_length != Some(0u64)
                &&& error.cancelled ==> error.status == 499 && error.observation
                    == FailureObservation::Cancelled
                &&& !error.cancelled ==> tells(
                    error,
                    head.status,
                    wait,
                    id,
                    None,
                    ErrorCode::Absent,
                    ErrorParam::Absent,
                )
            }
        }),
{
}

/// The error tells of a refusal with this status and these facts. The caller sees a refused
/// or exhausted account as it is, a late reply as a 504, and all else as a 502.
pub open spec fn tells(
    error: CodexTransportError,
    status: u16,
    wait: Option<u64>,
    id: Option<Seq<char>>,
    rate_kind: Option<RateKind>,
    error_code: ErrorCode,
    error_param: ErrorParam,
) -> bool {
    &&& error.upstream_status == Some(status)
    &&& !error.cancelled
    &&& error.detail@ == "Codex upstream rejected the request"@
    &&& status == 401 ==> error.status == 401
    &&& status == 403 ==> error.status == 403
    &&& status == 429 ==> error.status == 429
    &&& status == 408 ==> error.status == 504
    &&& status != 401 && status != 403 && status != 429 && status != 408 ==> error.status == 502
    &&& error.observation matches FailureObservation::Http {
        status: seen,
        rate_kind: rate,
        retry_after_seconds,
        request_id,
        error_code: code,
        error_param: param,
    }
    &&& seen == status
    &&& rate == rate_kind
    &&& retry_after_seconds == wait
    &&& view_of_id(request_id) == id
    &&& code == error_code
    &&& param == error_param
}

/// What the body of a refusal leads to. Only a body that came whole, as long as it was
/// declared, is looked at; every other end tells nothing of it.
pub proof fn law_whole_refusals_are_read(
    read: FailureRead,
    event: BodyEvent,
    opening: CodexOpening,
)
    requires
        read.wf(),
        read.collector.kept().len() < read.collector.declared(),
        call_ensures(FailureRead::on_body, (read, event), opening),
    ensures
        ({
            let id = view_of_id(read.request_id);
            let wait = read.retry_after_seconds;
            match event {
                BodyEvent::Cancelled => opening matches CodexOpening::Rejected(error)
                    && error.cancelled && error.status == 499 && error.upstream_status == Some(
                    read.status,
                ) && error.observation == FailureObservation::Cancelled,
                BodyEvent::Chunk(chunk) if read.collector.kept().len() + chunk@.len()
                    < read.collector.declared() => opening matches CodexOpening::ReadFailureBody(
                    next,
                ) && next.status == read.status && next.retry_after_seconds == wait && view_of_id(
                    next.request_id,
                ) == id && next.collector.kept() == read.collector.kept() + chunk@
                    && next.collector.declared() == read.collector.declared(),
                BodyEvent::Chunk(chunk) if read.collector.kept().len() + chunk@.len()
                    == read.collector.declared() => {
                    let facts = facts_of_body(read.collector.kept() + chunk@);
                    opening matches CodexOpening::Rejected(error) && tells(
                        error,
                        read.status,
                        wait,
                        id,
                        facts.rate_kind,
                        facts.error_code,
                        facts.error_param,
                    )
                },
                _ => opening matches CodexOpening::Rejected(error) && tells(
                    error,
                    read.status,
                    wait,
                    id,
                    None,
                    ErrorCode::Absent,
                    ErrorParam::Absent,
                ),
            }
        }),
{
}

/// What the first bytes of an unlabelled reply lead to: whatever was read of a stream is
/// handed on, byte for byte, and in every other end the status of the reply is told.
pub proof fn law_sniffed_streams_lose_nothing(
    read: SniffRead,
    event: BodyEvent,
    opening: CodexOpening,
)
    requires
        read.wf(),
        read.prefix@.len() < 512,
        call_ensures(SniffRead::on_body, (read, event), opening),
    ensures
        opening matches CodexOpening::Opened { pending } ==> (event matches BodyEvent::Chunk(chunk)
            && pending@ == read.consumed@ + chunk@),
        opening matches CodexOpening::Sniff(next) ==> (event matches BodyEvent::Chunk(chunk)
            && next.consumed@ == read.consumed@ + chunk@ && next.status == read.status),
        opening matches CodexOpening::Rejected(error) ==> {
            &&& error.upstream_status == Some(read.status)
            &&& error.cancelled <==> event is Cancelled
            &&& event is Cancelled ==> error.status == 499 && error.observation
                == FailureObservation::Cancelled
            &&& event is ReadFailed ==> error.status == 502 && error.observation
                == FailureObservation::Network(NetworkKind::Read)
            &&& event is TimedOut ==> error.status == 504 && error.observation
                == FailureObservation::Network(NetworkKind::Timeout)
            &&& event is End || event is Chunk ==> error.status == 502 && error.observation
                == FailureObservation::Protocol(ProtocolKind::InvalidResponse)
        },
        opening is Opened || opening is Sniff || opening is Rejected,
        !(event is Chunk) ==> opening is Rejected,
{
}

/// The bytes of the field names of an event stream.
proof fn lemma_field_bytes()
    ensures
        encode_utf8("data:"@) == seq![100u8, 97, 116, 97, 58],
        encode_utf8("event:"@) == seq![101u8, 118, 101, 110, 116, 58],
        encode_utf8("id:"@) == seq![105u8, 100, 58],
        encode_utf8("retry:"@) == seq![114u8, 101, 116, 114, 121, 58],
        encode_utf8(":"@) == seq![58u8],
{
    reveal_strlit("data:");
    reveal_strlit("event:");
    reveal_strlit("id:");
    reveal_strlit("retry:");
    reveal_strlit(":");
    vstd::utf8::is_ascii_chars_encode_utf8("data:"@);
    vstd::utf8::is_ascii_chars_encode_utf8("event:"@);
    vstd::utf8::is_ascii_chars_encode_utf8("id:"@);
    vstd::utf8::is_ascii_chars_encode_utf8("retry:"@);
    vstd::utf8::is_ascii_chars_encode_utf8(":"@);
    assert(encode_utf8("data:"@) =~= seq![100u8, 97, 116, 97, 58]);
    assert(encode_utf8("event:"@) =~= seq![101u8, 118, 101, 110, 116, 58]);
    assert(encode_utf8("id:"@) =~= seq![105u8, 100, 58]);
    assert(encode_utf8("retry:"@) =~= seq![114u8, 101, 116, 114, 121, 58]);
    assert(encode_utf8(":"@) =~= seq![58u8]);
}

/// White space in front of a reply, and a byte order mark in front of that, say nothing of
/// what it is.
pub proof fn law_leading_space_says_nothing(bytes: Seq<u8>)
    ensures
        prefix_kind(Seq::empty()) == ResponsePrefixKind::NeedMore,
        bytes.len() >= 2 && (bytes[0] == 32 || bytes[0] == 9 || bytes[0] == 10 || bytes[0] == 12
            || bytes[0] == 13) && bytes[1] != 0xef ==> prefix_kind(bytes) == prefix_kind(
            bytes.skip(1),
        ),
        bytes.len() >= 4 && bytes[0] == 0xef && bytes[1] == 0xbb && bytes[2] == 0xbf && bytes[3]
            != 0xef ==> prefix_kind(bytes) == prefix_kind(bytes.skip(3)),
{
    assert(skip_ascii_space(Seq::<u8>::empty()) =~= Seq::<u8>::empty());
    if bytes.len() >= 2 {
        assert(without_byte_order_mark(bytes.skip(1)) == bytes.skip(1) || bytes[1] == 0xef);
    }
    if bytes.len() >= 4 {
        assert(bytes.skip(3)[0] == bytes[3]);
    }
}

/// A reply is told by how it begins. An event stream begins with the name of a field, or
/// with a colon; a page with an angle bracket; JSON with a brace or a bracket. As long as
/// what came may still become the name of a field, more is needed; all else is none of these.
pub proof fn law_replies_are_told_by_their_beginning(s: Seq<u8>)
    requires
        s.len() > 0,
        s[0] != 32 && s[0] != 9 && s[0] != 10 && s[0] != 12 && s[0] != 13 && s[0] != 0xef,
    ensures
        ({
            let kind = prefix_kind(s);
            let data = seq![100u8, 97, 116, 97, 58];
            let event = seq![101u8, 118, 101, 110, 116, 58];
            let id = seq![105u8, 100, 58];
            let retry = seq![114u8, 101, 116, 114, 121, 58];
            &&& kind == ResponsePrefixKind::Sse <==> s[0] == 58 || has_prefix(s, data)
                || has_prefix(s, event) || has_prefix(s, id) || has_prefix(s, retry)
            &&& s[0] == 60 <==> kind == ResponsePrefixKind::Html
            &&& s[0] == 123 || s[0] == 91 <==> kind == ResponsePrefixKind::Json
            &&& kind == ResponsePrefixKind::NeedMore <==> (s.len() < 5 && has_prefix(data, s)) || (
            s.len() < 6 && has_prefix(event, s)) || (s.len() < 3 && has_prefix(id, s)) || (s.len()
                < 6 && has_prefix(retry, s))
        }),
{
    lemma_field_bytes();
    assert(skip_ascii_space(s) == s);
    assert(without_byte_order_mark(s) == s);
    let data = seq![100u8, 97, 116, 97, 58];
    let event = seq![101u8, 118, 101, 110, 116, 58];
    let id = seq![105u8, 100, 58];
    let retry = seq![114u8, 101, 116, 114, 121, 58];
    let colon = seq![58u8];
    assert(has_prefix(s, colon) <==> s[0] == 58) by {
        assert(colon[0] == 58u8);
        if s[0] == 58 {
            assert(s.take(1) =~= colon);
        }
    }
    lemma_first_of_prefix(s, data);
    lemma_first_of_prefix(s, event);
    lemma_first_of_prefix(s, id);
    lemma_first_of_prefix(s, retry);
    lemma_first_of_prefix(data, s);
    lemma_first_of_prefix(event, s);
    lemma_first_of_prefix(id, s);
    lemma_first_of_prefix(retry, s);
    lemma_first_of_prefix(colon, s);
    lemma_same_length(s, data);
    lemma_same_length(s, event);
    lemma_same_length(s, id);
    lemma_same_length(s, retry);
    lemma_same_length(s, colon);
}

proof fn lemma_first_of_prefix(s: Seq<u8>, prefix: Seq<u8>)
    requires
        prefix.len() > 0,
    ensures
        has_prefix(s, prefix) ==> s.len() >= prefix.len() && s[0] == prefix[0],
{
    if has_prefix(s, prefix) {
        assert(s.take(prefix.len() as int)[0] == prefix[0]);
    }
}

proof fn lemma_same_length(s: Seq<u8>, name: Seq<u8>)
    ensures
        has_prefix(name, s) && s.len() >= name.len() ==> has_prefix(s, name),
{
    if has_prefix(name, s) && s.len() >= name.len() {
        assert(name.take(s.len() as int) =~= name);
        assert(s.take(name.len() as int) =~= name);
    }
}

/// The request is sent to the endpoint with the body as it was given, and its headers hold
/// the account's own token and name, marked as secrets; nothing else is a secret.
pub proof fn law_posts_carry_the_account(
    endpoint: &str,
    access_token: &str,
    account_id: &str,
    use_responses_lite: bool,
    body: Vec<u8>,
    opening: CodexOpening,
)
    requires
        call_ensures(
            CodexOpening::begin,
            (endpoint, access_token, account_id, use_responses_lite, body),
            opening,
        ),
    ensures
        opening matches CodexOpening::Post(post) ==> {
            &&& post.endpoint@ == endpoint@
            &&& post.body@ == body@
            &&& exists|i: int|
                0 <= i < post.headers@.len() && has_header(
                    #[trigger] post.headers@[i],
                    "authorization"@,
                    "Bearer "@ + access_token@,
                    true,
                )
            &&& exists|i: int|
                0 <= i < post.headers@.len() && has_header(
                    #[trigger] post.headers@[i],
                    "ChatGPT-Account-ID"@,
                    account_id@,
                    true,
                )
            &&& exists|i: int|
                0 <= i < post.headers@.len() && has_header(
                    #[trigger] post.headers@[i],
                    "accept"@,
                    "text/event-stream"@,
                    false,
                )
            &&& exists|i: int|
                0 <= i < post.headers@.len() && has_header(
                    #[trigger] post.headers@[i],
                    "content-type"@,
                    "application/json"@,
                    false,
                )
            &&& exists|i: int|
                0 <= i < post.headers@.len() && has_header(
                    #[trigger] post.headers@[i],
                    "user-agent"@,
                    "codex_cli_rs"@,
                    false,
                )
            &&& exists|i: int|
                0 <= i < post.headers@.len() && has_header(
                    #[trigger] post.headers@[i],
                    "originator"@,
                    "codex_cli_rs"@,
                    false,
                )
            &&& use_responses_lite <==> exists|i: int|
                0 <= i < post.headers@.len() && has_header(
                    #[trigger] post.headers@[i],
                    "x-openai-internal-codex-responses-lite"@,
                    "true"@,
                    false,
                )
            &&& post.headers@.len() == 6 + (if use_responses_lite {
                1int
            } else {
                0
            })
        },
        opening is Post || opening is Rejected,
        opening matches CodexOpening::Rejected(error) ==> error.status == 401
            && error.upstream_status is None && !error.cancelled,
        opening is Post <==> (forall|i: int|
            0 <= i < encode_utf8("Bearer "@ + access_token@).len() ==> is_shown_byte(
                #[trigger] encode_utf8("Bearer "@ + access_token@)[i],
            )) && (forall|i: int|
            0 <= i < encode_utf8(account_id@).len() ==> is_shown_byte(
                #[trigger] encode_utf8(account_id@)[i],
            )),
{
    if opening is Post {
        let headers = opening->Post_0.headers@;
        assert(has_header(headers[0], "content-type"@, "application/json"@, false));
        assert(has_header(headers[1], "accept"@, "text/event-stream"@, false));
        assert(has_header(headers[2], "user-agent"@, "codex_cli_rs"@, false));
        assert(has_header(headers[3], "originator"@, "codex_cli_rs"@, false));
        assert(has_header(headers[4], "ChatGPT-Account-ID"@, account_id@, true));
        assert(has_header(headers[5], "authorization"@, "Bearer "@ + access_token@, true));
        reveal_strlit("x-openai-internal-codex-responses-lite");
        reveal_strlit("content-type");
        reveal_strlit("accept");
        reveal_strlit("user-agent");
        reveal_strlit("originator");
        reveal_strlit("ChatGPT-Account-ID");
        reveal_strlit("authorization");
        if use_responses_lite {
            assert(has_header(
                headers[6],
                "x-openai-internal-codex-responses-lite"@,
                "true"@,
                false,
            ));
        } else {
            assert forall|i: int| 0 <= i < headers.len() implies !has_header(
                #[trigger] headers[i],
                "x-openai-internal-codex-responses-lite"@,
                "true"@,
                false,
            ) by {
                assert(headers[i].name@.len() < 20);
            }
        }
    }
}

pub open spec fn has_header(
    header: RequestHeader,
    name: Seq<char>,
    value: Seq<char>,
    sensitive: bool,
) -> bool {
    header.name@ == name && header.value@ == value && header.sensitive == sensitive
}

/// A byte that a header can hold: no control byte but the tab.
pub open spec fn is_shown_byte(byte: u8) -> bool {
    byte == 9 || 32 <= byte <= 126 || 128 <= byte
}

} // verus!
