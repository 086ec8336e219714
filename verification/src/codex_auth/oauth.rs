//! The OAuth side of a login: errors, replies of the token endpoint, tokens, and the
//! authorization request.

use vstd::prelude::*;

use crate::codex_auth::storage::{
    NewOAuthTokens, RefreshUpdate, RevokeToken, RevokeTokenKind, StorageError,
};
use crate::crypto::{
    base64url_decoded, base64url_of, decode_base64url, draw, draw_failed, drawn, encode_base64url,
    sha256, sha256_of,
};
use crate::duration::Duration;
use crate::json_text::{json_string_of, object_text, ObjectText};
use crate::text::{
    before, chars_are, chars_found_at, chars_of, chars_split_by, is_blank, join, lower_chars,
    lowered, quoted, quoted_text, split_by, str_eq, text_before, text_is_blank, text_of, to_lower, trim, trim_chars,
    trimmed, view_of, view_of_str, views,
};
use crate::web::{
    encode_form, form_fields, form_text, reads_back, scheme_and_host, scheme_and_host_of,
    str_pair_views,
    url_at_path, url_at_path_with_query, with_path, with_path_and_query,
};
use vstd::string::*;
use vstd::utf8::*;

verus! {

pub const CODEX_OAUTH_ISSUER: &'static str = "https://auth.openai.com";

pub const CODEX_OAUTH_CLIENT_ID: &'static str = "app_EMoamEEZ73f0CkXaXp7hrann";

pub const CODEX_OAUTH_SCOPE: &'static str =
    "openid profile email offline_access api.connectors.read api.connectors.invoke";

pub const CODEX_OAUTH_ORIGINATOR: &'static str = "codex_cli_rs";

pub const CALLBACK_PATH: &'static str = "/auth/callback";

pub const MAX_TOKEN_RESPONSE: u64 = 1_048_576;

pub const MAX_JWT_PAYLOAD: usize = 262_144;

pub const MAX_TOKEN_BYTES: usize = 262_144;

#[derive(Debug, Clone, Copy, PartialEq, Eq, Structural)]
pub enum OAuthErrorCode {
    AuthBusy,
    AuthChanged,
    AuthStateInvalid,
    BrowserOpenFailed,
    CallbackTimeout,
    CallbackUnavailable,
    NotAuthenticated,
    OAuthDenied,
    OAuthNetwork,
    OAuthProtocol,
    OAuthUnexpectedContentType,
    OAuthChallengeResponse,
    ProxyConnectFailed,
    TlsFailed,
    AuthCancelled,
    Storage,
    UnsupportedPlatform,
}

impl OAuthErrorCode {
    /// The stable public name of a code.
    pub open spec fn name(self) -> Seq<char> {
        match self {
            OAuthErrorCode::AuthBusy => "auth_busy"@,
            OAuthErrorCode::AuthChanged => "auth_changed"@,
            OAuthErrorCode::AuthStateInvalid => "auth_state_invalid"@,
            OAuthErrorCode::BrowserOpenFailed => "browser_open_failed"@,
            OAuthErrorCode::CallbackTimeout => "callback_timeout"@,
            OAuthErrorCode::CallbackUnavailable => "callback_unavailable"@,
            OAuthErrorCode::NotAuthenticated => "not_authenticated"@,
            OAuthErrorCode::OAuthDenied => "oauth_denied"@,
            OAuthErrorCode::OAuthNetwork => "oauth_network_error"@,
            OAuthErrorCode::OAuthProtocol => "oauth_protocol_error"@,
            OAuthErrorCode::OAuthUnexpectedContentType => "oauth_unexpected_content_type"@,
            OAuthErrorCode::OAuthChallengeResponse => "oauth_challenge_response"@,
            OAuthErrorCode::ProxyConnectFailed => "proxy_connect_failed"@,
            OAuthErrorCode::TlsFailed => "tls_failed"@,
            OAuthErrorCode::AuthCancelled => "auth_cancelled"@,
            OAuthErrorCode::Storage => "auth_storage_error"@,
            OAuthErrorCode::UnsupportedPlatform => "unsupported_platform"@,
        }
    }

    pub fn as_str(self) -> (text: &'static str)
        ensures
            text@ == self.name(),
    {
        match self {
            OAuthErrorCode::AuthBusy => "auth_busy",
            OAuthErrorCode::AuthChanged => "auth_changed",
            OAuthErrorCode::AuthStateInvalid => "auth_state_invalid",
            OAuthErrorCode::BrowserOpenFailed => "browser_open_failed",
            OAuthErrorCode::CallbackTimeout => "callback_timeout",
            OAuthErrorCode::CallbackUnavailable => "callback_unavailable",
            OAuthErrorCode::NotAuthenticated => "not_authenticated",
            OAuthErrorCode::OAuthDenied => "oauth_denied",
            OAuthErrorCode::OAuthNetwork => "oauth_network_error",
            OAuthErrorCode::OAuthProtocol => "oauth_protocol_error",
            OAuthErrorCode::OAuthUnexpectedContentType => "oauth_unexpected_content_type",
            OAuthErrorCode::OAuthChallengeResponse => "oauth_challenge_response",
            OAuthErrorCode::ProxyConnectFailed => "proxy_connect_failed",
            OAuthErrorCode::TlsFailed => "tls_failed",
            OAuthErrorCode::AuthCancelled => "auth_cancelled",
            OAuthErrorCode::Storage => "auth_storage_error",
            OAuthErrorCode::UnsupportedPlatform => "unsupported_platform",
        }
    }
}

/// A failed login, refresh or logout. Every text in it is fixed in the program.
#[derive(Debug, PartialEq, Eq)]
pub struct OAuthFlowError {
    pub code: OAuthErrorCode,
    pub retryable: bool,
    pub message: &'static str,
    pub stage: &'static str,
    pub upstream_status: Option<u16>,
    pub response_kind: Option<&'static str>,
    pub challenge_detected: Option<bool>,
    pub transport_kind: Option<&'static str>,
}

/// What an [`OAuthFlowError`] says.
pub ghost struct FlowError {
    pub code: OAuthErrorCode,
    pub retryable: bool,
    pub message: Seq<char>,
    pub stage: Seq<char>,
    pub upstream_status: Option<u16>,
    pub response_kind: Option<Seq<char>>,
    pub challenge_detected: Option<bool>,
    pub transport_kind: Option<Seq<char>>,
}

impl FlowError {
    pub open spec fn new(code: OAuthErrorCode, retryable: bool, message: Seq<char>) -> FlowError {
        FlowError {
            code,
            retryable,
            message,
            stage: "token_exchange"@,
            upstream_status: None,
            response_kind: None,
            challenge_detected: None,
            transport_kind: None,
        }
    }

    pub open spec fn protocol(message: Seq<char>) -> FlowError {
        FlowError::new(OAuthErrorCode::OAuthProtocol, false, message)
    }

    pub open spec fn at_stage(self, stage: Seq<char>) -> FlowError {
        FlowError { stage, ..self }
    }

    pub open spec fn with_http(
        self,
        status: Option<u16>,
        kind: Option<Seq<char>>,
        challenge: Option<bool>,
    ) -> FlowError {
        FlowError {
            upstream_status: status,
            response_kind: kind,
            challenge_detected: challenge,
            ..self
        }
    }

    pub open spec fn with_transport(self, kind: Seq<char>) -> FlowError {
        FlowError { transport_kind: Some(kind), ..self }
    }
}

impl View for OAuthFlowError {
    type V = FlowError;

    open spec fn view(&self) -> FlowError {
        FlowError {
            code: self.code,
            retryable: self.retryable,
            message: self.message@,
            stage: self.stage@,
            upstream_status: self.upstream_status,
            response_kind: view_of_str(self.response_kind),
            challenge_detected: self.challenge_detected,
            transport_kind: view_of_str(self.transport_kind),
        }
    }
}

impl Clone for OAuthFlowError {
    fn clone(&self) -> (copy: Self)
        ensures
            copy == *self,
    {
        OAuthFlowError {
            code: self.code,
            retryable: self.retryable,
            message: self.message,
            stage: self.stage,
            upstream_status: self.upstream_status,
            response_kind: self.response_kind,
            challenge_detected: self.challenge_detected,
            transport_kind: self.transport_kind,
        }
    }
}

impl OAuthFlowError {
    pub fn new(code: OAuthErrorCode, retryable: bool, message: &'static str) -> (error: Self)
        ensures
            error@ == FlowError::new(code, retryable, message@),
    {
        OAuthFlowError {
            code,
            retryable,
            message,
            stage: "token_exchange",
            upstream_status: None,
            response_kind: None,
            challenge_detected: None,
            transport_kind: None,
        }
    }

    pub fn protocol(message: &'static str) -> (error: Self)
        ensures
            error@ == FlowError::protocol(message@),
    {
        Self::new(OAuthErrorCode::OAuthProtocol, false, message)
    }

    pub fn at_stage(self, stage: &'static str) -> (error: Self)
        ensures
            error@ == self@.at_stage(stage@),
    {
        OAuthFlowError { stage, ..self }
    }

    pub fn with_http(
        self,
        status: Option<u16>,
        response_kind: Option<&'static str>,
        challenge_detected: Option<bool>,
    ) -> (error: Self)
        ensures
            error@ == self@.with_http(status, view_of_str(response_kind), challenge_detected),
    {
        OAuthFlowError { upstream_status: status, response_kind, challenge_detected, ..self }
    }

    pub fn with_transport(self, transport_kind: &'static str) -> (error: Self)
        ensures
            error@ == self@.with_transport(transport_kind@),
    {
        OAuthFlowError { transport_kind: Some(transport_kind), ..self }
    }

    /// What a user reads.
    pub fn to_text(&self) -> (text: &'static str)
        ensures
            text@ == self@.message,
    {
        self.message
    }
}

/// The error that stands for a failure of the credential store.
pub open spec fn storage_failure(error: StorageError) -> OAuthFlowError {
    let (code, retryable, message) = match error {
        StorageError::Busy => (
            OAuthErrorCode::AuthBusy,
            true,
            "Another Codex auth operation is in progress",
        ),
        StorageError::AuthChanged => (
            OAuthErrorCode::AuthChanged,
            true,
            "Codex authentication changed during the operation",
        ),
        StorageError::InvalidState(_) => (
            OAuthErrorCode::AuthStateInvalid,
            false,
            "Codex authentication state is invalid",
        ),
        StorageError::NotAuthenticated => (
            OAuthErrorCode::NotAuthenticated,
            false,
            "Codex is not signed in through CSSwitch",
        ),
        StorageError::UnsupportedPlatform => (
            OAuthErrorCode::UnsupportedPlatform,
            false,
            "Codex authentication storage is unsupported on this platform",
        ),
        StorageError::Unavailable(_) | StorageError::RollbackFailed => (
            OAuthErrorCode::Storage,
            true,
            "Codex credentials could not be stored safely",
        ),
    };
    OAuthFlowError {
        code,
        retryable,
        message,
        stage: "token_exchange",
        upstream_status: None,
        response_kind: None,
        challenge_detected: None,
        transport_kind: None,
    }
}

impl vstd::std_specs::convert::FromSpecImpl<StorageError> for OAuthFlowError {
    open spec fn obeys_from_spec() -> bool {
        true
    }

    open spec fn from_spec(error: StorageError) -> OAuthFlowError {
        storage_failure(error)
    }
}

impl From<StorageError> for OAuthFlowError {
    fn from(error: StorageError) -> (flow: Self) {
        let (code, retryable, message) = match error {
            StorageError::Busy => (
                OAuthErrorCode::AuthBusy,
                true,
                "Another Codex auth operation is in progress",
            ),
            StorageError::AuthChanged => (
                OAuthErrorCode::AuthChanged,
                true,
                "Codex authentication changed during the operation",
            ),
            StorageError::InvalidState(_) => (
                OAuthErrorCode::AuthStateInvalid,
                false,
                "Codex authentication state is invalid",
            ),
            StorageError::NotAuthenticated => (
                OAuthErrorCode::NotAuthenticated,
                false,
                "Codex is not signed in through CSSwitch",
            ),
            StorageError::UnsupportedPlatform => (
                OAuthErrorCode::UnsupportedPlatform,
                false,
                "Codex authentication storage is unsupported on this platform",
            ),
            StorageError::Unavailable(_) | StorageError::RollbackFailed => (
                OAuthErrorCode::Storage,
                true,
                "Codex credentials could not be stored safely",
            ),
        };
        OAuthFlowError {
            code,
            retryable,
            message,
            stage: "token_exchange",
            upstream_status: None,
            response_kind: None,
            challenge_detected: None,
            transport_kind: None,
        }
    }
}

/// The kind of body that a content type declares.
pub open spec fn declared_kind_of(content_type: Option<Seq<char>>) -> Seq<char> {
    match content_type {
        None => "unknown"@,
        Some(value) => {
            let value = lowered(trimmed(before(value, ';')));
            if value == "application/json"@ || ends_with(value, "+json"@) {
                "json"@
            } else if value == "text/html"@ || value == "application/xhtml+xml"@ {
                "html"@
            } else {
                "other"@
            }
        },
    }
}

pub open spec fn ends_with(text: Seq<char>, tail: Seq<char>) -> bool {
    tail.len() <= text.len() && text.skip(text.len() - tail.len()) == tail
}


fn text_ends_with(text: &Vec<char>, tail: &str) -> (yes: bool)
    ensures
        yes == ends_with(text@, tail@),
{
    let tail = chars_of(tail);
    if tail.len() > text.len() {
        return false;
    }
    let from = text.len() - tail.len();
    assert(text@.subrange(from as int, from + tail@.len()) =~= text@.skip(from as int));
    chars_found_at(text, &tail, from)
}

pub fn declared_response_kind(content_type: Option<&str>) -> (kind: &'static str)
    ensures
        kind@ == declared_kind_of(view_of_str(content_type)),
{
    let value = match content_type {
        Some(value) => lower_chars(&trim_chars(&chars_of(text_before(value, ';')))),
        None => {
            return "unknown";
        },
    };
    if chars_are(&value, "application/json") || text_ends_with(&value, "+json") {
        "json"
    } else if chars_are(&value, "text/html") || chars_are(&value, "application/xhtml+xml") {
        "html"
    } else {
        "other"
    }
}

pub open spec fn kind_of(declared: Seq<char>, body_is_empty: bool) -> Seq<char> {
    if body_is_empty {
        "empty"@
    } else {
        declared
    }
}

pub fn response_kind(declared_kind: &'static str, body_is_empty: bool) -> (kind: &'static str)
    ensures
        kind@ == kind_of(declared_kind@, body_is_empty),
{
    if body_is_empty {
        "empty"
    } else {
        declared_kind
    }
}

/// What the head of a reply of the token endpoint says.
pub struct ReplyHead {
    pub status: u16,
    pub challenge_header: Option<String>,
    pub content_type: Option<String>,
    pub content_length: Option<u64>,
}

impl ReplyHead {
    /// The kind of body that the head declares.
    pub open spec fn declared_kind(self) -> Seq<char> {
        match self.content_type {
            Some(value) => declared_kind_of(Some(trimmed(value@))),
            None => declared_kind_of(None),
        }
    }

    /// The reply asks for a challenge to be solved.
    pub open spec fn is_challenge(self) -> bool {
        self.challenge_header matches Some(value) && lowered(value@) == "challenge"@
    }

    pub open spec fn is_success(self) -> bool {
        200 <= self.status < 300
    }

    pub open spec fn declares_too_much(self) -> bool {
        self.content_length matches Some(length) && length > MAX_TOKEN_RESPONSE
    }

    /// The declared kind of body, and whether this is a challenge.
    pub fn metadata(&self) -> (found: (&'static str, bool))
        ensures
            found.0@ == self.declared_kind(),
            found.1 == self.is_challenge(),
    {
        let challenge = match &self.challenge_header {
            Some(value) => chars_are(&to_lower(value.as_str()), "challenge"),
            None => false,
        };
        let kind = match &self.content_type {
            Some(value) => declared_response_kind(Some(trim(value.as_str()).as_str())),
            None => declared_response_kind(None),
        };
        (kind, challenge)
    }

    /// Why a refused request failed.
    pub open spec fn rejection(self, stage: Seq<char>, message: Seq<char>) -> FlowError {
        let kind = self.declared_kind();
        if self.is_challenge() {
            FlowError::new(
                OAuthErrorCode::OAuthChallengeResponse,
                true,
                "The OAuth endpoint returned a challenge response"@,
            ).at_stage(stage).with_http(Some(self.status), Some(kind), Some(true))
        } else if kind == "html"@ || kind == "other"@ || kind == "unknown"@ {
            FlowError::new(
                OAuthErrorCode::OAuthUnexpectedContentType,
                true,
                "The OAuth endpoint returned an unexpected content type"@,
            ).at_stage(stage).with_http(Some(self.status), Some(kind), Some(false))
        } else {
            FlowError::protocol(message).at_stage(stage).with_http(
                Some(self.status),
                Some(kind),
                Some(false),
            )
        }
    }

    pub fn blocking_response_error(
        &self,
        stage: &'static str,
        protocol_message: &'static str,
    ) -> (error: OAuthFlowError)
        ensures
            error@ == self.rejection(stage@, protocol_message@),
    {
        let (kind, challenge) = self.metadata();
        if challenge {
            OAuthFlowError::new(
                OAuthErrorCode::OAuthChallengeResponse,
                true,
                "The OAuth endpoint returned a challenge response",
            ).at_stage(stage).with_http(Some(self.status), Some(kind), Some(true))
        } else if str_eq(kind, "html") || str_eq(kind, "other") || str_eq(kind, "unknown") {
            OAuthFlowError::new(
                OAuthErrorCode::OAuthUnexpectedContentType,
                true,
                "The OAuth endpoint returned an unexpected content type",
            ).at_stage(stage).with_http(Some(self.status), Some(kind), Some(false))
        } else {
            OAuthFlowError::protocol(protocol_message).at_stage(stage).with_http(
                Some(self.status),
                Some(kind),
                Some(false),
            )
        }
    }
}


/// What reading the body of a reply came to. `value` is what its JSON holds, if that
/// is of the expected shape.
pub enum ReplyBody<T> {
    Unread,
    Failed,
    Read { length: u64, value: Option<T> },
}

impl ReplyHead {
    /// The head alone settles that the reply is of no use.
    pub open spec fn refuses_body(self) -> bool {
        self.is_challenge() || self.declares_too_much()
    }

    pub fn needs_body(&self) -> (yes: bool)
        ensures
            yes == !self.refuses_body(),
    {
        let (_, challenge) = self.metadata();
        let too_much = match self.content_length {
            Some(length) => length > MAX_TOKEN_RESPONSE,
            None => false,
        };
        !challenge && !too_much
    }

    /// Why a reply holds no usable JSON; nothing if it does.
    pub open spec fn bounded_json_error<T>(self, stage: Seq<char>, body: ReplyBody<T>) -> Option<
        FlowError,
    > {
        let status = Some(self.status);
        let declared = self.declared_kind();
        let too_large = FlowError::protocol("The OAuth response is too large"@).at_stage(
            stage,
        ).with_http(status, Some(declared), Some(false));
        if self.is_challenge() {
            Some(
                FlowError::new(
                    OAuthErrorCode::OAuthChallengeResponse,
                    true,
                    "The OAuth endpoint returned a challenge response"@,
                ).at_stage(stage).with_http(status, Some(declared), Some(true)),
            )
        } else if self.declares_too_much() {
            Some(too_large)
        } else {
            match body {
                ReplyBody::Unread | ReplyBody::Failed => Some(
                    FlowError::new(
                        OAuthErrorCode::OAuthNetwork,
                        true,
                        "The OAuth response could not be read"@,
                    ).at_stage(stage).with_http(
                        status,
                        Some(declared),
                        Some(false),
                    ).with_transport("http"@),
                ),
                ReplyBody::Read { length, value } => {
                    let kind = kind_of(declared, length == 0);
                    if length > MAX_TOKEN_RESPONSE {
                        Some(too_large)
                    } else if kind != "json"@ {
                        Some(
                            FlowError::new(
                                OAuthErrorCode::OAuthUnexpectedContentType,
                                true,
                                "The OAuth endpoint returned an unexpected content type"@,
                            ).at_stage(stage).with_http(status, Some(kind), Some(false)),
                        )
                    } else if value is None {
                        Some(
                            FlowError::protocol("The OAuth response is invalid"@).at_stage(
                                stage,
                            ).with_http(status, Some(kind), Some(false)),
                        )
                    } else {
                        None
                    }
                },
            }
        }
    }

    /// Takes the JSON of a reply, within the size limit. A body that the head refuses
    /// is not read.
    pub fn read_bounded_json<T>(&self, stage: &'static str, body: ReplyBody<T>) -> (result: Result<
        T,
        OAuthFlowError,
    >)
        requires
            body is Unread ==> self.refuses_body(),
        ensures
            match result {
                Ok(value) => self.bounded_json_error(stage@, body) is None
                    && body->value == Some(value),
                Err(error) => self.bounded_json_error(stage@, body) == Some(error@),
            },
    {
        let status = Some(self.status);
        let (declared, challenge) = self.metadata();
        if challenge {
            return Err(
                OAuthFlowError::new(
                    OAuthErrorCode::OAuthChallengeResponse,
                    true,
                    "The OAuth endpoint returned a challenge response",
                ).at_stage(stage).with_http(status, Some(declared), Some(true)),
            );
        }
        let too_much = match self.content_length {
            Some(length) => length > MAX_TOKEN_RESPONSE,
            None => false,
        };
        if too_much {
            return Err(
                OAuthFlowError::protocol("The OAuth response is too large").at_stage(
                    stage,
                ).with_http(status, Some(declared), Some(false)),
            );
        }
        match body {
            ReplyBody::Unread | ReplyBody::Failed => Err(
                OAuthFlowError::new(
                    OAuthErrorCode::OAuthNetwork,
                    true,
                    "The OAuth response could not be read",
                ).at_stage(stage).with_http(status, Some(declared), Some(false)).with_transport(
                    "http",
                ),
            ),
            ReplyBody::Read { length, value } => {
                if length > MAX_TOKEN_RESPONSE {
                    return Err(
                        OAuthFlowError::protocol("The OAuth response is too large").at_stage(
                            stage,
                        ).with_http(status, Some(declared), Some(false)),
                    );
                }
                let kind = response_kind(declared, length == 0);
                if !str_eq(kind, "json") {
                    return Err(
                        OAuthFlowError::new(
                            OAuthErrorCode::OAuthUnexpectedContentType,
                            true,
                            "The OAuth endpoint returned an unexpected content type",
                        ).at_stage(stage).with_http(status, Some(kind), Some(false)),
                    );
                }
                match value {
                    Some(value) => Ok(value),
                    None => Err(
                        OAuthFlowError::protocol("The OAuth response is invalid").at_stage(
                            stage,
                        ).with_http(status, Some(kind), Some(false)),
                    ),
                }
            },
        }
    }
}

/// The claims of a token that name an account.
pub struct JwtAuthClaims {
    pub chatgpt_account_id: Option<String>,
}

/// The claims of a token.
pub struct JwtClaims {
    pub exp: Option<i64>,
    pub auth: Option<JwtAuthClaims>,
    pub chatgpt_account_id: Option<String>,
}

impl JwtClaims {
    /// The account that the claims name: the nested claim before the outer one.
    pub open spec fn account_id(self) -> Option<String> {
        match self.auth {
            Some(JwtAuthClaims { chatgpt_account_id: Some(id) }) => Some(id),
            _ => self.chatgpt_account_id,
        }
    }

    /// The account that the claims name, unless its name is blank.
    pub open spec fn usable_account(self) -> Option<Seq<char>> {
        match self.account_id() {
            Some(id) if !is_blank(id@) => Some(id@),
            _ => None,
        }
    }

    /// The claims without the account that they name first.
    pub open spec fn without_account(self) -> JwtClaims {
        match self.auth {
            Some(JwtAuthClaims { chatgpt_account_id: Some(_) }) => JwtClaims {
                auth: Some(JwtAuthClaims { chatgpt_account_id: None }),
                ..self
            },
            _ => JwtClaims { chatgpt_account_id: None, ..self },
        }
    }

    /// Takes the account out of the claims. The rest stays.
    pub fn take_account_id(&mut self) -> (id: Option<String>)
        ensures
            id == old(self).account_id(),
            *final(self) == old(self).without_account(),
    {
        if let Some(auth) = &mut self.auth {
            let nested = auth.chatgpt_account_id.take();
            if nested.is_some() {
                return nested;
            }
        }
        self.chatgpt_account_id.take()
    }
}

fn unless_blank(text: Option<String>) -> (kept: Option<String>)
    ensures
        view_of(kept) == (match text {
            Some(text) if !is_blank(text@) => Some(text@),
            _ => None,
        }),
{
    match text {
        Some(text) => {
            if text_is_blank(text.as_str()) {
                None
            } else {
                Some(text)
            }
        },
        None => None,
    }
}

fn byte_len(text: &str) -> (count: usize)
    ensures
        count == encode_utf8(text@).len(),
{
    text.as_bytes().len()
}

/// The payload of a token: the middle of its three parts, decoded.
pub open spec fn payload_of(jwt: Seq<char>) -> Result<Seq<u8>, FlowError> {
    let parts = split_by(jwt, seq!['.']);
    let malformed = FlowError::protocol("The OAuth token format is invalid"@);
    if parts.len() != 3 || parts[0].len() == 0 || parts[1].len() == 0 || parts[2].len() == 0 {
        Err(malformed)
    } else {
        match base64url_decoded(parts[1]) {
            None => Err(malformed),
            Some(payload) => if payload.len() > MAX_JWT_PAYLOAD {
                Err(FlowError::protocol("The OAuth token payload is too large"@))
            } else {
                Ok(payload)
            },
        }
    }
}

pub fn jwt_payload(jwt: &str) -> (payload: Result<Vec<u8>, OAuthFlowError>)
    ensures
        match payload {
            Ok(payload) => payload_of(jwt@) == Ok::<Seq<u8>, FlowError>(payload@),
            Err(error) => payload_of(jwt@) == Err::<Seq<u8>, FlowError>(error@),
        },
{
    let mut separator: Vec<char> = Vec::new();
    separator.push('.');
    assert(separator@ =~= seq!['.']);
    let mut parts = chars_split_by(&chars_of(jwt), &separator);
    assert(views(parts@).len() == parts@.len());
    assert(forall|i: int| 0 <= i < parts@.len() ==> #[trigger] views(parts@)[i] == parts@[i]@);
    if parts.len() != 3 || parts[0].len() == 0 || parts[1].len() == 0 || parts[2].len() == 0 {
        return Err(OAuthFlowError::protocol("The OAuth token format is invalid"));
    }
    let payload = parts.swap_remove(1);
    match decode_base64url(text_of(payload).as_str()) {
        None => Err(OAuthFlowError::protocol("The OAuth token format is invalid")),
        Some(payload) => {
            if payload.len() > MAX_JWT_PAYLOAD {
                Err(OAuthFlowError::protocol("The OAuth token payload is too large"))
            } else {
                Ok(payload)
            }
        },
    }
}

/// Why a token has no claims; nothing if it has. `parsed` is what the JSON of its
/// payload holds.
pub open spec fn claims_error(jwt: Seq<char>, parsed: Option<JwtClaims>) -> Option<FlowError> {
    match payload_of(jwt) {
        Err(error) => Some(error),
        Ok(_) => if parsed is None {
            Some(FlowError::protocol("The OAuth token payload is invalid"@))
        } else {
            None
        },
    }
}

pub fn decode_jwt_claims(jwt: &str, parsed: Option<JwtClaims>) -> (claims: Result<
    JwtClaims,
    OAuthFlowError,
>)
    ensures
        match claims {
            Ok(claims) => claims_error(jwt@, parsed) is None && parsed == Some(claims),
            Err(error) => claims_error(jwt@, parsed) == Some(error@),
        },
{
    match jwt_payload(jwt) {
        Err(error) => Err(error),
        Ok(_) => match parsed {
            Some(claims) => Ok(claims),
            None => Err(OAuthFlowError::protocol("The OAuth token payload is invalid")),
        },
    }
}

/// The claims of a token, if it has any.
pub open spec fn claims_of(jwt: Seq<char>, parsed: Option<JwtClaims>) -> Option<JwtClaims> {
    if claims_error(jwt, parsed) is None {
        parsed
    } else {
        None
    }
}

pub open spec fn expiry_of(claims: Option<JwtClaims>) -> Option<i64> {
    match claims {
        Some(claims) => claims.exp,
        None => None,
    }
}

pub open spec fn first_expiry(first: Option<i64>, second: Option<i64>) -> Option<i64> {
    match first {
        Some(_) => first,
        None => second,
    }
}

/// The reply to an authorization code.
pub struct TokenResponse {
    pub id_token: String,
    pub access_token: String,
    pub refresh_token: String,
}

pub open spec fn too_long(token: Seq<char>) -> bool {
    encode_utf8(token).len() > MAX_TOKEN_BYTES
}

impl TokenResponse {
    /// Why the tokens are of no use; nothing if they are usable.
    pub open spec fn error(self, id_claims: Option<JwtClaims>) -> Option<FlowError> {
        if too_long(self.id_token@) || too_long(self.access_token@) || too_long(
            self.refresh_token@,
        ) {
            Some(FlowError::protocol("The OAuth token response contains an oversized token"@))
        } else {
            match claims_error(self.id_token@, id_claims) {
                Some(error) => Some(error),
                None => if id_claims->0.usable_account() is None {
                    Some(FlowError::protocol("The OAuth token is missing an account identifier"@))
                } else {
                    None
                },
            }
        }
    }

    /// Takes the tokens of a reply. `id_claims` and `access_claims` are what the JSON of
    /// the payloads of the two tokens holds.
    pub fn into_tokens(
        self,
        id_claims: Option<JwtClaims>,
        access_claims: Option<JwtClaims>,
    ) -> (result: Result<NewOAuthTokens, OAuthFlowError>)
        ensures
            match result {
                Ok(tokens) => self.error(id_claims) is None && tokens_match(
                    tokens,
                    self,
                    id_claims->0,
                    access_claims,
                ),
                Err(error) => self.error(id_claims) == Some(error@),
            },
    {
        if byte_len(self.id_token.as_str()) > MAX_TOKEN_BYTES || byte_len(
            self.access_token.as_str(),
        ) > MAX_TOKEN_BYTES || byte_len(self.refresh_token.as_str()) > MAX_TOKEN_BYTES {
            return Err(
                OAuthFlowError::protocol("The OAuth token response contains an oversized token"),
            );
        }
        let mut claims = match decode_jwt_claims(self.id_token.as_str(), id_claims) {
            Ok(claims) => claims,
            Err(error) => {
                return Err(error);
            },
        };
        let account_id = match unless_blank(claims.take_account_id()) {
            Some(account_id) => account_id,
            None => {
                return Err(
                    OAuthFlowError::protocol("The OAuth token is missing an account identifier"),
                );
            },
        };
        let access_expiry = match decode_jwt_claims(self.access_token.as_str(), access_claims) {
            Ok(access_claims) => access_claims.exp,
            Err(_) => None,
        };
        let expires_at = match access_expiry {
            Some(_) => access_expiry,
            None => claims.exp,
        };
        Ok(
            NewOAuthTokens {
                access_token: self.access_token,
                refresh_token: self.refresh_token,
                id_token: self.id_token,
                account_id,
                expires_at,
            },
        )
    }
}

/// Takes the tokens out of the JSON of a reply; `parsed` is what it holds.
pub fn parse_new_oauth_tokens(
    parsed: Option<TokenResponse>,
    id_claims: Option<JwtClaims>,
    access_claims: Option<JwtClaims>,
) -> (result: Result<NewOAuthTokens, OAuthFlowError>)
    ensures
        result matches Err(error) ==> token_reply_error(parsed, id_claims) == Some(error@),
        result matches Ok(tokens) ==> {
            &&& token_reply_error(parsed, id_claims) is None
            &&& tokens_match(tokens, parsed->0, id_claims->0, access_claims)
        },
{
    match parsed {
        Some(response) => response.into_tokens(id_claims, access_claims),
        None => Err(OAuthFlowError::protocol("The OAuth token response is invalid")),
    }
}

pub open spec fn token_reply_error(
    parsed: Option<TokenResponse>,
    id_claims: Option<JwtClaims>,
) -> Option<FlowError> {
    match parsed {
        Some(response) => response.error(id_claims),
        None => Some(FlowError::protocol("The OAuth token response is invalid"@)),
    }
}

/// `tokens` are those of the reply, for the account and the expiry in their claims.
pub open spec fn tokens_match(
    tokens: NewOAuthTokens,
    response: TokenResponse,
    id_claims: JwtClaims,
    access_claims: Option<JwtClaims>,
) -> bool {
    &&& tokens.access_token@ == response.access_token@
    &&& tokens.refresh_token@ == response.refresh_token@
    &&& tokens.id_token@ == response.id_token@
    &&& Some(tokens.account_id@) == id_claims.usable_account()
    &&& tokens.expires_at == first_expiry(
        expiry_of(claims_of(response.access_token@, access_claims)),
        id_claims.exp,
    )
}

/// The reply to a refresh.
pub struct RefreshResponse {
    pub id_token: Option<String>,
    pub access_token: Option<String>,
    pub refresh_token: Option<String>,
}

pub open spec fn has_blank(token: Option<String>) -> bool {
    token matches Some(token) && is_blank(token@)
}

pub open spec fn has_too_long(token: Option<String>) -> bool {
    token matches Some(token) && too_long(token@)
}

fn holds_blank(token: &Option<String>) -> (yes: bool)
    ensures
        yes == has_blank(*token),
{
    match token {
        Some(token) => text_is_blank(token.as_str()),
        None => false,
    }
}

fn holds_too_long(token: &Option<String>) -> (yes: bool)
    ensures
        yes == has_too_long(*token),
{
    match token {
        Some(token) => byte_len(token.as_str()) > MAX_TOKEN_BYTES,
        None => false,
    }
}

impl RefreshResponse {
    /// The claims of the access token that a refresh brought, if they can be read.
    pub open spec fn access_claims(self, parsed: Option<JwtClaims>) -> Option<JwtClaims> {
        match self.access_token {
            Some(token) => claims_of(token@, parsed),
            None => None,
        }
    }

    pub open spec fn id_account(self, parsed: Option<JwtClaims>) -> Option<Seq<char>> {
        match self.id_token {
            Some(_) => parsed->0.usable_account(),
            None => None,
        }
    }

    pub open spec fn access_account(self, parsed: Option<JwtClaims>) -> Option<Seq<char>> {
        match self.access_claims(parsed) {
            Some(claims) => claims.usable_account(),
            None => None,
        }
    }

    /// Why a refresh is of no use; nothing if it is usable.
    pub open spec fn error(
        self,
        id_claims: Option<JwtClaims>,
        access_claims: Option<JwtClaims>,
    ) -> Option<FlowError> {
        let id_error = match self.id_token {
            Some(token) => claims_error(token@, id_claims),
            None => None,
        };
        let id_account = self.id_account(id_claims);
        let access_account = self.access_account(access_claims);
        if has_blank(self.id_token) || has_blank(self.access_token) || has_blank(
            self.refresh_token,
        ) {
            Some(FlowError::protocol("The OAuth refresh response contains an empty token"@))
        } else if has_too_long(self.id_token) || has_too_long(self.access_token) || has_too_long(
            self.refresh_token,
        ) {
            Some(FlowError::protocol("The OAuth refresh response contains an oversized token"@))
        } else if id_error is Some {
            id_error
        } else if self.id_token is Some && id_account is None {
            Some(
                FlowError::protocol("The OAuth refresh token is missing an account identifier"@),
            )
        } else if id_account is Some && access_account is Some && id_account != access_account {
            Some(
                FlowError::protocol("The OAuth refresh response contains conflicting accounts"@),
            )
        } else {
            None
        }
    }

    /// `update` is what a usable refresh changes.
    pub open spec fn gives(
        self,
        update: RefreshUpdate,
        id_claims: Option<JwtClaims>,
        access_claims: Option<JwtClaims>,
    ) -> bool {
        &&& view_of(update.access_token) == view_of(self.access_token)
        &&& view_of(update.refresh_token) == view_of(self.refresh_token)
        &&& view_of(update.id_token) == view_of(self.id_token)
        &&& view_of(update.account_id) == (match self.id_account(id_claims) {
            Some(id) => Some(id),
            None => self.access_account(access_claims),
        })
        &&& update.expires_at == first_expiry(
            expiry_of(self.access_claims(access_claims)),
            (match self.id_token {
                Some(_) => id_claims->0.exp,
                None => None,
            }),
        )
    }

    /// Takes what a refresh changes. `id_claims` and `access_claims` are what the JSON of
    /// the payloads of the two tokens holds.
    pub fn into_update(
        self,
        id_claims: Option<JwtClaims>,
        access_claims: Option<JwtClaims>,
    ) -> (result: Result<RefreshUpdate, OAuthFlowError>)
        ensures
            match result {
                Ok(update) => self.error(id_claims, access_claims) is None && self.gives(
                    update,
                    id_claims,
                    access_claims,
                ),
                Err(error) => self.error(id_claims, access_claims) == Some(error@),
            },
    {
        if holds_blank(&self.id_token) || holds_blank(&self.access_token) || holds_blank(
            &self.refresh_token,
        ) {
            return Err(
                OAuthFlowError::protocol("The OAuth refresh response contains an empty token"),
            );
        }
        if holds_too_long(&self.id_token) || holds_too_long(&self.access_token) || holds_too_long(
            &self.refresh_token,
        ) {
            return Err(
                OAuthFlowError::protocol("The OAuth refresh response contains an oversized token"),
            );
        }
        let mut id_account_id: Option<String> = None;
        let mut id_expiry: Option<i64> = None;
        if let Some(id_token) = &self.id_token {
            let mut claims = match decode_jwt_claims(id_token.as_str(), id_claims) {
                Ok(claims) => claims,
                Err(error) => {
                    return Err(error);
                },
            };
            id_account_id = unless_blank(claims.take_account_id());
            if id_account_id.is_none() {
                return Err(
                    OAuthFlowError::protocol(
                        "The OAuth refresh token is missing an account identifier",
                    ),
                );
            }
            id_expiry = claims.exp;
        }
        let mut access_account_id: Option<String> = None;
        let mut access_expiry: Option<i64> = None;
        if let Some(access_token) = &self.access_token {
            if let Ok(mut claims) = decode_jwt_claims(access_token.as_str(), access_claims) {
                access_account_id = unless_blank(claims.take_account_id());
                access_expiry = claims.exp;
            }
        }
        if let Some(id_account) = &id_account_id {
            if let Some(access_account) = &access_account_id {
                if !str_eq(id_account.as_str(), access_account.as_str()) {
                    return Err(
                        OAuthFlowError::protocol(
                            "The OAuth refresh response contains conflicting accounts",
                        ),
                    );
                }
            }
        }
        let account_id = match id_account_id {
            Some(id) => Some(id),
            None => access_account_id,
        };
        let expires_at = match access_expiry {
            Some(_) => access_expiry,
            None => id_expiry,
        };
        Ok(
            RefreshUpdate {
                access_token: self.access_token,
                refresh_token: unless_blank(self.refresh_token),
                id_token: self.id_token,
                account_id,
                expires_at,
            },
        )
    }
}


/// How a request that got no reply is reported.
pub open spec fn request_failure_kind(
    timed_out: bool,
    tls_failed: bool,
    connect_failed: bool,
    has_proxy: bool,
) -> (OAuthErrorCode, Seq<char>) {
    if timed_out {
        (OAuthErrorCode::OAuthNetwork, "timeout"@)
    } else if tls_failed {
        (OAuthErrorCode::TlsFailed, "tls"@)
    } else if connect_failed && has_proxy {
        (OAuthErrorCode::ProxyConnectFailed, "proxy_connect"@)
    } else {
        (OAuthErrorCode::OAuthNetwork, "unknown"@)
    }
}

/// What is known of a request that got no reply.
#[derive(Clone, Copy, Debug, PartialEq, Eq, Structural)]
pub struct RequestFailure {
    pub timed_out: bool,
    pub tls_failed: bool,
    pub connect_failed: bool,
}

impl RequestFailure {
    pub open spec fn kind(self, has_proxy: bool) -> (OAuthErrorCode, Seq<char>) {
        request_failure_kind(self.timed_out, self.tls_failed, self.connect_failed, has_proxy)
    }

    pub fn classify_request_error(&self, has_proxy: bool) -> (kind: (
        OAuthErrorCode,
        &'static str,
    ))
        ensures
            (kind.0, kind.1@) == self.kind(has_proxy),
    {
        if self.timed_out {
            (OAuthErrorCode::OAuthNetwork, "timeout")
        } else if self.tls_failed {
            (OAuthErrorCode::TlsFailed, "tls")
        } else if self.connect_failed && has_proxy {
            (OAuthErrorCode::ProxyConnectFailed, "proxy_connect")
        } else {
            (OAuthErrorCode::OAuthNetwork, "unknown")
        }
    }

    pub open spec fn error(self, has_proxy: bool, stage: Seq<char>, message: Seq<char>) -> FlowError {
        let (code, transport) = self.kind(has_proxy);
        FlowError::new(code, true, message).at_stage(stage).with_transport(transport)
    }

    pub fn request_error(
        &self,
        has_proxy: bool,
        stage: &'static str,
        message: &'static str,
    ) -> (error: OAuthFlowError)
        ensures
            error@ == self.error(has_proxy, stage@, message@),
    {
        let (code, transport) = self.classify_request_error(has_proxy);
        OAuthFlowError::new(code, true, message).at_stage(stage).with_transport(transport)
    }
}

/// The fields that trade an authorization code for tokens.
pub open spec fn token_request_fields(
    client_id: Seq<char>,
    code: Seq<char>,
    redirect_uri: Seq<char>,
    code_verifier: Seq<char>,
) -> Seq<(Seq<char>, Seq<char>)> {
    seq![
        ("grant_type"@, "authorization_code"@),
        ("code"@, code),
        ("redirect_uri"@, redirect_uri),
        ("client_id"@, client_id),
        ("code_verifier"@, code_verifier),
    ]
}

pub fn token_request_body(
    client_id: &str,
    code: &str,
    redirect_uri: &str,
    code_verifier: &str,
) -> (body: String)
    ensures
        body@ == form_text(
            token_request_fields(client_id@, code@, redirect_uri@, code_verifier@),
        ),
        form_fields(encode_utf8(body@)) == token_request_fields(
            client_id@,
            code@,
            redirect_uri@,
            code_verifier@,
        ),
{
    let mut fields: Vec<(&str, &str)> = Vec::new();
    fields.push(("grant_type", "authorization_code"));
    fields.push(("code", code));
    fields.push(("redirect_uri", redirect_uri));
    fields.push(("client_id", client_id));
    fields.push(("code_verifier", code_verifier));
    assert(str_pair_views(fields@) =~= token_request_fields(
        client_id@,
        code@,
        redirect_uri@,
        code_verifier@,
    ));
    encode_form(&fields)
}

/// A URL that a request can be sent to: `http` or `https`, with a host.
pub open spec fn is_endpoint(url: Seq<char>) -> bool {
    scheme_and_host_of(url) matches Some((scheme, Some(_))) && (scheme == "http"@ || scheme
        == "https"@)
}

pub fn url_is_endpoint(url: &str) -> (yes: bool)
    ensures
        yes == is_endpoint(url@),
{
    match scheme_and_host(url) {
        Some((scheme, host)) => (str_eq(scheme.as_str(), "http") || str_eq(
            scheme.as_str(),
            "https",
        )) && host.is_some(),
        None => false,
    }
}

/// Shows an authorization URL to the user, within the time that is left. A host calls it
/// where a login says so.
pub trait BrowserOpener {
    fn open(&self, authorization_url: &str, time_left: Duration) -> Result<(), OAuthFlowError>;
}

/// Trades an authorization code for tokens, within the time that is left. A host calls it
/// where a login says so.
pub trait OAuthTransport {
    fn exchange_code(
        &self,
        code: &str,
        redirect_uri: &str,
        code_verifier: &str,
        time_left: Duration,
    ) -> Result<NewOAuthTokens, OAuthFlowError>;
}

/// Trades a refresh token for newer tokens. A host calls it where a refresh says so.
pub trait RefreshTransport {
    fn refresh(&self, refresh_token: &str) -> Result<RefreshUpdate, OAuthFlowError>;
}

/// Asks for a token to be revoked. A host calls it where a logout says so.
pub trait RevokeTransport {
    fn revoke(&self, token: &RevokeToken) -> Result<(), OAuthFlowError>;
}

/// The browser of the system.
#[derive(Clone, Copy, Debug, Default)]
pub struct SystemBrowser;

/// What starting the browser came to.
pub enum BrowserEvent {
    Unsupported,
    SpawnFailed,
    Exited { success: bool },
    WaitFailed,
    Running { expired: bool },
    Cancelled,
}

/// What to do about the browser.
pub enum BrowserTask {
    Opened,
    PollAgain,
    Fail(OAuthFlowError),
    KillAndFail(OAuthFlowError),
}

pub open spec fn browser_error(retryable: bool, message: Seq<char>) -> FlowError {
    FlowError::new(OAuthErrorCode::BrowserOpenFailed, retryable, message)
}

impl SystemBrowser {
    /// Takes what the browser's launcher came to. A launcher that is still running is
    /// killed when its time is up.
    pub fn open_browser(self, event: BrowserEvent) -> (task: BrowserTask)
        ensures
            match event {
                BrowserEvent::Unsupported => task matches BrowserTask::Fail(error) && error@
                    == browser_error(false, "Codex browser login is supported only on macOS"@),
                BrowserEvent::SpawnFailed | BrowserEvent::WaitFailed | BrowserEvent::Exited {
                    success: false,
                } => task matches BrowserTask::Fail(error) && error@ == browser_error(
                    true,
                    "The system browser could not be opened"@,
                ),
                BrowserEvent::Exited { success: true } => task is Opened,
                BrowserEvent::Running { expired: false } => task is PollAgain,
                BrowserEvent::Running { expired: true } => task matches BrowserTask::KillAndFail(
                    error,
                ) && error@ == browser_error(true, "The system browser did not return promptly"@),
                BrowserEvent::Cancelled => task matches BrowserTask::KillAndFail(error) && error@
                    == FlowError::new(
                    OAuthErrorCode::AuthCancelled,
                    true,
                    "Codex sign-in was cancelled"@,
                ),
            },
    {
        match event {
            BrowserEvent::Unsupported => BrowserTask::Fail(
                OAuthFlowError::new(
                    OAuthErrorCode::BrowserOpenFailed,
                    false,
                    "Codex browser login is supported only on macOS",
                ),
            ),
            BrowserEvent::Exited { success: true } => BrowserTask::Opened,
            BrowserEvent::SpawnFailed | BrowserEvent::WaitFailed | BrowserEvent::Exited {
                success: false,
            } => BrowserTask::Fail(
                OAuthFlowError::new(
                    OAuthErrorCode::BrowserOpenFailed,
                    true,
                    "The system browser could not be opened",
                ),
            ),
            BrowserEvent::Running { expired: false } => BrowserTask::PollAgain,
            BrowserEvent::Running { expired: true } => BrowserTask::KillAndFail(
                OAuthFlowError::new(
                    OAuthErrorCode::BrowserOpenFailed,
                    true,
                    "The system browser did not return promptly",
                ),
            ),
            BrowserEvent::Cancelled => BrowserTask::KillAndFail(
                OAuthFlowError::new(
                    OAuthErrorCode::AuthCancelled,
                    true,
                    "Codex sign-in was cancelled",
                ),
            ),
        }
    }
}

impl SystemBrowser {
    /// What [`SystemBrowser::open_browser`] says, for a login that can be cancelled.
    pub fn open_browser_cancellable(self, event: BrowserEvent) -> (task: BrowserTask)
        ensures
            ({
                let stage = "browser_open"@;
                match event {
                    BrowserEvent::Unsupported => task matches BrowserTask::Fail(error) && error@
                        == browser_error(
                        false,
                        "Codex browser login is supported only on macOS"@,
                    ).at_stage(stage),
                    BrowserEvent::SpawnFailed | BrowserEvent::WaitFailed | BrowserEvent::Exited {
                        success: false,
                    } => task matches BrowserTask::Fail(error) && error@ == browser_error(
                        true,
                        "The system browser could not be opened"@,
                    ).at_stage(stage),
                    BrowserEvent::Exited { success: true } => task is Opened,
                    BrowserEvent::Running { expired: false } => task is PollAgain,
                    BrowserEvent::Running { expired: true } =>
                        task matches BrowserTask::KillAndFail(error) && error@ == browser_error(
                        true,
                        "The system browser did not return promptly"@,
                    ).at_stage(stage),
                    BrowserEvent::Cancelled => task matches BrowserTask::KillAndFail(error)
                        && error@ == FlowError::new(
                        OAuthErrorCode::AuthCancelled,
                        true,
                        "Codex sign-in was cancelled"@,
                    ).at_stage(stage),
                }
            }),
    {
        match self.open_browser(event) {
            BrowserTask::Fail(error) => BrowserTask::Fail(error.at_stage("browser_open")),
            BrowserTask::KillAndFail(error) => BrowserTask::KillAndFail(
                error.at_stage("browser_open"),
            ),
            task => task,
        }
    }
}

/// What keeps a network client from being made.
#[derive(Clone, Copy, Debug, PartialEq, Eq, Structural)]
pub enum ClientFault {
    InvalidRoute,
    NotCreated,
}

impl ClientFault {
    pub open spec fn failure(self) -> FlowError {
        match self {
            ClientFault::InvalidRoute => FlowError::new(
                OAuthErrorCode::OAuthNetwork,
                false,
                "The Codex network route is invalid"@,
            ),
            ClientFault::NotCreated => FlowError::new(
                OAuthErrorCode::OAuthNetwork,
                true,
                "The OAuth network client could not be created"@,
            ),
        }
    }

    pub fn error(self) -> (error: OAuthFlowError)
        ensures
            error@ == self.failure(),
    {
        match self {
            ClientFault::InvalidRoute => OAuthFlowError::new(
                OAuthErrorCode::OAuthNetwork,
                false,
                "The Codex network route is invalid",
            ),
            ClientFault::NotCreated => OAuthFlowError::new(
                OAuthErrorCode::OAuthNetwork,
                true,
                "The OAuth network client could not be created",
            ),
        }
    }

    /// The same for a login that can be cancelled, which names the stage.
    pub fn staged_error(self) -> (error: OAuthFlowError)
        ensures
            error@ == self.failure().at_stage("proxy_config"@),
    {
        self.error().at_stage("proxy_config")
    }
}

/// What stands in a request for newer tokens.
pub open spec fn refresh_request_members(client_id: Seq<char>, refresh_token: Seq<char>) -> Seq<
    (Seq<char>, Option<Seq<char>>),
> {
    seq![
        ("client_id"@, json_string_of(client_id)),
        ("grant_type"@, json_string_of("refresh_token"@)),
        ("refresh_token"@, json_string_of(refresh_token)),
    ]
}

/// What stands in a request to revoke a token.
pub open spec fn revoke_request_members(client_id: Seq<char>, token: RevokeToken) -> Seq<
    (Seq<char>, Option<Seq<char>>),
> {
    match token.kind {
        RevokeTokenKind::Refresh => seq![
            ("token"@, json_string_of(token.token@)),
            ("token_type_hint"@, json_string_of("refresh_token"@)),
            ("client_id"@, json_string_of(client_id)),
        ],
        RevokeTokenKind::Access => seq![
            ("token"@, json_string_of(token.token@)),
            ("token_type_hint"@, json_string_of("access_token"@)),
        ],
    }
}

/// Where and as whom the gateway talks to the OAuth server.
#[derive(Debug)]
pub struct HttpOAuthTransport {
    pub token_endpoint: String,
    pub revoke_endpoint: String,
    pub client_id: String,
    pub has_proxy: bool,
}

impl HttpOAuthTransport {
    /// How a developer is shown the settings.
    pub fn debug_text(&self) -> (text: String)
        ensures
            text@ == "HttpOAuthTransport { token_endpoint: "@ + quoted_text(self.token_endpoint@)
                + ", revoke_endpoint: "@ + quoted_text(self.revoke_endpoint@) + ", client_id: "@
                + quoted_text(self.client_id@) + ", .. }"@,
    {
        let mut text = "HttpOAuthTransport { token_endpoint: ".to_owned();
        text.append(quoted(self.token_endpoint.as_str()).as_str());
        text.append(", revoke_endpoint: ");
        text.append(quoted(self.revoke_endpoint.as_str()).as_str());
        text.append(", client_id: ");
        text.append(quoted(self.client_id.as_str()).as_str());
        text.append(", .. }");
        text
    }

    /// Takes the token endpoint; the revocation endpoint stands beside it.
    pub fn new(token_endpoint: String, client_id: String, has_proxy: bool) -> (transport: Result<
        Self,
        OAuthFlowError,
    >)
        requires
            token_endpoint@.len() <= 0x0fff_0000,
        ensures
            match transport {
                Ok(transport) => {
                    &&& is_endpoint(token_endpoint@)
                    &&& transport.token_endpoint == token_endpoint
                    &&& Some(transport.revoke_endpoint@) == url_at_path(
                        token_endpoint@,
                        "/oauth/revoke"@,
                    )
                    &&& transport.client_id == client_id
                    &&& transport.has_proxy == has_proxy
                },
                Err(error) => {
                    &&& !is_endpoint(token_endpoint@)
                    &&& error@ == FlowError::protocol("The OAuth token endpoint is invalid"@)
                },
            },
    {
        if !url_is_endpoint(token_endpoint.as_str()) {
            return Err(OAuthFlowError::protocol("The OAuth token endpoint is invalid"));
        }
        proof {
            reveal_strlit("/oauth/revoke");
        }
        match with_path(token_endpoint.as_str(), "/oauth/revoke") {
            Some(revoke_endpoint) => Ok(
                HttpOAuthTransport { token_endpoint, revoke_endpoint, client_id, has_proxy },
            ),
            None => Err(OAuthFlowError::protocol("The OAuth token endpoint is invalid")),
        }
    }

    /// The transport of the pinned issuer.
    pub fn production(has_proxy: bool) -> (transport: Result<Self, OAuthFlowError>)
        ensures
            ({
                let endpoint = CODEX_OAUTH_ISSUER@ + "/oauth/token"@;
                match transport {
                    Ok(transport) => {
                        &&& is_endpoint(endpoint)
                        &&& transport.token_endpoint@ == endpoint
                        &&& Some(transport.revoke_endpoint@) == url_at_path(
                            endpoint,
                            "/oauth/revoke"@,
                        )
                        &&& transport.client_id@ == CODEX_OAUTH_CLIENT_ID@
                        &&& transport.has_proxy == has_proxy
                    },
                    Err(error) => {
                        &&& !is_endpoint(endpoint)
                        &&& error@ == FlowError::protocol("The OAuth token endpoint is invalid"@)
                    },
                }
            }),
    {
        proof {
            reveal_strlit("https://auth.openai.com");
            reveal_strlit("/oauth/token");
        }
        Self::new(
            join(CODEX_OAUTH_ISSUER, "/oauth/token"),
            CODEX_OAUTH_CLIENT_ID.to_owned(),
            has_proxy,
        )
    }

    /// How long a code exchange may still take: what the login has left, at most half a
    /// minute.
    pub fn exchange_timeout(remaining: Duration) -> (timeout: Result<Duration, OAuthFlowError>)
        ensures
            match timeout {
                Ok(timeout) => remaining.millis > 0 && timeout.millis == (if remaining.millis
                    < 30_000 {
                    remaining.millis
                } else {
                    30_000
                }),
                Err(error) => remaining.millis == 0 && error@ == FlowError::new(
                    OAuthErrorCode::CallbackTimeout,
                    true,
                    "Codex sign-in timed out"@,
                ),
            },
    {
        if remaining.millis == 0 {
            return Err(
                OAuthFlowError::new(
                    OAuthErrorCode::CallbackTimeout,
                    true,
                    "Codex sign-in timed out",
                ),
            );
        }
        Ok(remaining.shorter_of(Duration::from_secs(30)))
    }

    /// Takes the reply to a code exchange. `id_claims` and `access_claims` are what the
    /// payloads of its tokens hold.
    pub fn exchange_code(
        &self,
        reply: Result<(ReplyHead, ReplyBody<TokenResponse>), RequestFailure>,
        id_claims: Option<JwtClaims>,
        access_claims: Option<JwtClaims>,
    ) -> (result: Result<NewOAuthTokens, OAuthFlowError>)
        requires
            reply matches Ok((head, ReplyBody::Unread)) ==> !head.is_success()
                || head.declares_too_much(),
        ensures
            match result {
                Ok(tokens) => exchange_error(self.has_proxy, reply, id_claims) is None
                    && tokens_match(tokens, (reply->Ok_0).1->value->0, id_claims->0, access_claims),
                Err(error) => exchange_error(self.has_proxy, reply, id_claims) == Some(error@),
            },
    {
        let (head, body) = match reply {
            Ok((head, body)) => (head, body),
            Err(failure) => {
                return Err(
                    failure.request_error(
                        self.has_proxy,
                        "token_exchange",
                        "The OAuth token exchange could not connect",
                    ),
                );
            },
        };
        if !(200 <= head.status && head.status < 300) {
            return Err(
                head.blocking_response_error(
                    "token_exchange",
                    "The OAuth token exchange was rejected",
                ),
            );
        }
        let too_much = match head.content_length {
            Some(length) => length > MAX_TOKEN_RESPONSE,
            None => false,
        };
        if too_much {
            return Err(OAuthFlowError::protocol("The OAuth token response is too large"));
        }
        match body {
            ReplyBody::Unread | ReplyBody::Failed => Err(
                OAuthFlowError::new(
                    OAuthErrorCode::OAuthNetwork,
                    true,
                    "The OAuth token response could not be read",
                ),
            ),
            ReplyBody::Read { length, value } => {
                if length > MAX_TOKEN_RESPONSE {
                    return Err(OAuthFlowError::protocol("The OAuth token response is too large"));
                }
                parse_new_oauth_tokens(value, id_claims, access_claims)
            },
        }
    }

    /// Takes the reply to a refresh. `id_claims` and `access_claims` are what the payloads
    /// of its tokens hold.
    pub fn refresh(
        &self,
        reply: Result<(ReplyHead, ReplyBody<RefreshResponse>), RequestFailure>,
        id_claims: Option<JwtClaims>,
        access_claims: Option<JwtClaims>,
    ) -> (result: Result<RefreshUpdate, OAuthFlowError>)
        requires
            reply matches Ok((head, ReplyBody::Unread)) ==> !head.is_success()
                || head.refuses_body(),
        ensures
            match result {
                Ok(update) => refresh_error(self.has_proxy, reply, id_claims, access_claims) is None
                    && (reply->Ok_0).1->value->0.gives(update, id_claims, access_claims),
                Err(error) => refresh_error(self.has_proxy, reply, id_claims, access_claims)
                    == Some(error@),
            },
    {
        match reply {
            Ok((head, body)) => {
                if 200 <= head.status && head.status < 300 {
                    match head.read_bounded_json("refresh", body) {
                        Ok(response) => response.into_update(id_claims, access_claims),
                        Err(error) => Err(error),
                    }
                } else {
                    Err(
                        head.blocking_response_error(
                            "refresh",
                            "The OAuth refresh request was rejected",
                        ),
                    )
                }
            },
            Err(failure) => Err(
                failure.request_error(
                    self.has_proxy,
                    "refresh",
                    "The OAuth refresh request could not connect",
                ),
            ),
        }
    }

    /// The body of a request for newer tokens.
    pub fn refresh_request(&self, refresh_token: &str) -> (body: Result<String, OAuthFlowError>)
        ensures
            match body {
                Ok(body) => object_text(
                    refresh_request_members(self.client_id@, refresh_token@),
                ) == Some(body@),
                Err(error) => object_text(
                    refresh_request_members(self.client_id@, refresh_token@),
                ) is None && error@ == FlowError::protocol("The OAuth refresh request is invalid"@),
            },
    {
        let mut object = ObjectText::new();
        object.put_text("client_id", self.client_id.as_str());
        object.put_text("grant_type", "refresh_token");
        object.put_text("refresh_token", refresh_token);
        assert(object@ =~= refresh_request_members(self.client_id@, refresh_token@));
        match object.text() {
            Some(body) => Ok(body),
            None => Err(OAuthFlowError::protocol("The OAuth refresh request is invalid")),
        }
    }

    /// The body of a request to revoke a token. A refresh token is revoked for the client.
    pub fn revoke_request(&self, token: &RevokeToken) -> (body: Result<String, OAuthFlowError>)
        ensures
            match body {
                Ok(body) => object_text(revoke_request_members(self.client_id@, *token)) == Some(
                    body@,
                ),
                Err(error) => object_text(revoke_request_members(self.client_id@, *token)) is None
                    && error@ == FlowError::protocol("The OAuth revoke request is invalid"@),
            },
    {
        let mut object = ObjectText::new();
        object.put_text("token", token.token.as_str());
        match token.kind {
            RevokeTokenKind::Refresh => {
                object.put_text("token_type_hint", "refresh_token");
                object.put_text("client_id", self.client_id.as_str());
            },
            RevokeTokenKind::Access => {
                object.put_text("token_type_hint", "access_token");
            },
        }
        assert(object@ =~= revoke_request_members(self.client_id@, *token));
        match object.text() {
            Some(body) => Ok(body),
            None => Err(OAuthFlowError::protocol("The OAuth revoke request is invalid")),
        }
    }

    /// Takes the reply to a revocation.
    pub fn revoke(&self, reply: Result<ReplyHead, RequestFailure>) -> (result: Result<
        (),
        OAuthFlowError,
    >)
        ensures
            match result {
                Ok(_) => reply matches Ok(head) && head.is_success(),
                Err(error) => match reply {
                    Ok(head) => !head.is_success() && error@ == head.rejection(
                        "revoke"@,
                        "The OAuth revoke request was rejected"@,
                    ),
                    Err(failure) => error@ == failure.error(
                        self.has_proxy,
                        "revoke"@,
                        "The OAuth revoke request could not connect"@,
                    ),
                },
            },
    {
        match reply {
            Ok(head) => {
                if 200 <= head.status && head.status < 300 {
                    Ok(())
                } else {
                    Err(
                        head.blocking_response_error(
                            "revoke",
                            "The OAuth revoke request was rejected",
                        ),
                    )
                }
            },
            Err(failure) => Err(
                failure.request_error(
                    self.has_proxy,
                    "revoke",
                    "The OAuth revoke request could not connect",
                ),
            ),
        }
    }
}

/// Why a code exchange failed; nothing if it brought tokens.
pub open spec fn exchange_error(
    has_proxy: bool,
    reply: Result<(ReplyHead, ReplyBody<TokenResponse>), RequestFailure>,
    id_claims: Option<JwtClaims>,
) -> Option<FlowError> {
    match reply {
        Err(failure) => Some(
            failure.error(
                has_proxy,
                "token_exchange"@,
                "The OAuth token exchange could not connect"@,
            ),
        ),
        Ok((head, body)) => if !head.is_success() {
            Some(
                head.rejection("token_exchange"@, "The OAuth token exchange was rejected"@),
            )
        } else if head.declares_too_much() {
            Some(FlowError::protocol("The OAuth token response is too large"@))
        } else {
            match body {
                ReplyBody::Unread | ReplyBody::Failed => Some(
                    FlowError::new(
                        OAuthErrorCode::OAuthNetwork,
                        true,
                        "The OAuth token response could not be read"@,
                    ),
                ),
                ReplyBody::Read { length, value } => if length > MAX_TOKEN_RESPONSE {
                    Some(FlowError::protocol("The OAuth token response is too large"@))
                } else {
                    token_reply_error(value, id_claims)
                },
            }
        },
    }
}

/// Why a refresh failed; nothing if it brought usable tokens.
pub open spec fn refresh_error(
    has_proxy: bool,
    reply: Result<(ReplyHead, ReplyBody<RefreshResponse>), RequestFailure>,
    id_claims: Option<JwtClaims>,
    access_claims: Option<JwtClaims>,
) -> Option<FlowError> {
    match reply {
        Err(failure) => Some(
            failure.error(
                has_proxy,
                "refresh"@,
                "The OAuth refresh request could not connect"@,
            ),
        ),
        Ok((head, body)) => if !head.is_success() {
            Some(head.rejection("refresh"@, "The OAuth refresh request was rejected"@))
        } else {
            match head.bounded_json_error("refresh"@, body) {
                Some(error) => Some(error),
                None => body->value->0.error(id_claims, access_claims),
            }
        },
    }
}

/// How the login is run.
#[derive(Debug)]
pub struct LoginOptions {
    pub issuer: String,
    pub client_id: String,
    pub ports: Vec<u16>,
    pub timeout: Duration,
}

impl LoginOptions {
    pub fn production() -> (options: Self)
        ensures
            options.issuer@ == CODEX_OAUTH_ISSUER@,
            options.client_id@ == CODEX_OAUTH_CLIENT_ID@,
            options.ports@ == seq![1455u16, 1457u16],
            options.timeout.millis == 300_000,
    {
        let mut ports: Vec<u16> = Vec::new();
        ports.push(1455);
        ports.push(1457);
        LoginOptions {
            issuer: CODEX_OAUTH_ISSUER.to_owned(),
            client_id: CODEX_OAUTH_CLIENT_ID.to_owned(),
            ports,
            timeout: Duration::from_secs(300),
        }
    }
}

/// A secret and the challenge that commits to it.
pub struct PkceCodes {
    pub verifier: String,
    pub challenge: String,
}

impl PkceCodes {
    /// The challenge is the digest of the verifier.
    pub open spec fn is_bound(self) -> bool {
        self.challenge@ == base64url_of(sha256_of(encode_utf8(self.verifier@)))
    }

    pub fn from_random(random: &[u8]) -> (codes: PkceCodes)
        ensures
            codes.verifier@ == base64url_of(random@),
            base64url_decoded(codes.verifier@) == Some(random@),
            codes.is_bound(),
    {
        let verifier = encode_base64url(random);
        let challenge = encode_base64url(sha256(verifier.as_str().as_bytes()).as_slice());
        PkceCodes { verifier, challenge }
    }
}

/// No randomness could be had.
pub open spec fn no_randomness() -> FlowError {
    FlowError::new(OAuthErrorCode::Storage, false, "Secure random generation failed"@)
}

/// `text` is the URL-safe base64 text of this many bytes.
pub open spec fn encodes(text: Seq<char>, count: nat) -> bool {
    base64url_decoded(text) matches Some(bytes) && bytes.len() == count
}

/// `text` is the URL-safe base64 text of a draw of this many random bytes.
pub open spec fn encodes_draw(text: Seq<char>, count: usize) -> bool {
    exists|random: Seq<u8>| #[trigger] drawn(count, random) && text == base64url_of(random)
}

/// A draw of this many random bytes failed.
pub open spec fn no_draw(count: usize) -> bool {
    exists|reason: Seq<char>| draw_failed(count, reason)
}

pub fn generate_pkce() -> (codes: Result<PkceCodes, OAuthFlowError>)
    ensures
        match codes {
            Ok(codes) => codes.is_bound() && encodes_draw(codes.verifier@, 64) && encodes(
                codes.verifier@,
                64,
            ),
            Err(error) => no_draw(64) && error@ == no_randomness(),
        },
{
    match draw(64) {
        Ok(random) => {
            assert(drawn(64, random@));
            Ok(PkceCodes::from_random(random.as_slice()))
        },
        Err(_) => Err(
            OAuthFlowError::new(OAuthErrorCode::Storage, false, "Secure random generation failed"),
        ),
    }
}

/// The state of a login out of its random bytes.
pub fn state_from_random(random: &[u8]) -> (state: String)
    ensures
        state@ == base64url_of(random@),
        base64url_decoded(state@) == Some(random@),
{
    encode_base64url(random)
}

pub fn generate_state() -> (state: Result<String, OAuthFlowError>)
    ensures
        match state {
            Ok(state) => encodes_draw(state@, 32) && encodes(state@, 32),
            Err(error) => no_draw(32) && error@ == no_randomness(),
        },
{
    match draw(32) {
        Ok(random) => {
            assert(drawn(32, random@));
            Ok(state_from_random(random.as_slice()))
        },
        Err(_) => Err(
            OAuthFlowError::new(OAuthErrorCode::Storage, false, "Secure random generation failed"),
        ),
    }
}

/// The fields of an authorization request, in their order.
pub open spec fn authorization_fields(
    client_id: Seq<char>,
    redirect_uri: Seq<char>,
    code_challenge: Seq<char>,
    state: Seq<char>,
) -> Seq<(Seq<char>, Seq<char>)> {
    seq![
        ("response_type"@, "code"@),
        ("client_id"@, client_id),
        ("redirect_uri"@, redirect_uri),
        ("scope"@, CODEX_OAUTH_SCOPE@),
        ("code_challenge"@, code_challenge),
        ("code_challenge_method"@, "S256"@),
        ("id_token_add_organizations"@, "true"@),
        ("codex_cli_simplified_flow"@, "true"@),
        ("state"@, state),
        ("originator"@, CODEX_OAUTH_ORIGINATOR@),
    ]
}

pub fn build_authorization_url(
    issuer: &str,
    client_id: &str,
    redirect_uri: &str,
    code_challenge: &str,
    state: &str,
) -> (url: Result<String, OAuthFlowError>)
    requires
        issuer@.len() <= 0x0fff_0000,
    ensures
        ({
            let fields = authorization_fields(
                client_id@,
                redirect_uri@,
                code_challenge@,
                state@,
            );
            let target = url_at_path_with_query(issuer@, "/oauth/authorize"@, fields);
            match url {
                Ok(url) => is_endpoint(issuer@) && target == Some(url@) && reads_back(fields),
                Err(error) => !is_endpoint(issuer@) && error@ == FlowError::protocol(
                    "The OAuth issuer is invalid"@,
                ),
            }
        }),
{
    if !url_is_endpoint(issuer) {
        return Err(OAuthFlowError::protocol("The OAuth issuer is invalid"));
    }
    let mut fields: Vec<(&str, &str)> = Vec::new();
    fields.push(("response_type", "code"));
    fields.push(("client_id", client_id));
    fields.push(("redirect_uri", redirect_uri));
    fields.push(("scope", CODEX_OAUTH_SCOPE));
    fields.push(("code_challenge", code_challenge));
    fields.push(("code_challenge_method", "S256"));
    fields.push(("id_token_add_organizations", "true"));
    fields.push(("codex_cli_simplified_flow", "true"));
    fields.push(("state", state));
    fields.push(("originator", CODEX_OAUTH_ORIGINATOR));
    proof {
        reveal_strlit("/oauth/authorize");
        assert(str_pair_views(fields@) =~= authorization_fields(
            client_id@,
            redirect_uri@,
            code_challenge@,
            state@,
        ));
    }
    match with_path_and_query(issuer, "/oauth/authorize", &fields) {
        Some(url) => Ok(url),
        None => Err(OAuthFlowError::protocol("The OAuth issuer is invalid")),
    }
}

} // verus!
