//! A browser login that can be cancelled until its credentials are stored.

use vstd::prelude::*;

use crate::codex_auth::callback::{cancelled, cancelled_error};
use crate::codex_auth::oauth::{
    kind_of, parse_new_oauth_tokens, response_kind, token_reply_error, tokens_match, FlowError,
    JwtClaims, OAuthErrorCode, OAuthFlowError, ReplyHead, RequestFailure, TokenResponse,
    CODEX_OAUTH_CLIENT_ID, CODEX_OAUTH_ISSUER,
};
use crate::codex_auth::storage::NewOAuthTokens;
use crate::duration::Duration;
use crate::text::{
    append_bytes, chars_of, decimal, join, part_of, quoted, quoted_text, show_truth, str_eq,
    text_of, to_decimal, truth_text,
};
use vstd::string::*;

verus! {

pub const MAX_RESPONSE_BYTES: usize = 1_048_576;

#[derive(Clone, Copy, Debug, PartialEq, Eq, Structural)]
pub enum CancelDisposition {
    Accepted,
    CommitInProgress,
    AlreadyTerminal,
}

impl CancelDisposition {
    pub open spec fn name(self) -> Seq<char> {
        match self {
            CancelDisposition::Accepted => "accepted"@,
            CancelDisposition::CommitInProgress => "commit_in_progress"@,
            CancelDisposition::AlreadyTerminal => "already_terminal"@,
        }
    }

    pub fn as_str(self) -> (text: &'static str)
        ensures
            text@ == self.name(),
    {
        match self {
            CancelDisposition::Accepted => "accepted",
            CancelDisposition::CommitInProgress => "commit_in_progress",
            CancelDisposition::AlreadyTerminal => "already_terminal",
        }
    }
}

#[derive(Clone, Copy, Debug, PartialEq, Eq, Structural)]
pub enum LoginProgress {
    Waiting,
    Exchanging,
    Committing,
}

/// How far a login has come, as far as cancelling it goes.
#[derive(Clone, Copy, Debug, PartialEq, Eq, Structural)]
pub enum ControlState {
    Running,
    Cancelled,
    Committing,
    Finished,
}

/// What can be asked of a [`LoginControl`].
pub ghost enum ControlOp {
    Cancel,
    Commit,
    Finish,
}

impl ControlState {
    pub open spec fn after(self, op: ControlOp) -> ControlState {
        match op {
            ControlOp::Cancel => if self is Running {
                ControlState::Cancelled
            } else {
                self
            },
            ControlOp::Commit => if self is Running {
                ControlState::Committing
            } else {
                self
            },
            ControlOp::Finish => ControlState::Finished,
        }
    }

    /// The answer to a request to cancel.
    pub open spec fn disposition(self) -> CancelDisposition {
        match self {
            ControlState::Running | ControlState::Cancelled => CancelDisposition::Accepted,
            ControlState::Committing => CancelDisposition::CommitInProgress,
            ControlState::Finished => CancelDisposition::AlreadyTerminal,
        }
    }
}

/// The one place where cancelling and storing credentials meet: whichever comes first
/// keeps the other out.
#[derive(Debug)]
pub struct LoginControl {
    pub state: ControlState,
}

impl Default for LoginControl {
    fn default() -> (control: Self)
        ensures
            control.state is Running,
    {
        LoginControl { state: ControlState::Running }
    }
}

impl LoginControl {
    pub fn cancel(&mut self) -> (disposition: CancelDisposition)
        ensures
            disposition == old(self).state.disposition(),
            final(self).state == old(self).state.after(ControlOp::Cancel),
    {
        match self.state {
            ControlState::Running => {
                self.state = ControlState::Cancelled;
                CancelDisposition::Accepted
            },
            ControlState::Cancelled => CancelDisposition::Accepted,
            ControlState::Committing => CancelDisposition::CommitInProgress,
            ControlState::Finished => CancelDisposition::AlreadyTerminal,
        }
    }

    pub fn begin_commit(&mut self) -> (result: Result<(), OAuthFlowError>)
        ensures
            final(self).state == old(self).state.after(ControlOp::Commit),
            match result {
                Ok(_) => old(self).state is Running,
                Err(error) => !(old(self).state is Running) && error@ == cancelled("cancelled"@),
            },
    {
        match self.state {
            ControlState::Running => {
                self.state = ControlState::Committing;
                Ok(())
            },
            _ => Err(cancelled_error("cancelled")),
        }
    }

    pub fn finish(&mut self)
        ensures
            final(self).state == old(self).state.after(ControlOp::Finish),
    {
        self.state = ControlState::Finished;
    }

    pub fn is_cancelled(&self) -> (yes: bool)
        ensures
            yes == (self.state is Cancelled),
    {
        matches!(self.state, ControlState::Cancelled)
    }
}

/// The state of a new control after some requests.
pub open spec fn state_after(ops: Seq<ControlOp>) -> ControlState
    decreases ops.len(),
{
    if ops.len() == 0 {
        ControlState::Running
    } else {
        state_after(ops.drop_last()).after(ops.last())
    }
}

/// The request at `i` cancels, and is told so.
pub open spec fn cancel_accepted(ops: Seq<ControlOp>, i: int) -> bool {
    0 <= i < ops.len() && ops[i] is Cancel && state_after(ops.take(i)).disposition()
        == CancelDisposition::Accepted
}

/// The request at `i` gets leave to store credentials.
pub open spec fn commit_allowed(ops: Seq<ControlOp>, i: int) -> bool {
    0 <= i < ops.len() && ops[i] is Commit && state_after(ops.take(i)) is Running
}

proof fn lemma_states_advance(ops: Seq<ControlOp>, i: int, j: int)
    requires
        0 <= i <= j <= ops.len(),
    ensures
        state_after(ops.take(i)) is Cancelled ==> state_after(ops.take(j)) is Cancelled
            || state_after(ops.take(j)) is Finished,
        state_after(ops.take(i)) is Committing ==> state_after(ops.take(j)) is Committing
            || state_after(ops.take(j)) is Finished,
        state_after(ops.take(i)) is Finished ==> state_after(ops.take(j)) is Finished,
    decreases j - i,
{
    if i < j {
        lemma_states_advance(ops, i, j - 1);
        assert(ops.take(j).drop_last() =~= ops.take(j - 1));
    }
}

/// Of an accepted cancellation and a commit, a login sees at most one.
pub proof fn law_cancel_and_commit_exclude_each_other(ops: Seq<ControlOp>, i: int, j: int)
    ensures
        !(cancel_accepted(ops, i) && commit_allowed(ops, j)),
{
    if cancel_accepted(ops, i) && commit_allowed(ops, j) {
        if i < j {
            assert(ops.take(i + 1).drop_last() =~= ops.take(i));
            lemma_states_advance(ops, i + 1, j);
        } else {
            assert(ops.take(j + 1).drop_last() =~= ops.take(j));
            lemma_states_advance(ops, j + 1, i);
        }
    }
}

/// A login stores credentials at most once.
pub proof fn law_one_commit_per_login(ops: Seq<ControlOp>, i: int, j: int)
    requires
        commit_allowed(ops, i),
        commit_allowed(ops, j),
    ensures
        i == j,
{
    let (first, second) = if i < j {
        (i, j)
    } else {
        (j, i)
    };
    if first < second {
        assert(ops.take(first + 1).drop_last() =~= ops.take(first));
        lemma_states_advance(ops, first + 1, second);
    }
}

/// How a login that can be cancelled is run.
#[derive(Debug)]
pub struct AsyncLoginOptions {
    pub issuer: String,
    pub client_id: String,
    pub callback_ports: Vec<u16>,
    pub browser_timeout: Duration,
}

pub open spec fn is_callback_port(port: u16) -> bool {
    port == 1455 || port == 1457
}

pub open spec fn port_refusal() -> FlowError {
    FlowError::protocol("The headless callback port must be 1455 or 1457"@).at_stage(
        "callback_bind"@,
    )
}

pub fn validate_headless_callback_port(port: u16) -> (result: Result<(), OAuthFlowError>)
    ensures
        match result {
            Ok(_) => is_callback_port(port),
            Err(error) => !is_callback_port(port) && error@ == port_refusal(),
        },
{
    if port == 1455 || port == 1457 {
        Ok(())
    } else {
        Err(
            OAuthFlowError::new(
                OAuthErrorCode::OAuthProtocol,
                false,
                "The headless callback port must be 1455 or 1457",
            ).at_stage("callback_bind"),
        )
    }
}

impl AsyncLoginOptions {
    /// The options of the pinned issuer at these ports.
    pub open spec fn is_pinned(self, ports: Seq<u16>) -> bool {
        &&& self.issuer@ == CODEX_OAUTH_ISSUER@
        &&& self.client_id@ == CODEX_OAUTH_CLIENT_ID@
        &&& self.callback_ports@ == ports
        &&& self.browser_timeout.millis == 300_000
    }

    pub fn production() -> (options: Self)
        ensures
            options.is_pinned(seq![1455u16, 1457u16]),
    {
        let mut callback_ports: Vec<u16> = Vec::new();
        callback_ports.push(1455);
        callback_ports.push(1457);
        assert(callback_ports@ =~= seq![1455u16, 1457u16]);
        AsyncLoginOptions {
            issuer: CODEX_OAUTH_ISSUER.to_owned(),
            client_id: CODEX_OAUTH_CLIENT_ID.to_owned(),
            callback_ports,
            browser_timeout: Duration::from_secs(300),
        }
    }

    pub fn headless(callback_port: u16) -> (options: Result<Self, OAuthFlowError>)
        ensures
            match options {
                Ok(options) => is_callback_port(callback_port) && options.is_pinned(
                    seq![callback_port],
                ),
                Err(error) => !is_callback_port(callback_port) && error@ == port_refusal(),
            },
    {
        match validate_headless_callback_port(callback_port) {
            Ok(_) => {
                let mut callback_ports: Vec<u16> = Vec::new();
                callback_ports.push(callback_port);
                assert(callback_ports@ =~= seq![callback_port]);
                Ok(
                    AsyncLoginOptions {
                        issuer: CODEX_OAUTH_ISSUER.to_owned(),
                        client_id: CODEX_OAUTH_CLIENT_ID.to_owned(),
                        callback_ports,
                        browser_timeout: Duration::from_secs(300),
                    },
                )
            },
            Err(error) => Err(error),
        }
    }
}

/// `text` without the marks at its end.
pub open spec fn without_trailing(text: Seq<char>, mark: char) -> Seq<char>
    decreases text.len(),
{
    if text.len() > 0 && text.last() == mark {
        without_trailing(text.drop_last(), mark)
    } else {
        text
    }
}

/// Where an issuer trades codes for tokens.
pub fn token_endpoint(issuer: &str) -> (endpoint: String)
    ensures
        endpoint@ == without_trailing(issuer@, '/') + "/oauth/token"@,
{
    let chars = chars_of(issuer);
    let mut end: usize = chars.len();
    assert(issuer@.take(end as int) =~= issuer@);
    while end > 0 && chars[end - 1] == '/'
        invariant
            chars@ == issuer@,
            end <= chars@.len(),
            without_trailing(issuer@, '/') == without_trailing(issuer@.take(end as int), '/'),
        decreases end,
    {
        assert(issuer@.take(end as int).drop_last() =~= issuer@.take(end - 1));
        end -= 1;
    }
    let base = text_of(part_of(&chars, 0, end));
    assert(base@ =~= issuer@.take(end as int));
    join(base.as_str(), "/oauth/token")
}

/// What sending a request came to.
pub enum SendEvent {
    Cancelled,
    TimedOut,
    Failed(RequestFailure),
    Replied(ReplyHead),
}

/// Why a request got no reply; nothing if it got one.
pub open spec fn send_error(event: SendEvent, has_proxy: bool, stage: Seq<char>) -> Option<
    FlowError,
> {
    match event {
        SendEvent::Replied(_) => None,
        SendEvent::Cancelled => Some(cancelled(stage)),
        SendEvent::TimedOut => Some(
            FlowError::new(
                OAuthErrorCode::OAuthNetwork,
                true,
                "The OAuth request timed out"@,
            ).at_stage(stage).with_transport("timeout"@),
        ),
        SendEvent::Failed(failure) => Some(
            failure.error(has_proxy, stage, "The OAuth request could not connect"@),
        ),
    }
}

/// Takes the outcome of a request.
pub fn send_request(event: SendEvent, has_proxy: bool, stage: &'static str) -> (result: Result<
    ReplyHead,
    OAuthFlowError,
>)
    ensures
        match result {
            Ok(head) => event == SendEvent::Replied(head),
            Err(error) => send_error(event, has_proxy, stage@) == Some(error@),
        },
{
    match event {
        SendEvent::Replied(head) => Ok(head),
        SendEvent::Cancelled => Err(cancelled_error(stage)),
        SendEvent::TimedOut => Err(
            OAuthFlowError::new(
                OAuthErrorCode::OAuthNetwork,
                true,
                "The OAuth request timed out",
            ).at_stage(stage).with_transport("timeout"),
        ),
        SendEvent::Failed(failure) => Err(
            failure.request_error(has_proxy, stage, "The OAuth request could not connect"),
        ),
    }
}

/// A whole reply.
pub struct ResponseData {
    pub status: u16,
    pub kind: &'static str,
    pub challenge: bool,
    pub body: Vec<u8>,
}

/// What reading a reply came to.
pub enum ReadEvent {
    Expired,
    Cancelled,
    TimedOut,
    Failed,
    Chunk(Vec<u8>),
    End,
}

/// A reply, as far as it was read.
pub struct ReplyReader {
    pub status: u16,
    pub declared_kind: &'static str,
    pub challenge: bool,
    pub body: Vec<u8>,
}

pub enum ReadProgress {
    More(ReplyReader),
    Done(ResponseData),
}

impl ReplyReader {
    /// What was read is within the limit.
    pub open spec fn wf(self) -> bool {
        self.body@.len() <= MAX_RESPONSE_BYTES
    }

    pub fn new(head: &ReplyHead) -> (reader: ReplyReader)
        ensures
            reader.status == head.status,
            reader.declared_kind@ == head.declared_kind(),
            reader.challenge == head.is_challenge(),
            reader.body@.len() == 0,
            reader.wf(),
    {
        let (declared_kind, challenge) = head.metadata();
        ReplyReader { status: head.status, declared_kind, challenge, body: Vec::new() }
    }

    /// Why reading stops without a reply; nothing if it goes on or is done.
    pub open spec fn error(self, event: ReadEvent, stage: Seq<char>) -> Option<FlowError> {
        let timed_out = FlowError::new(
            OAuthErrorCode::OAuthNetwork,
            true,
            "The OAuth response timed out"@,
        ).at_stage(stage);
        match event {
            ReadEvent::Expired => Some(timed_out.with_transport("timeout"@)),
            ReadEvent::Cancelled => Some(cancelled(stage)),
            ReadEvent::TimedOut => Some(
                timed_out.with_http(
                    Some(self.status),
                    Some(self.declared_kind@),
                    Some(self.challenge),
                ).with_transport("timeout"@),
            ),
            ReadEvent::Failed => Some(
                FlowError::new(
                    OAuthErrorCode::OAuthNetwork,
                    true,
                    "The OAuth response could not be read"@,
                ).at_stage(stage).with_http(
                    Some(self.status),
                    Some(self.declared_kind@),
                    Some(self.challenge),
                ).with_transport("http"@),
            ),
            ReadEvent::Chunk(chunk) => if self.body@.len() + chunk@.len() > MAX_RESPONSE_BYTES {
                Some(
                    FlowError::protocol("The OAuth response is too large"@).at_stage(
                        stage,
                    ).with_http(
                        Some(self.status),
                        Some(self.declared_kind@),
                        Some(self.challenge),
                    ),
                )
            } else {
                None
            },
            ReadEvent::End => None,
        }
    }

    /// One read of the reply.
    pub fn read_response(self, event: ReadEvent, stage: &'static str) -> (result: Result<
        ReadProgress,
        OAuthFlowError,
    >)
        requires
            self.wf(),
        ensures
            match result {
                Ok(ReadProgress::More(reader)) => {
                    &&& self.error(event, stage@) is None
                    &&& event matches ReadEvent::Chunk(chunk) && reader.body@ == self.body@ + chunk@
                    &&& reader.wf()
                    &&& reader.status == self.status
                    &&& reader.declared_kind == self.declared_kind
                    &&& reader.challenge == self.challenge
                },
                Ok(ReadProgress::Done(response)) => {
                    &&& event is End
                    &&& response.status == self.status
                    &&& response.kind@ == kind_of(self.declared_kind@, self.body@.len() == 0)
                    &&& response.challenge == self.challenge
                    &&& response.body@ == self.body@
                },
                Err(error) => self.error(event, stage@) == Some(error@),
            },
    {
        match event {
            ReadEvent::Expired => Err(
                OAuthFlowError::new(
                    OAuthErrorCode::OAuthNetwork,
                    true,
                    "The OAuth response timed out",
                ).at_stage(stage).with_transport("timeout"),
            ),
            ReadEvent::Cancelled => Err(cancelled_error(stage)),
            ReadEvent::TimedOut => Err(
                OAuthFlowError::new(
                    OAuthErrorCode::OAuthNetwork,
                    true,
                    "The OAuth response timed out",
                ).at_stage(stage).with_http(
                    Some(self.status),
                    Some(self.declared_kind),
                    Some(self.challenge),
                ).with_transport("timeout"),
            ),
            ReadEvent::Failed => Err(
                OAuthFlowError::new(
                    OAuthErrorCode::OAuthNetwork,
                    true,
                    "The OAuth response could not be read",
                ).at_stage(stage).with_http(
                    Some(self.status),
                    Some(self.declared_kind),
                    Some(self.challenge),
                ).with_transport("http"),
            ),
            ReadEvent::Chunk(chunk) => {
                if chunk.len() > MAX_RESPONSE_BYTES - self.body.len() {
                    return Err(
                        OAuthFlowError::protocol("The OAuth response is too large").at_stage(
                            stage,
                        ).with_http(
                            Some(self.status),
                            Some(self.declared_kind),
                            Some(self.challenge),
                        ),
                    );
                }
                let mut reader = self;
                append_bytes(&mut reader.body, chunk.as_slice());
                Ok(ReadProgress::More(reader))
            },
            ReadEvent::End => {
                let kind = response_kind(self.declared_kind, self.body.len() == 0);
                Ok(
                    ReadProgress::Done(
                        ResponseData {
                            status: self.status,
                            kind,
                            challenge: self.challenge,
                            body: self.body,
                        },
                    ),
                )
            },
        }
    }
}

impl ResponseData {
    /// What may be logged of a reply: not its body, only how long it is.
    pub fn debug_text(&self) -> (text: String)
        ensures
            text@ == "ResponseData { status: "@ + decimal(self.status as nat) + ", kind: "@
                + quoted_text(self.kind@) + ", challenge: "@ + truth_text(self.challenge)
                + ", body_len: "@ + decimal(self.body@.len()) + " }"@,
    {
        let mut text = "ResponseData { status: ".to_owned();
        text.append(to_decimal(self.status as u64).as_str());
        text.append(", kind: ");
        text.append(quoted(self.kind).as_str());
        text.append(", challenge: ");
        text.append(show_truth(self.challenge));
        text.append(", body_len: ");
        text.append(to_decimal(self.body.len() as u64).as_str());
        text.append(" }");
        text
    }
}

impl ResponseData {
    pub open spec fn challenge_error(self, stage: Seq<char>) -> Option<FlowError> {
        if self.challenge {
            Some(
                FlowError::new(
                    OAuthErrorCode::OAuthChallengeResponse,
                    true,
                    "The OAuth endpoint returned a challenge response"@,
                ).at_stage(stage).with_http(Some(self.status), Some(self.kind@), Some(true)),
            )
        } else {
            None
        }
    }

    pub fn reject_challenge(&self, stage: &'static str) -> (result: Result<(), OAuthFlowError>)
        ensures
            match result {
                Ok(_) => self.challenge_error(stage@) is None,
                Err(error) => self.challenge_error(stage@) == Some(error@),
            },
    {
        if self.challenge {
            Err(
                OAuthFlowError::new(
                    OAuthErrorCode::OAuthChallengeResponse,
                    true,
                    "The OAuth endpoint returned a challenge response",
                ).at_stage(stage).with_http(Some(self.status), Some(self.kind), Some(true)),
            )
        } else {
            Ok(())
        }
    }

    pub open spec fn content_error(self, stage: Seq<char>) -> FlowError {
        FlowError::new(
            OAuthErrorCode::OAuthUnexpectedContentType,
            true,
            "The OAuth endpoint returned an unexpected content type"@,
        ).at_stage(stage).with_http(Some(self.status), Some(self.kind@), Some(false))
    }

    /// Why a reply is no success with JSON in it; nothing if it is.
    pub open spec fn json_error(self, stage: Seq<char>) -> Option<FlowError> {
        if self.kind@ == "html"@ || self.kind@ == "other"@ || self.kind@ == "unknown"@ {
            Some(self.content_error(stage))
        } else if !(200 <= self.status < 300) {
            Some(
                FlowError::protocol("The OAuth request was rejected"@).at_stage(stage).with_http(
                    Some(self.status),
                    Some(self.kind@),
                    Some(false),
                ),
            )
        } else if self.kind@ != "json"@ {
            Some(self.content_error(stage))
        } else {
            None
        }
    }

    fn unexpected_content_type(&self, stage: &'static str) -> (error: OAuthFlowError)
        ensures
            error@ == self.content_error(stage@),
    {
        OAuthFlowError::new(
            OAuthErrorCode::OAuthUnexpectedContentType,
            true,
            "The OAuth endpoint returned an unexpected content type",
        ).at_stage(stage).with_http(Some(self.status), Some(self.kind), Some(false))
    }

    pub fn require_json_success(&self, stage: &'static str) -> (result: Result<(), OAuthFlowError>)
        ensures
            match result {
                Ok(_) => self.json_error(stage@) is None,
                Err(error) => self.json_error(stage@) == Some(error@),
            },
    {
        if str_eq(self.kind, "html") || str_eq(self.kind, "other") || str_eq(self.kind, "unknown") {
            return Err(self.unexpected_content_type(stage));
        }
        if !(200 <= self.status && self.status < 300) {
            return Err(
                OAuthFlowError::protocol("The OAuth request was rejected").at_stage(
                    stage,
                ).with_http(Some(self.status), Some(self.kind), Some(false)),
            );
        }
        if !str_eq(self.kind, "json") {
            return Err(self.unexpected_content_type(stage));
        }
        Ok(())
    }

    /// Why a reply brings no tokens; nothing if it does.
    pub open spec fn exchange_error(
        self,
        parsed: Option<TokenResponse>,
        id_claims: Option<JwtClaims>,
    ) -> Option<FlowError> {
        let stage = "token_exchange"@;
        if self.challenge_error(stage) is Some {
            self.challenge_error(stage)
        } else if self.json_error(stage) is Some {
            self.json_error(stage)
        } else {
            match token_reply_error(parsed, id_claims) {
                Some(error) => Some(
                    error.at_stage(stage).with_http(
                        Some(self.status),
                        Some(self.kind@),
                        Some(false),
                    ),
                ),
                None => None,
            }
        }
    }

    /// Takes the tokens out of the reply to a code; `parsed` is what its JSON holds.
    pub fn exchange_code(
        &self,
        parsed: Option<TokenResponse>,
        id_claims: Option<JwtClaims>,
        access_claims: Option<JwtClaims>,
    ) -> (result: Result<NewOAuthTokens, OAuthFlowError>)
        ensures
            match result {
                Ok(tokens) => self.exchange_error(parsed, id_claims) is None && tokens_match(
                    tokens,
                    parsed->0,
                    id_claims->0,
                    access_claims,
                ),
                Err(error) => self.exchange_error(parsed, id_claims) == Some(error@),
            },
    {
        match self.reject_challenge("token_exchange") {
            Ok(_) => {},
            Err(error) => {
                return Err(error);
            },
        }
        match self.require_json_success("token_exchange") {
            Ok(_) => {},
            Err(error) => {
                return Err(error);
            },
        }
        match parse_new_oauth_tokens(parsed, id_claims, access_claims) {
            Ok(tokens) => Ok(tokens),
            Err(error) => Err(
                error.at_stage("token_exchange").with_http(
                    Some(self.status),
                    Some(self.kind),
                    Some(false),
                ),
            ),
        }
    }
}

} // verus!
