//! The course of a browser login: what to do next after what came back.

use vstd::prelude::*;

use crate::codex_auth::callback::{
    callback_outcome, cancelled, cancelled_error, field_value, lemma_field_at, lemma_no_field,
    path_and_query, request_target, Callback, CallbackAction, MAX_CALLBACK_REQUESTS,
};
use crate::codex_auth::login_async::{ControlOp, ControlState, LoginControl, LoginProgress};
use crate::codex_auth::oauth::{
    authorization_fields, build_authorization_url, encodes, encodes_draw, generate_pkce,
    generate_state, is_endpoint, no_draw, no_randomness, storage_failure, FlowError, LoginOptions,
    OAuthErrorCode, OAuthFlowError, PkceCodes, CALLBACK_PATH,
};
use crate::codex_auth::storage::{AuthStatus, NewOAuthTokens, StorageError};
use crate::crypto::{base64url_of, sha256_of};
use crate::duration::Duration;
use crate::text::{decimal, split_by, to_decimal};
use crate::web::{form_fields, form_text, reads_back, url_at_path, url_at_path_with_query};
use vstd::string::*;
use vstd::utf8::*;

verus! {

/// Whether a login can be cancelled while it runs.
#[derive(Clone, Copy, Debug, PartialEq, Eq, Structural)]
pub enum LoginStyle {
    Blocking,
    Cancellable,
}

impl LoginStyle {
    /// A failure while the callback is awaited. Only a login that can be cancelled names
    /// that stage.
    pub open spec fn waiting_error(self, error: FlowError) -> FlowError {
        match self {
            LoginStyle::Blocking => error,
            LoginStyle::Cancellable => error.at_stage("callback_wait"@),
        }
    }

    /// No port could be had.
    pub open spec fn no_port(self) -> FlowError {
        self.waiting_error(
            FlowError::new(
                OAuthErrorCode::CallbackUnavailable,
                true,
                "OAuth callback ports 1455 and 1457 are unavailable"@,
            ),
        )
    }

    /// A port was had but cannot be used.
    pub open spec fn bad_port(self, address_unreadable: bool) -> FlowError {
        self.waiting_error(
            FlowError::new(
                OAuthErrorCode::CallbackUnavailable,
                true,
                if address_unreadable {
                    "The local OAuth callback address could not be read"@
                } else {
                    "The local OAuth callback could not be configured"@
                },
            ),
        )
    }

    fn at_wait(self, error: OAuthFlowError) -> (staged: OAuthFlowError)
        ensures
            staged@ == self.waiting_error(error@),
    {
        match self {
            LoginStyle::Blocking => error,
            LoginStyle::Cancellable => error.at_stage("callback_wait"),
        }
    }

    /// The port to try next after `refused` of them could not be had.
    pub fn bind_callback(self, ports: &[u16], refused: usize) -> (port: Result<u16, OAuthFlowError>)
        ensures
            match port {
                Ok(port) => refused < ports@.len() && port == ports@[refused as int],
                Err(error) => refused >= ports@.len() && error@ == self.no_port(),
            },
    {
        if refused < ports.len() {
            Ok(ports[refused])
        } else {
            Err(
                self.at_wait(
                    OAuthFlowError::new(
                        OAuthErrorCode::CallbackUnavailable,
                        true,
                        "OAuth callback ports 1455 and 1457 are unavailable",
                    ),
                ),
            )
        }
    }

    /// A port that was had but cannot be used.
    pub fn callback_fault(self, address_unreadable: bool) -> (error: OAuthFlowError)
        ensures
            error@ == self.bad_port(address_unreadable),
    {
        self.at_wait(
            OAuthFlowError::new(
                OAuthErrorCode::CallbackUnavailable,
                true,
                if address_unreadable {
                    "The local OAuth callback address could not be read"
                } else {
                    "The local OAuth callback could not be configured"
                },
            ),
        )
    }
}

pub open spec fn redirect_uri_of(port: u16) -> Seq<char> {
    "http://localhost:"@ + decimal(port as nat) + CALLBACK_PATH@
}

/// What a login sends to the browser, and keeps to recognise the answer.
pub struct LoginRequest {
    pub redirect_uri: String,
    pub verifier: String,
    pub state: String,
    pub authorization_url: String,
}

impl LoginRequest {
    /// The request is the one for these codes.
    pub open spec fn is_for(
        self,
        issuer: Seq<char>,
        client_id: Seq<char>,
        port: u16,
        codes: PkceCodes,
        state: Seq<char>,
    ) -> bool {
        &&& self.redirect_uri@ == redirect_uri_of(port)
        &&& self.verifier@ == codes.verifier@
        &&& self.state@ == state
        &&& Some(self.authorization_url@) == url_at_path_with_query(
            issuer,
            "/oauth/authorize"@,
            authorization_fields(client_id, redirect_uri_of(port), codes.challenge@, state),
        )
        &&& reads_back(
            authorization_fields(client_id, redirect_uri_of(port), codes.challenge@, state),
        )
    }

    /// Makes the request out of its random parts.
    pub fn new(
        issuer: &str,
        client_id: &str,
        port: u16,
        codes: PkceCodes,
        state: String,
    ) -> (request: Result<LoginRequest, OAuthFlowError>)
        requires
            issuer@.len() <= 0x0fff_0000,
        ensures
            match request {
                Ok(request) => is_endpoint(issuer@) && request.is_for(
                    issuer@,
                    client_id@,
                    port,
                    codes,
                    state@,
                ),
                Err(error) => !is_endpoint(issuer@) && error@ == FlowError::protocol(
                    "The OAuth issuer is invalid"@,
                ),
            },
    {
        let mut redirect_uri = "http://localhost:".to_owned();
        redirect_uri.append(to_decimal(port as u64).as_str());
        redirect_uri.append(CALLBACK_PATH);
        match build_authorization_url(
            issuer,
            client_id,
            redirect_uri.as_str(),
            codes.challenge.as_str(),
            state.as_str(),
        ) {
            Ok(authorization_url) => Ok(
                LoginRequest { redirect_uri, verifier: codes.verifier, state, authorization_url },
            ),
            Err(error) => Err(error),
        }
    }

    /// Makes a request with fresh random parts.
    pub fn fresh(issuer: &str, client_id: &str, port: u16) -> (request: Result<
        LoginRequest,
        OAuthFlowError,
    >)
        requires
            issuer@.len() <= 0x0fff_0000,
        ensures
            match request {
                Ok(request) => is_endpoint(issuer@) && exists|codes: PkceCodes|
                    codes.is_bound() && encodes_draw(codes.verifier@, 64) && encodes_draw(
                        request.state@,
                        32,
                    ) && encodes(codes.verifier@, 64) && encodes(request.state@, 32)
                        && #[trigger] request.is_for(
                        issuer@,
                        client_id@,
                        port,
                        codes,
                        request.state@,
                    ),
                Err(error) => ((no_draw(64) || no_draw(32)) && error@ == no_randomness()) || (
                !is_endpoint(issuer@) && error@ == FlowError::protocol(
                    "The OAuth issuer is invalid"@,
                )),
            },
    {
        let codes = match generate_pkce() {
            Ok(codes) => codes,
            Err(error) => {
                return Err(error);
            },
        };
        let state = match generate_state() {
            Ok(state) => state,
            Err(error) => {
                return Err(error);
            },
        };
        let ghost drawn = codes;
        let request = LoginRequest::new(issuer, client_id, port, codes, state);
        proof {
            if request is Ok {
                let made = request->Ok_0;
                assert(made.is_for(issuer@, client_id@, port, drawn, made.state@));
            }
        }
        request
    }
}

/// The one time limit of a login, counted from its start.
#[derive(Clone, Copy, Debug, PartialEq, Eq, Structural)]
pub struct LoginDeadline {
    pub timeout: Duration,
}

impl LoginDeadline {
    /// What is left of the time after some of it.
    pub open spec fn left(self, elapsed: Duration) -> Duration {
        Duration {
            millis: if elapsed.millis < self.timeout.millis {
                (self.timeout.millis - elapsed.millis) as u64
            } else {
                0
            },
        }
    }

    pub fn time_left(&self, elapsed: Duration) -> (left: Duration)
        ensures
            left == self.left(elapsed),
    {
        Duration { millis: self.timeout.millis.saturating_sub(elapsed.millis) }
    }

    pub fn is_over(&self, elapsed: Duration) -> (over: bool)
        ensures
            over == (self.left(elapsed).millis == 0),
    {
        self.timeout.millis <= elapsed.millis
    }
}

#[derive(Clone, Copy, Debug, PartialEq, Eq, Structural)]
pub enum LoginPhase {
    Locking,
    Binding,
    Preparing,
    Opening,
    Waiting,
    Reading,
    Exchanging,
    Committing,
    Done,
}

/// A login that is under way.
pub struct LoginRun {
    pub style: LoginStyle,
    pub issuer: String,
    pub client_id: String,
    /// The ports to try, in their order.
    pub ports: Vec<u16>,
    pub deadline: LoginDeadline,
    pub phase: LoginPhase,
    /// How many of the ports could not be had.
    pub refused: usize,
    /// The port of the callback page.
    pub port: Option<u16>,
    pub request: Option<LoginRequest>,
    pub requests: usize,
}

/// What came back.
pub enum LoginEvent {
    /// Whether the credential store could be locked. The time of the login runs from here.
    Locked(Result<(), StorageError>),
    /// The callback page has this port now.
    Bound(u16),
    BindRefused,
    /// The port was had but cannot be used.
    PortFault { address_unreadable: bool },
    Prepared(Result<LoginRequest, OAuthFlowError>),
    Opened(Result<(), OAuthFlowError>),
    Deadline,
    Cancelled,
    AcceptFailed,
    Accepted,
    Callback(Result<CallbackAction, OAuthFlowError>),
    Exchanged(Result<NewOAuthTokens, OAuthFlowError>),
    Committed(Result<AuthStatus, StorageError>),
}

/// A page for the browser.
#[derive(Debug)]
pub struct Page {
    pub status: u16,
    pub message: &'static str,
}

/// What to do next, with all that it takes.
pub enum LoginTask {
    /// Takes the store's lock, before anything else.
    Lock,
    Bind(u16),
    /// Makes the request for a callback page at this port.
    Prepare(u16),
    Open { url: String, deadline: LoginDeadline },
    Accept,
    Read,
    Exchange { code: String, redirect_uri: String, verifier: String, deadline: LoginDeadline },
    Commit(NewOAuthTokens),
    Finish(Result<AuthStatus, OAuthFlowError>),
}

/// What to show and report, and then to do.
pub struct LoginAction {
    pub page: Option<Page>,
    pub progress: Option<LoginProgress>,
    pub task: LoginTask,
}

/// What a [`LoginTask`] says.
pub ghost enum Task {
    Lock,
    Bind(u16),
    Prepare(u16),
    Open { url: Seq<char>, deadline: LoginDeadline },
    Accept,
    Read,
    Exchange {
        code: Seq<char>,
        redirect_uri: Seq<char>,
        verifier: Seq<char>,
        deadline: LoginDeadline,
    },
    Commit(NewOAuthTokens),
    Finish(Result<AuthStatus, FlowError>),
}

/// What a [`LoginAction`] says.
pub ghost struct Action {
    pub page: Option<(u16, Seq<char>)>,
    pub progress: Option<LoginProgress>,
    pub task: Task,
}

impl View for LoginTask {
    type V = Task;

    open spec fn view(&self) -> Task {
        match *self {
            LoginTask::Lock => Task::Lock,
            LoginTask::Bind(port) => Task::Bind(port),
            LoginTask::Prepare(port) => Task::Prepare(port),
            LoginTask::Open { url, deadline } => Task::Open { url: url@, deadline },
            LoginTask::Accept => Task::Accept,
            LoginTask::Read => Task::Read,
            LoginTask::Exchange { code, redirect_uri, verifier, deadline } => Task::Exchange {
                code: code@,
                redirect_uri: redirect_uri@,
                verifier: verifier@,
                deadline,
            },
            LoginTask::Commit(tokens) => Task::Commit(tokens),
            LoginTask::Finish(Ok(status)) => Task::Finish(Ok(status)),
            LoginTask::Finish(Err(error)) => Task::Finish(Err(error@)),
        }
    }
}

impl View for LoginAction {
    type V = Action;

    open spec fn view(&self) -> Action {
        Action {
            page: match self.page {
                Some(page) => Some((page.status, page.message@)),
                None => None,
            },
            progress: self.progress,
            task: self.task@,
        }
    }
}

pub open spec fn quiet(task: Task) -> Action {
    Action { page: None, progress: None, task }
}

pub open spec fn with_page(status: u16, message: Seq<char>, task: Task) -> Action {
    Action { page: Some((status, message)), progress: None, task }
}

pub open spec fn failed(error: FlowError) -> Task {
    Task::Finish(Err(error))
}

impl LoginRun {
    /// `request` is one for the callback page at `port`, with a challenge of its verifier.
    #[verifier::opaque]
    pub open spec fn is_bound_by(self, request: LoginRequest, port: u16) -> bool {
        exists|codes: PkceCodes|
            codes.is_bound() && #[trigger] request.is_for(
                self.issuer@,
                self.client_id@,
                port,
                codes,
                request.state@,
            )
    }

    /// The login has not begun.
    pub open spec fn is_new(self) -> bool {
        &&& self.phase is Locking
        &&& self.refused == 0
        &&& self.port is None
        &&& self.request is None
        &&& self.requests == 0
    }

    /// A port is known once one was bound, and a request once one was made for it; neither
    /// changes then.
    pub open spec fn wf(self) -> bool {
        &&& self.requests <= MAX_CALLBACK_REQUESTS
        &&& self.refused <= self.ports@.len()
        &&& self.phase is Binding ==> self.refused < self.ports@.len()
        &&& self.phase is Locking || self.phase is Binding ==> self.port is None
        &&& phase_rank(self.phase) < 3 ==> self.request is None
        &&& 2 <= phase_rank(self.phase) < 7 ==> self.port is Some
        &&& 3 <= phase_rank(self.phase) < 7 ==> self.request is Some
        &&& self.request matches Some(request) ==> (self.port matches Some(port)
            && self.is_bound_by(request, port))
    }

    /// What the callback page makes of a request that cannot be read.
    pub open spec fn invalid_text(self) -> Seq<char> {
        match self.style {
            LoginStyle::Blocking => "The OAuth callback request is invalid"@,
            LoginStyle::Cancellable => "The OAuth callback is invalid"@,
        }
    }

    /// `action` is what some request to the callback page means.
    #[verifier::opaque]
    pub open spec fn is_called_back(self, action: Callback) -> bool {
        exists|head: Seq<u8>| #[trigger]
            callback_outcome(
                head,
                self.port->Some_0,
                self.request->Some_0.state@,
                self.invalid_text(),
            ) == Ok::<Callback, FlowError>(action)
    }

    /// `event` is an answer to what was asked last.
    pub open spec fn fits(self, event: LoginEvent) -> bool {
        match self.phase {
            LoginPhase::Locking => event is Locked,
            LoginPhase::Binding => event is Bound || event is BindRefused || event is PortFault,
            LoginPhase::Preparing => event matches LoginEvent::Prepared(result) && (
            result matches Ok(request) ==> self.is_bound_by(request, self.port->Some_0)),
            LoginPhase::Opening => event is Opened,
            LoginPhase::Waiting => event is Deadline || event is AcceptFailed || event is Accepted
                || (event is Cancelled && self.style is Cancellable),
            LoginPhase::Reading => event matches LoginEvent::Callback(result) && (
            result matches Ok(action) ==> self.is_called_back(action@)),
            LoginPhase::Exchanging => event is Exchanged,
            LoginPhase::Committing => event is Committed,
            LoginPhase::Done => false,
        }
    }

    /// Only a login that can be cancelled reports its progress.
    pub open spec fn report(self, progress: LoginProgress) -> Option<LoginProgress> {
        match self.style {
            LoginStyle::Blocking => None,
            LoginStyle::Cancellable => Some(progress),
        }
    }

    /// A login that can be cancelled stores its credentials only where nobody cancelled.
    pub open spec fn may_commit(self, control: ControlState) -> bool {
        self.style is Blocking || control is Running
    }

    /// How many ports could not be had after `event`.
    pub open spec fn refused_after(self, event: LoginEvent) -> int {
        if event is BindRefused {
            self.refused + 1
        } else {
            self.refused as int
        }
    }

    /// What is done after `refused` ports could not be had.
    pub open spec fn try_port(self, refused: int) -> Task {
        if refused < self.ports@.len() {
            Task::Bind(self.ports@[refused])
        } else {
            failed(self.style.no_port())
        }
    }

    pub open spec fn next_phase(self, event: LoginEvent, control: ControlState) -> LoginPhase {
        match event {
            LoginEvent::Locked(Ok(_)) | LoginEvent::BindRefused => if self.refused_after(event)
                < self.ports@.len() {
                LoginPhase::Binding
            } else {
                LoginPhase::Done
            },
            LoginEvent::Bound(_) => LoginPhase::Preparing,
            LoginEvent::Prepared(Ok(_)) => LoginPhase::Opening,
            LoginEvent::Opened(Ok(_)) => LoginPhase::Waiting,
            LoginEvent::Accepted => if self.requests < MAX_CALLBACK_REQUESTS {
                LoginPhase::Reading
            } else {
                LoginPhase::Done
            },
            LoginEvent::Callback(Err(error)) => if self.style is Cancellable && error.code
                == OAuthErrorCode::AuthCancelled {
                LoginPhase::Done
            } else {
                LoginPhase::Waiting
            },
            LoginEvent::Callback(Ok(CallbackAction::Ignore(_))) => LoginPhase::Waiting,
            LoginEvent::Callback(Ok(CallbackAction::Code(_))) => LoginPhase::Exchanging,
            LoginEvent::Exchanged(Ok(_)) => if self.may_commit(control) {
                LoginPhase::Committing
            } else {
                LoginPhase::Done
            },
            _ => LoginPhase::Done,
        }
    }

    pub open spec fn after(self, event: LoginEvent, control: ControlState) -> LoginRun {
        LoginRun {
            phase: self.next_phase(event, control),
            refused: self.refused_after(event) as usize,
            port: match event {
                LoginEvent::Bound(port) => Some(port),
                _ => self.port,
            },
            request: match event {
                LoginEvent::Prepared(Ok(request)) => Some(request),
                _ => self.request,
            },
            requests: if event is Accepted && self.requests < MAX_CALLBACK_REQUESTS {
                (self.requests + 1) as usize
            } else {
                self.requests
            },
            ..self
        }
    }

    pub open spec fn control_after(self, event: LoginEvent, control: ControlState) -> ControlState {
        if self.style is Cancellable && event matches LoginEvent::Exchanged(Ok(_)) {
            control.after(ControlOp::Commit)
        } else {
            control
        }
    }

    pub open spec fn action(self, event: LoginEvent, control: ControlState) -> Action {
        match event {
            LoginEvent::Locked(Ok(_)) | LoginEvent::BindRefused => quiet(
                self.try_port(self.refused_after(event)),
            ),
            LoginEvent::Locked(Err(error)) => quiet(failed(storage_failure(error)@)),
            LoginEvent::Bound(port) => quiet(Task::Prepare(port)),
            LoginEvent::PortFault { address_unreadable } => quiet(
                failed(self.style.bad_port(address_unreadable)),
            ),
            LoginEvent::Prepared(Ok(request)) => quiet(
                Task::Open { url: request.authorization_url@, deadline: self.deadline },
            ),
            LoginEvent::Prepared(Err(error)) => quiet(failed(error@)),
            LoginEvent::Opened(Ok(_)) => Action {
                page: None,
                progress: self.report(LoginProgress::Waiting),
                task: Task::Accept,
            },
            LoginEvent::Opened(Err(error)) => quiet(failed(error@)),
            LoginEvent::Deadline => quiet(
                failed(
                    self.style.waiting_error(
                        FlowError::new(
                            OAuthErrorCode::CallbackTimeout,
                            true,
                            "Codex sign-in timed out"@,
                        ),
                    ),
                ),
            ),
            LoginEvent::Cancelled => quiet(failed(cancelled("callback_wait"@))),
            LoginEvent::AcceptFailed => quiet(
                failed(
                    self.style.waiting_error(
                        FlowError::new(
                            OAuthErrorCode::CallbackUnavailable,
                            true,
                            "The local OAuth callback stopped unexpectedly"@,
                        ),
                    ),
                ),
            ),
            LoginEvent::Accepted => if self.requests < MAX_CALLBACK_REQUESTS {
                quiet(Task::Read)
            } else {
                quiet(
                    failed(
                        self.style.waiting_error(
                            FlowError::protocol(
                                match self.style {
                                    LoginStyle::Blocking =>
                                        "Too many invalid OAuth callback requests were received"@,
                                    LoginStyle::Cancellable => "Too many OAuth callbacks"@,
                                },
                            ),
                        ),
                    ),
                )
            },
            LoginEvent::Callback(Err(error)) => if self.style is Cancellable && error.code
                == OAuthErrorCode::AuthCancelled {
                quiet(failed(error@))
            } else {
                with_page(400, "Sign-in request rejected"@, Task::Accept)
            },
            LoginEvent::Callback(Ok(CallbackAction::Ignore(status))) => with_page(
                status,
                "Sign-in request rejected"@,
                Task::Accept,
            ),
            LoginEvent::Callback(Ok(CallbackAction::Denied)) => with_page(
                400,
                "Sign-in was not completed"@,
                failed(
                    self.style.waiting_error(
                        FlowError::new(
                            OAuthErrorCode::OAuthDenied,
                            false,
                            "Codex sign-in was denied or cancelled"@,
                        ),
                    ),
                ),
            ),
            LoginEvent::Callback(Ok(CallbackAction::Code(code))) => Action {
                page: None,
                progress: self.report(LoginProgress::Exchanging),
                task: Task::Exchange {
                    code: code@,
                    redirect_uri: self.request->Some_0.redirect_uri@,
                    verifier: self.request->Some_0.verifier@,
                    deadline: self.deadline,
                },
            },
            LoginEvent::Exchanged(Err(error)) => with_page(
                500,
                "Codex sign-in could not be completed safely."@,
                failed(error@),
            ),
            LoginEvent::Exchanged(Ok(tokens)) => if self.may_commit(control) {
                Action {
                    page: None,
                    progress: self.report(LoginProgress::Committing),
                    task: Task::Commit(tokens),
                }
            } else {
                with_page(
                    500,
                    "Codex sign-in could not be completed safely."@,
                    failed(cancelled("cancelled"@)),
                )
            },
            LoginEvent::Committed(Ok(status)) => with_page(
                200,
                "Codex sign-in completed. You can close this window."@,
                Task::Finish(Ok(status)),
            ),
            LoginEvent::Committed(Err(error)) => with_page(
                500,
                "Codex sign-in could not be completed safely."@,
                failed(
                    match self.style {
                        LoginStyle::Blocking => storage_failure(error)@,
                        LoginStyle::Cancellable => storage_failure(error)@.at_stage(
                            "credential_commit"@,
                        ),
                    },
                ),
            ),
        }
    }

    /// A login of which nothing was done yet.
    pub fn new(
        style: LoginStyle,
        issuer: String,
        client_id: String,
        ports: Vec<u16>,
        timeout: Duration,
    ) -> (run: LoginRun)
        ensures
            run == (LoginRun {
                style,
                issuer,
                client_id,
                ports,
                deadline: LoginDeadline { timeout },
                phase: LoginPhase::Locking,
                refused: 0,
                port: None,
                request: None,
                requests: 0,
            }),
            run.is_new(),
            run.wf(),
    {
        LoginRun {
            style,
            issuer,
            client_id,
            ports,
            deadline: LoginDeadline { timeout },
            phase: LoginPhase::Locking,
            refused: 0,
            port: None,
            request: None,
            requests: 0,
        }
    }

    /// A login with these options.
    pub fn with_options(style: LoginStyle, options: LoginOptions) -> (run: LoginRun)
        ensures
            run.style == style,
            run.issuer == options.issuer,
            run.client_id == options.client_id,
            run.ports == options.ports,
            run.deadline.timeout == options.timeout,
            run.is_new(),
            run.wf(),
    {
        LoginRun::new(style, options.issuer, options.client_id, options.ports, options.timeout)
    }

    /// What a new login does first.
    pub fn begin(&self) -> (action: LoginAction)
        requires
            self.is_new(),
        ensures
            action@ == quiet(Task::Lock),
    {
        LoginAction { page: None, progress: None, task: LoginTask::Lock }
    }

    fn try_next_port(&mut self) -> (action: LoginAction)
        requires
            old(self).refused <= old(self).ports@.len(),
        ensures
            *final(self) == (LoginRun {
                phase: if old(self).refused < old(self).ports@.len() {
                    LoginPhase::Binding
                } else {
                    LoginPhase::Done
                },
                ..*old(self)
            }),
            action@ == quiet(old(self).try_port(old(self).refused as int)),
    {
        match self.style.bind_callback(self.ports.as_slice(), self.refused) {
            Ok(port) => {
                self.phase = LoginPhase::Binding;
                LoginAction { page: None, progress: None, task: LoginTask::Bind(port) }
            },
            Err(error) => self.finish(None, error),
        }
    }

    fn finish(&mut self, page: Option<Page>, error: OAuthFlowError) -> (action: LoginAction)
        ensures
            *final(self) == (LoginRun { phase: LoginPhase::Done, ..*old(self) }),
            action@ == (Action {
                page: match page {
                    Some(page) => Some((page.status, page.message@)),
                    None => None,
                },
                progress: None,
                task: failed(error@),
            }),
    {
        self.phase = LoginPhase::Done;
        LoginAction { page, progress: None, task: LoginTask::Finish(Err(error)) }
    }

    fn reported(&self, progress: LoginProgress) -> (report: Option<LoginProgress>)
        ensures
            report == self.report(progress),
    {
        match self.style {
            LoginStyle::Blocking => None,
            LoginStyle::Cancellable => Some(progress),
        }
    }

    /// Takes what came back, and says what to do next.
    pub fn step(&mut self, event: LoginEvent, control: &mut LoginControl) -> (action: LoginAction)
        requires
            old(self).wf(),
            old(self).fits(event),
        ensures
            final(self).wf(),
            *final(self) == old(self).after(event, old(control).state),
            final(control).state == old(self).control_after(event, old(control).state),
            action@ == old(self).action(event, old(control).state),
    {
        proof {
            lemma_step(*self, event, control.state);
        }
        match event {
            LoginEvent::Locked(Ok(_)) => self.try_next_port(),
            LoginEvent::Locked(Err(error)) => self.finish(None, OAuthFlowError::from(error)),
            LoginEvent::BindRefused => {
                assert(self.ports@.len() == self.ports.len());
                self.refused += 1;
                self.try_next_port()
            },
            LoginEvent::Bound(port) => {
                self.phase = LoginPhase::Preparing;
                self.port = Some(port);
                LoginAction { page: None, progress: None, task: LoginTask::Prepare(port) }
            },
            LoginEvent::PortFault { address_unreadable } => {
                let error = self.style.callback_fault(address_unreadable);
                self.finish(None, error)
            },
            LoginEvent::Prepared(Ok(request)) => {
                self.phase = LoginPhase::Opening;
                let url = request.authorization_url.as_str().to_owned();
                self.request = Some(request);
                LoginAction {
                    page: None,
                    progress: None,
                    task: LoginTask::Open { url, deadline: self.deadline },
                }
            },
            LoginEvent::Prepared(Err(error)) => self.finish(None, error),
            LoginEvent::Opened(Ok(_)) => {
                self.phase = LoginPhase::Waiting;
                LoginAction {
                    page: None,
                    progress: self.reported(LoginProgress::Waiting),
                    task: LoginTask::Accept,
                }
            },
            LoginEvent::Opened(Err(error)) => self.finish(None, error),
            LoginEvent::Deadline => {
                let error = self.style.at_wait(
                    OAuthFlowError::new(
                        OAuthErrorCode::CallbackTimeout,
                        true,
                        "Codex sign-in timed out",
                    ),
                );
                self.finish(None, error)
            },
            LoginEvent::Cancelled => self.finish(None, cancelled_error("callback_wait")),
            LoginEvent::AcceptFailed => {
                let error = self.style.at_wait(
                    OAuthFlowError::new(
                        OAuthErrorCode::CallbackUnavailable,
                        true,
                        "The local OAuth callback stopped unexpectedly",
                    ),
                );
                self.finish(None, error)
            },
            LoginEvent::Accepted => {
                if self.requests < MAX_CALLBACK_REQUESTS {
                    self.requests += 1;
                    self.phase = LoginPhase::Reading;
                    LoginAction { page: None, progress: None, task: LoginTask::Read }
                } else {
                    let message = match self.style {
                        LoginStyle::Blocking => {
                            "Too many invalid OAuth callback requests were received"
                        },
                        LoginStyle::Cancellable => "Too many OAuth callbacks",
                    };
                    let error = self.style.at_wait(OAuthFlowError::protocol(message));
                    self.finish(None, error)
                }
            },
            LoginEvent::Callback(Err(error)) => {
                if self.style == LoginStyle::Cancellable && error.code
                    == OAuthErrorCode::AuthCancelled {
                    self.finish(None, error)
                } else {
                    self.phase = LoginPhase::Waiting;
                    LoginAction {
                        page: Some(Page { status: 400, message: "Sign-in request rejected" }),
                        progress: None,
                        task: LoginTask::Accept,
                    }
                }
            },
            LoginEvent::Callback(Ok(CallbackAction::Ignore(status))) => {
                self.phase = LoginPhase::Waiting;
                LoginAction {
                    page: Some(Page { status, message: "Sign-in request rejected" }),
                    progress: None,
                    task: LoginTask::Accept,
                }
            },
            LoginEvent::Callback(Ok(CallbackAction::Denied)) => {
                let error = self.style.at_wait(
                    OAuthFlowError::new(
                        OAuthErrorCode::OAuthDenied,
                        false,
                        "Codex sign-in was denied or cancelled",
                    ),
                );
                self.finish(
                    Some(Page { status: 400, message: "Sign-in was not completed" }),
                    error,
                )
            },
            LoginEvent::Callback(Ok(CallbackAction::Code(code))) => {
                self.phase = LoginPhase::Exchanging;
                let (redirect_uri, verifier) = match &self.request {
                    Some(request) => (
                        request.redirect_uri.as_str().to_owned(),
                        request.verifier.as_str().to_owned(),
                    ),
                    None => (String::new(), String::new()),
                };
                LoginAction {
                    page: None,
                    progress: self.reported(LoginProgress::Exchanging),
                    task: LoginTask::Exchange {
                        code,
                        redirect_uri,
                        verifier,
                        deadline: self.deadline,
                    },
                }
            },
            LoginEvent::Exchanged(Err(error)) => self.finish(
                Some(
                    Page { status: 500, message: "Codex sign-in could not be completed safely." },
                ),
                error,
            ),
            LoginEvent::Exchanged(Ok(tokens)) => {
                let leave = match self.style {
                    LoginStyle::Blocking => Ok(()),
                    LoginStyle::Cancellable => control.begin_commit(),
                };
                match leave {
                    Ok(_) => {
                        self.phase = LoginPhase::Committing;
                        LoginAction {
                            page: None,
                            progress: self.reported(LoginProgress::Committing),
                            task: LoginTask::Commit(tokens),
                        }
                    },
                    Err(error) => self.finish(
                        Some(
                            Page {
                                status: 500,
                                message: "Codex sign-in could not be completed safely.",
                            },
                        ),
                        error,
                    ),
                }
            },
            LoginEvent::Committed(Ok(status)) => {
                self.phase = LoginPhase::Done;
                LoginAction {
                    page: Some(
                        Page {
                            status: 200,
                            message: "Codex sign-in completed. You can close this window.",
                        },
                    ),
                    progress: None,
                    task: LoginTask::Finish(Ok(status)),
                }
            },
            LoginEvent::Committed(Err(error)) => {
                let error = OAuthFlowError::from(error);
                let error = match self.style {
                    LoginStyle::Blocking => error,
                    LoginStyle::Cancellable => error.at_stage("credential_commit"),
                };
                self.finish(
                    Some(
                        Page {
                            status: 500,
                            message: "Codex sign-in could not be completed safely.",
                        },
                    ),
                    error,
                )
            },
        }
    }
}

/// The fields of an authorization request, by their names.
proof fn lemma_authorization_fields(
    client_id: Seq<char>,
    redirect_uri: Seq<char>,
    code_challenge: Seq<char>,
    state: Seq<char>,
)
    ensures
        ({
            let fields = authorization_fields(client_id, redirect_uri, code_challenge, state);
            &&& field_value(fields, "redirect_uri"@) == Some(redirect_uri)
            &&& field_value(fields, "code_challenge"@) == Some(code_challenge)
            &&& field_value(fields, "code_challenge_method"@) == Some("S256"@)
            &&& field_value(fields, "state"@) == Some(state)
            &&& field_value(fields, "code_verifier"@) is None
        }),
{
    let fields = authorization_fields(client_id, redirect_uri, code_challenge, state);
    reveal_strlit("response_type");
    reveal_strlit("client_id");
    reveal_strlit("redirect_uri");
    reveal_strlit("scope");
    reveal_strlit("code_challenge");
    reveal_strlit("code_challenge_method");
    reveal_strlit("id_token_add_organizations");
    reveal_strlit("codex_cli_simplified_flow");
    reveal_strlit("state");
    reveal_strlit("originator");
    reveal_strlit("code_verifier");
    assert(fields[0].0 == "response_type"@ && fields[1].0.len() == 9);
    assert(fields[2].0.len() == 12 && fields[3].0.len() == 5 && fields[4].0.len() == 14);
    assert(fields[5].0.len() == 21 && fields[6].0.len() == 26 && fields[7].0.len() == 25);
    assert(fields[8].0.len() == 5 && fields[9].0.len() == 10);
    assert("scope"@[1] != "state"@[1]);
    assert("response_type"@[0] != "code_verifier"@[0]);
    lemma_field_at(fields, 2);
    lemma_field_at(fields, 4);
    lemma_field_at(fields, 5);
    lemma_field_at(fields, 8);
    lemma_no_field(fields, "code_verifier"@);
}

/// A login after some events, each with the state of the control at that time.
#[verifier::opaque]
pub open spec fn run_after(start: LoginRun, events: Seq<(LoginEvent, ControlState)>) -> LoginRun
    decreases events.len(),
{
    if events.len() == 0 {
        start
    } else {
        run_after(start, events.drop_last()).after(events.last().0, events.last().1)
    }
}

/// Every event answers what was asked before it, from the lock on.
pub open spec fn is_course(start: LoginRun, events: Seq<(LoginEvent, ControlState)>) -> bool {
    &&& start.is_new()
    &&& start.wf()
    &&& forall|i: int|
        0 <= i < events.len() ==> run_after(start, events.take(i)).fits(#[trigger] events[i].0)
}

/// What is done after the event at `i`.
#[verifier::opaque]
pub open spec fn task_at(start: LoginRun, events: Seq<(LoginEvent, ControlState)>, i: int) -> Task {
    run_after(start, events.take(i)).action(events[i].0, events[i].1).task
}

pub open spec fn phase_rank(phase: LoginPhase) -> nat {
    match phase {
        LoginPhase::Locking => 0,
        LoginPhase::Binding => 1,
        LoginPhase::Preparing => 2,
        LoginPhase::Opening => 3,
        LoginPhase::Waiting => 4,
        LoginPhase::Reading => 4,
        LoginPhase::Exchanging => 5,
        LoginPhase::Committing => 6,
        LoginPhase::Done => 7,
    }
}

/// What `later` keeps of an earlier state: what it was started with, and the port and the
/// request once they are known.
pub open spec fn keeps(earlier: LoginRun, later: LoginRun) -> bool {
    &&& later.style == earlier.style
    &&& later.issuer == earlier.issuer
    &&& later.client_id == earlier.client_id
    &&& later.ports == earlier.ports
    &&& later.deadline == earlier.deadline
    &&& earlier.port is Some ==> later.port == earlier.port
    &&& earlier.request is Some ==> later.request == earlier.request
    &&& phase_rank(earlier.phase) <= phase_rank(later.phase)
}

/// What the request of a run is bound by does not depend on where the run stands.
proof fn lemma_still_bound(run: LoginRun, next: LoginRun, request: LoginRequest, port: u16)
    requires
        run.is_bound_by(request, port),
        next.issuer == run.issuer,
        next.client_id == run.client_id,
    ensures
        next.is_bound_by(request, port),
{
    reveal(LoginRun::is_bound_by);
}

/// What one step of a login does: how its phase and its task belong together.
pub open spec fn is_step(run: LoginRun, event: LoginEvent, task: Task, next: LoginRun) -> bool {
    &&& next.wf()
    &&& keeps(run, next)
    &&& task is Open <==> next.phase is Opening
    &&& task is Open ==> run.phase is Preparing
    &&& task matches Task::Open { url, deadline } ==> next.request matches Some(request) && url
        == request.authorization_url@ && deadline == run.deadline
    &&& task is Exchange <==> next.phase is Exchanging
    &&& task is Exchange ==> run.phase is Reading
    &&& task matches Task::Exchange { code, redirect_uri, verifier, deadline } ==> {
        &&& run.request matches Some(request)
        &&& redirect_uri == request.redirect_uri@
        &&& verifier == request.verifier@
        &&& deadline == run.deadline
        &&& run.is_called_back(Callback::Code(code))
    }
    &&& task is Commit <==> next.phase is Committing
    &&& task is Commit ==> run.phase is Exchanging && (event matches LoginEvent::Exchanged(
        Ok(_),
    ))
    &&& task is Finish <==> next.phase is Done
    &&& task matches Task::Finish(Ok(_)) ==> run.phase is Committing && (event matches
        LoginEvent::Committed(Ok(_)))
    &&& !(run.phase is Done)
    &&& run.port is None && next.port is Some ==> event == LoginEvent::Bound(next.port->Some_0)
    &&& next.requests == run.requests + (if task is Read {
        1int
    } else {
        0int
    })
}

proof fn lemma_step(run: LoginRun, event: LoginEvent, control: ControlState)
    requires
        run.wf(),
        run.fits(event),
    ensures
        is_step(run, event, run.action(event, control).task, run.after(event, control)),
        run.style is Cancellable && !(control is Running) ==> !(run.action(event, control).task
            is Commit),
{
    let next = run.after(event, control);
    assert(run.ports@.len() == run.ports.len());
    if event is Prepared && event->Prepared_0 is Ok {
        lemma_still_bound(run, next, event->Prepared_0->Ok_0, run.port->Some_0);
    } else if run.request is Some {
        lemma_still_bound(run, next, run.request->Some_0, run.port->Some_0);
    }
}

proof fn lemma_run_after(start: LoginRun, events: Seq<(LoginEvent, ControlState)>, n: int)
    requires
        0 < n <= events.len(),
    ensures
        run_after(start, events.take(n)) == run_after(start, events.take(n - 1)).after(
            events[n - 1].0,
            events[n - 1].1,
        ),
{
    reveal_with_fuel(run_after, 2);
    assert(events.take(n).drop_last() =~= events.take(n - 1));
    assert(events.take(n).last() == events[n - 1]);
}

proof fn lemma_start(start: LoginRun, events: Seq<(LoginEvent, ControlState)>)
    ensures
        run_after(start, events.take(0)) == start,
{
    reveal_with_fuel(run_after, 1);
    assert(events.take(0) =~= Seq::empty());
}

proof fn lemma_course(start: LoginRun, events: Seq<(LoginEvent, ControlState)>, i: int, j: int)
    requires
        is_course(start, events),
        0 <= i <= j <= events.len(),
    ensures
        keeps(run_after(start, events.take(i)), run_after(start, events.take(j))),
        run_after(start, events.take(j)).wf(),
    decreases j,
{
    if j > 0 {
        let k = if i < j {
            i
        } else {
            j - 1
        };
        lemma_course(start, events, k, j - 1);
        lemma_run_after(start, events, j);
        let run = run_after(start, events.take(j - 1));
        assert(run.fits(events[j - 1].0));
        lemma_step(run, events[j - 1].0, events[j - 1].1);
    } else {
        lemma_start(start, events);
    }
}

/// The facts of [`lemma_step`] at one place of a course.
proof fn lemma_at(start: LoginRun, events: Seq<(LoginEvent, ControlState)>, i: int)
    requires
        is_course(start, events),
        0 <= i < events.len(),
    ensures
        run_after(start, events.take(i)).wf(),
        is_step(
            run_after(start, events.take(i)),
            events[i].0,
            task_at(start, events, i),
            run_after(start, events.take(i + 1)),
        ),
        run_after(start, events.take(i)).style is Cancellable && !(events[i].1 is Running) ==> !(
        task_at(start, events, i) is Commit),
{
    reveal(task_at);
    lemma_course(start, events, i, i);
    lemma_run_after(start, events, i + 1);
    assert(run_after(start, events.take(i)).fits(events[i].0));
    lemma_step(run_after(start, events.take(i)), events[i].0, events[i].1);
}

/// A port that is known was bound before.
proof fn lemma_port_was_bound(start: LoginRun, events: Seq<(LoginEvent, ControlState)>, n: int)
    requires
        is_course(start, events),
        0 <= n <= events.len(),
        run_after(start, events.take(n)).port is Some,
    ensures
        exists|j: int|
            0 <= j < n && #[trigger] events[j].0 == LoginEvent::Bound(
                run_after(start, events.take(n)).port->Some_0,
            ),
    decreases n,
{
    lemma_start(start, events);
    if n > 0 {
        lemma_at(start, events, n - 1);
        if run_after(start, events.take(n - 1)).port is Some {
            lemma_course(start, events, n - 1, n);
            lemma_port_was_bound(start, events, n - 1);
        } else {
            assert(events[n - 1].0 is Bound);
        }
    }
}

/// The browser is opened once at most, and only after a callback port was bound.
pub proof fn law_browser_opens_only_at_a_bound_port(
    start: LoginRun,
    events: Seq<(LoginEvent, ControlState)>,
    i: int,
    k: int,
)
    requires
        is_course(start, events),
        0 <= i < events.len(),
        0 <= k < events.len(),
    ensures
        task_at(start, events, i) is Open ==> exists|j: int|
            0 <= j < i && #[trigger] events[j].0 is Bound,
        task_at(start, events, i) is Open && task_at(start, events, k) is Open ==> i == k,
{
    lemma_at(start, events, i);
    lemma_at(start, events, k);
    if task_at(start, events, i) is Open {
        lemma_port_was_bound(start, events, i);
        if task_at(start, events, k) is Open {
            if i < k {
                lemma_course(start, events, i + 1, k);
            } else if k < i {
                lemma_course(start, events, k + 1, i);
            }
        }
    }
}

/// After the lock, and `n` ports that could not be had.
proof fn lemma_refused(start: LoginRun, events: Seq<(LoginEvent, ControlState)>, n: int)
    requires
        start.is_new(),
        start.wf(),
        0 < n <= events.len() <= start.ports@.len() + 1,
        events[0].0 matches LoginEvent::Locked(Ok(_)),
        forall|i: int| 0 < i < events.len() ==> #[trigger] events[i].0 is BindRefused,
    ensures
        run_after(start, events.take(n)) == (LoginRun {
            phase: if n <= start.ports@.len() {
                LoginPhase::Binding
            } else {
                LoginPhase::Done
            },
            refused: (n - 1) as usize,
            ..start
        }),
    decreases n,
{
    lemma_start(start, events);
    lemma_run_after(start, events, n);
    assert(start.ports@.len() == start.ports.len());
    if n > 1 {
        lemma_refused(start, events, n - 1);
        assert(events[n - 1].0 is BindRefused);
    }
}

/// Where every port is refused, the login ends with that error, and the browser is never
/// opened.
pub proof fn law_no_port_no_page(start: LoginRun, events: Seq<(LoginEvent, ControlState)>)
    requires
        start.is_new(),
        start.wf(),
        events.len() == start.ports@.len() + 1,
        events[0].0 matches LoginEvent::Locked(Ok(_)),
        forall|i: int| 0 < i < events.len() ==> #[trigger] events[i].0 is BindRefused,
    ensures
        is_course(start, events),
        forall|i: int| 0 <= i < events.len() ==> !(#[trigger] task_at(start, events, i) is Open),
        task_at(start, events, events.len() - 1) == failed(start.style.no_port()),
        start.style.no_port().code == OAuthErrorCode::CallbackUnavailable,
{
    lemma_start(start, events);
    assert forall|i: int| 0 <= i < events.len() implies run_after(start, events.take(i)).fits(
        #[trigger] events[i].0,
    ) by {
        if i > 0 {
            lemma_refused(start, events, i);
        }
    }
    let last = events.len() - 1;
    if last > 0 {
        lemma_refused(start, events, last);
    }
    assert(task_at(start, events, last) == failed(start.style.no_port())) by {
        reveal(task_at);
        assert(start.ports@.len() == start.ports.len());
    }
    assert forall|i: int| 0 <= i < events.len() implies !(#[trigger] task_at(
        start,
        events,
        i,
    ) is Open) by {
        law_browser_opens_only_at_a_bound_port(start, events, i, i);
    }
}

/// `url` is the page on which the user of `run` signs in. It ends with fields that hold the
/// challenge of `verifier` by the method S256, but not the verifier; `redirect_uri`, which
/// is the callback page at `port`; and `state`.
pub open spec fn shows(
    run: LoginRun,
    port: u16,
    url: Seq<char>,
    redirect_uri: Seq<char>,
    verifier: Seq<char>,
    state: Seq<char>,
) -> bool {
    let challenge = base64url_of(sha256_of(encode_utf8(verifier)));
    let query = form_text(authorization_fields(run.client_id@, redirect_uri, challenge, state));
    let shown = form_fields(encode_utf8(query));
    &&& url_at_path(run.issuer@, "/oauth/authorize"@) matches Some(page)
    &&& url == page + "?"@ + query
    &&& field_value(shown, "code_challenge"@) == Some(challenge)
    &&& field_value(shown, "code_challenge_method"@) == Some("S256"@)
    &&& field_value(shown, "code_verifier"@) is None
    &&& field_value(shown, "redirect_uri"@) == Some(redirect_uri)
    &&& field_value(shown, "state"@) == Some(state)
    &&& redirect_uri == "http://localhost:"@ + decimal(port as nat) + "/auth/callback"@
}

/// A request with this head brings `code` to the callback page, and `state` with it.
pub open spec fn brings(head: Seq<u8>, code: Seq<char>, state: Seq<char>) -> bool {
    &&& request_target(split_by(decode_utf8(head), "\r\n"@)[0]) matches Some(target)
    &&& path_and_query(target).0 == "/auth/callback"@
    &&& ({
        let back = form_fields(encode_utf8(path_and_query(target).1));
        &&& field_value(back, "state"@) == Some(state)
        &&& field_value(back, "code"@) == Some(code)
    })
}

proof fn lemma_bound_request(run: LoginRun)
    requires
        run.wf(),
        run.request is Some,
    ensures
        ({
            let request = run.request->Some_0;
            shows(
                run,
                run.port->Some_0,
                request.authorization_url@,
                request.redirect_uri@,
                request.verifier@,
                request.state@,
            )
        }),
{
    reveal(LoginRun::is_bound_by);
    let request = run.request->Some_0;
    let port = run.port->Some_0;
    let codes = choose|codes: PkceCodes|
        codes.is_bound() && #[trigger] request.is_for(
            run.issuer@,
            run.client_id@,
            port,
            codes,
            request.state@,
        );
    lemma_authorization_fields(
        run.client_id@,
        request.redirect_uri@,
        codes.challenge@,
        request.state@,
    );
}

proof fn lemma_called_back(run: LoginRun, code: Seq<char>)
    requires
        run.is_called_back(Callback::Code(code)),
    ensures
        exists|head: Seq<u8>| #[trigger] brings(head, code, run.request->Some_0.state@),
{
    reveal(LoginRun::is_called_back);
    let state = run.request->Some_0.state@;
    let head = choose|head: Seq<u8>| #[trigger]
        callback_outcome(head, run.port->Some_0, state, run.invalid_text()) == Ok::<
            Callback,
            FlowError,
        >(Callback::Code(code));
    assert(brings(head, code, state));
}

/// A login is bound to one browser and one verifier: the URL that is shown carries the
/// challenge of the verifier that is sent, the redirect address that is sent and a state;
/// the code that is sent was brought with that state. Both have the same time limit.
pub proof fn law_login_is_bound(
    start: LoginRun,
    events: Seq<(LoginEvent, ControlState)>,
    i: int,
    j: int,
)
    requires
        is_course(start, events),
        0 <= i < events.len(),
        0 <= j < events.len(),
        task_at(start, events, i) is Open,
        task_at(start, events, j) is Exchange,
    ensures
        i < j,
        match (task_at(start, events, i), task_at(start, events, j)) {
            (
                Task::Open { url, deadline },
                Task::Exchange { code, redirect_uri, verifier, deadline: limit },
            ) => {
                let run = run_after(start, events.take(j));
                let state = run.request->Some_0.state@;
                &&& deadline == start.deadline && limit == start.deadline
                &&& shows(start, run.port->Some_0, url, redirect_uri, verifier, state)
                &&& exists|k: int|
                    0 <= k < i && #[trigger] events[k].0 == LoginEvent::Bound(run.port->Some_0)
                &&& exists|head: Seq<u8>| #[trigger] brings(head, code, state)
            },
            _ => false,
        },
{
    lemma_at(start, events, i);
    lemma_at(start, events, j);
    lemma_start(start, events);
    if j <= i {
        lemma_course(start, events, j, i);
    }
    lemma_course(start, events, 0, i);
    lemma_course(start, events, i, i + 1);
    lemma_course(start, events, i + 1, j);
    lemma_port_was_bound(start, events, i);
    let run = run_after(start, events.take(j));
    lemma_bound_request(run);
    let code = task_at(start, events, j)->code;
    lemma_called_back(run, code);
}

/// A login trades one authorization code, whatever the browser sends.
pub proof fn law_one_exchange_per_login(
    start: LoginRun,
    events: Seq<(LoginEvent, ControlState)>,
    i: int,
    j: int,
)
    requires
        is_course(start, events),
        0 <= i < events.len(),
        0 <= j < events.len(),
        task_at(start, events, i) is Exchange,
        task_at(start, events, j) is Exchange,
    ensures
        i == j,
{
    lemma_at(start, events, i);
    lemma_at(start, events, j);
    if i < j {
        lemma_course(start, events, i + 1, j);
    } else if j < i {
        lemma_course(start, events, j + 1, i);
    }
}

/// Credentials are stored only where a code was traded for them just before.
pub proof fn law_commit_follows_exchange(
    start: LoginRun,
    events: Seq<(LoginEvent, ControlState)>,
    i: int,
)
    requires
        is_course(start, events),
        0 <= i < events.len(),
        task_at(start, events, i) is Commit,
    ensures
        events[i].0 matches LoginEvent::Exchanged(Ok(_)),
        i > 0 && task_at(start, events, i - 1) is Exchange,
{
    lemma_start(start, events);
    lemma_at(start, events, i);
    lemma_at(start, events, i - 1);
}

/// A login succeeds only where the credential store took the tokens.
pub proof fn law_success_follows_commit(
    start: LoginRun,
    events: Seq<(LoginEvent, ControlState)>,
    i: int,
)
    requires
        is_course(start, events),
        0 <= i < events.len(),
        task_at(start, events, i) matches Task::Finish(Ok(_)),
    ensures
        events[i].0 matches LoginEvent::Committed(Ok(_)),
        i > 0 && task_at(start, events, i - 1) is Commit,
{
    lemma_start(start, events);
    lemma_at(start, events, i);
    lemma_at(start, events, i - 1);
}

/// Nothing is asked of a login once it is done.
pub proof fn law_done_is_final(
    start: LoginRun,
    events: Seq<(LoginEvent, ControlState)>,
    i: int,
)
    requires
        is_course(start, events),
        0 <= i < events.len(),
        task_at(start, events, i) is Finish,
    ensures
        i == events.len() - 1,
{
    lemma_at(start, events, i);
    if i + 1 < events.len() {
        lemma_at(start, events, i + 1);
    }
}

/// How many of the first `n` events let a request in to be read.
pub open spec fn reads(start: LoginRun, events: Seq<(LoginEvent, ControlState)>, n: int) -> nat
    decreases n,
{
    if n <= 0 {
        0
    } else {
        reads(start, events, n - 1) + (if task_at(start, events, n - 1) is Read {
            1nat
        } else {
            0nat
        })
    }
}

/// No login reads more than 64 requests.
pub proof fn law_requests_are_bounded(
    start: LoginRun,
    events: Seq<(LoginEvent, ControlState)>,
    n: int,
)
    requires
        is_course(start, events),
        0 <= n <= events.len(),
    ensures
        reads(start, events, n) == run_after(start, events.take(n)).requests,
        reads(start, events, n) <= MAX_CALLBACK_REQUESTS,
    decreases n,
{
    lemma_start(start, events);
    if n > 0 {
        law_requests_are_bounded(start, events, n - 1);
        lemma_at(start, events, n - 1);
    }
}

/// Once a login was cancelled, it does not store credentials.
pub proof fn law_cancelled_login_stores_nothing(
    start: LoginRun,
    events: Seq<(LoginEvent, ControlState)>,
    i: int,
)
    requires
        is_course(start, events),
        start.style is Cancellable,
        0 <= i < events.len(),
        !(events[i].1 is Running),
    ensures
        !(task_at(start, events, i) is Commit),
{
    lemma_start(start, events);
    lemma_course(start, events, 0, i);
    lemma_at(start, events, i);
}

/// What is reported after the event at `i`.
#[verifier::opaque]
pub open spec fn progress_at(
    start: LoginRun,
    events: Seq<(LoginEvent, ControlState)>,
    i: int,
) -> Option<LoginProgress> {
    run_after(start, events.take(i)).action(events[i].0, events[i].1).progress
}

/// How the reports of a login that can be cancelled belong to its steps.
proof fn lemma_reported(start: LoginRun, events: Seq<(LoginEvent, ControlState)>, i: int)
    requires
        is_course(start, events),
        start.style is Cancellable,
        0 <= i < events.len(),
    ensures
        progress_at(start, events, i) == Some(LoginProgress::Waiting) <==> run_after(
            start,
            events.take(i),
        ).phase is Opening && run_after(start, events.take(i + 1)).phase is Waiting,
        progress_at(start, events, i) == Some(LoginProgress::Exchanging) <==> task_at(
            start,
            events,
            i,
        ) is Exchange,
        progress_at(start, events, i) == Some(LoginProgress::Committing) <==> task_at(
            start,
            events,
            i,
        ) is Commit,
        run_after(start, events.take(i)).phase is Waiting || run_after(
            start,
            events.take(i + 1),
        ).phase is Waiting ==> 3 <= phase_rank(run_after(start, events.take(i)).phase) <= 4,
        run_after(start, events.take(i + 1)).phase is Reading ==> run_after(
            start,
            events.take(i),
        ).phase is Waiting,
{
    reveal(progress_at);
    reveal(task_at);
    lemma_start(start, events);
    lemma_course(start, events, 0, i);
    lemma_run_after(start, events, i + 1);
    assert(run_after(start, events.take(i)).fits(events[i].0));
}

proof fn lemma_wait_was_reported(
    start: LoginRun,
    events: Seq<(LoginEvent, ControlState)>,
    n: int,
)
    requires
        is_course(start, events),
        start.style is Cancellable,
        0 <= n <= events.len(),
        run_after(start, events.take(n)).phase is Waiting || run_after(
            start,
            events.take(n),
        ).phase is Reading,
    ensures
        exists|k: int|
            0 <= k < n && #[trigger] progress_at(start, events, k) == Some(LoginProgress::Waiting),
    decreases n,
{
    lemma_start(start, events);
    lemma_reported(start, events, n - 1);
    if !(progress_at(start, events, n - 1) == Some(LoginProgress::Waiting)) {
        lemma_wait_was_reported(start, events, n - 1);
    }
}

/// A login that can be cancelled reports that it waits, that it trades a code and that it
/// stores credentials, in this order and each once at most; all three where it succeeds.
pub proof fn law_progress_is_in_order(
    start: LoginRun,
    events: Seq<(LoginEvent, ControlState)>,
    i: int,
    j: int,
)
    requires
        is_course(start, events),
        start.style is Cancellable,
        0 <= i < events.len(),
        0 <= j < events.len(),
    ensures
        progress_at(start, events, i) is Some && progress_at(start, events, i) == progress_at(
            start,
            events,
            j,
        ) ==> i == j,
        progress_at(start, events, i) == Some(LoginProgress::Exchanging) ==> exists|k: int|
            0 <= k < i && #[trigger] progress_at(start, events, k) == Some(LoginProgress::Waiting),
        progress_at(start, events, i) == Some(LoginProgress::Committing) ==> i > 0 && progress_at(
            start,
            events,
            i - 1,
        ) == Some(LoginProgress::Exchanging),
        task_at(start, events, i) matches Task::Finish(Ok(_)) ==> i > 0 && progress_at(
            start,
            events,
            i - 1,
        ) == Some(LoginProgress::Committing),
{
    lemma_at(start, events, i);
    lemma_at(start, events, j);
    lemma_reported(start, events, i);
    lemma_reported(start, events, j);
    if i < j {
        lemma_course(start, events, i + 1, j);
    } else if j < i {
        lemma_course(start, events, j + 1, i);
    }
    match progress_at(start, events, i) {
        Some(LoginProgress::Waiting) => {
            assert(progress_at(start, events, j) == Some(LoginProgress::Waiting) ==> i == j);
        },
        Some(LoginProgress::Exchanging) => {
            assert(progress_at(start, events, j) == Some(LoginProgress::Exchanging) ==> i == j);
        },
        Some(LoginProgress::Committing) => {
            assert(progress_at(start, events, j) == Some(LoginProgress::Committing) ==> i == j);
        },
        None => {},
    }
    if task_at(start, events, i) is Exchange {
        lemma_wait_was_reported(start, events, i);
    } else if task_at(start, events, i) is Commit {
        law_commit_follows_exchange(start, events, i);
        lemma_reported(start, events, i - 1);
    } else if task_at(start, events, i) matches Task::Finish(Ok(_)) {
        law_success_follows_commit(start, events, i);
        lemma_reported(start, events, i - 1);
    }
}

} // verus!
