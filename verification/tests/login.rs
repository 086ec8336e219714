//! Browser logins from the first page to the stored credentials.

use base64::Engine;
use csswitch_gateway::codex_auth::callback::{
    parse_callback, parse_callback_head, MAX_CALLBACK_REQUESTS,
};
use csswitch_gateway::codex_auth::login::{
    LoginAction, LoginDeadline, LoginEvent, LoginPhase, LoginRequest, LoginRun, LoginStyle,
    LoginTask,
};
use csswitch_gateway::codex_auth::login_async::{
    send_request, token_endpoint, validate_headless_callback_port, AsyncLoginOptions,
    CancelDisposition, LoginControl, LoginProgress, ReadEvent, ReadProgress, ReplyReader,
    ResponseData, SendEvent,
};
use csswitch_gateway::codex_auth::oauth::{
    build_authorization_url, BrowserOpener, HttpOAuthTransport, OAuthErrorCode, OAuthFlowError,
    OAuthTransport, PkceCodes, ReplyHead, RequestFailure, CALLBACK_PATH, CODEX_OAUTH_CLIENT_ID,
    CODEX_OAUTH_ISSUER, CODEX_OAUTH_ORIGINATOR, CODEX_OAUTH_SCOPE,
};
use csswitch_gateway::codex_auth::run_production_login;
use csswitch_gateway::codex_auth::storage::{
    AuthStatus, AuthStatusReason, NewOAuthTokens, StorageError,
};
use csswitch_gateway::duration::Duration;
use sha2::{Digest, Sha256};
use std::cell::{Cell, RefCell};
use std::collections::HashMap;

const PORT: u16 = 1455;

fn status(authenticated: bool, generation: u64) -> AuthStatus {
    AuthStatus {
        authenticated,
        reason: if authenticated { AuthStatusReason::Ready } else { AuthStatusReason::StateMissing },
        account_hash: None,
        expires_at: None,
        auth_epoch: None,
        auth_generation: generation,
    }
}

fn tokens() -> NewOAuthTokens {
    NewOAuthTokens {
        access_token: "access-test".into(),
        refresh_token: "refresh-test".into(),
        id_token: "id-test".into(),
        account_id: "acct-test".into(),
        expires_at: Some(2_000_000_000),
    }
}

fn request_for(issuer: &str, client_id: &str, port: u16) -> LoginRequest {
    let codes = PkceCodes::from_random(&[7; 64]);
    LoginRequest::new(issuer, client_id, port, codes, "expected-state".into()).ok().unwrap()
}

fn request() -> LoginRequest {
    request_for("http://127.0.0.1:9", "client-test", PORT)
}

fn callback(query: &str, host: &str) -> Vec<u8> {
    format!("GET {CALLBACK_PATH}?{query} HTTP/1.1\r\nHost: {host}\r\nConnection: close\r\n\r\n")
        .into_bytes()
}

struct Browser(Result<(), OAuthFlowError>);

impl BrowserOpener for Browser {
    fn open(&self, authorization_url: &str, _time_left: Duration) -> Result<(), OAuthFlowError> {
        let parsed = url::Url::parse(authorization_url).unwrap();
        let params: HashMap<_, _> = parsed.query_pairs().into_owned().collect();
        assert_eq!(params.get("scope").unwrap(), CODEX_OAUTH_SCOPE);
        assert_eq!(params.get("code_challenge_method").unwrap(), "S256");
        assert_eq!(params.get("originator").unwrap(), CODEX_OAUTH_ORIGINATOR);
        assert!(!params.contains_key("code_verifier"));
        self.0.clone()
    }
}

struct CountingTransport {
    calls: Cell<usize>,
}

impl OAuthTransport for CountingTransport {
    fn exchange_code(
        &self,
        _code: &str,
        redirect_uri: &str,
        code_verifier: &str,
        _time_left: Duration,
    ) -> Result<NewOAuthTokens, OAuthFlowError> {
        self.calls.set(self.calls.get() + 1);
        assert_eq!(redirect_uri, format!("http://localhost:{PORT}{CALLBACK_PATH}"));
        assert!(code_verifier.len() >= 43);
        Ok(tokens())
    }
}

struct NeverTransport;

impl OAuthTransport for NeverTransport {
    fn exchange_code(
        &self,
        _code: &str,
        _redirect_uri: &str,
        _code_verifier: &str,
        _time_left: Duration,
    ) -> Result<NewOAuthTokens, OAuthFlowError> {
        panic!("transport must not be called")
    }
}

/// Everything that a login did.
struct Course {
    pages: Vec<u16>,
    progress: Vec<LoginProgress>,
    commits: usize,
    result: Result<AuthStatus, OAuthFlowError>,
}

/// A login that nothing was done of yet.
fn new_run(style: LoginStyle, ports: Vec<u16>) -> LoginRun {
    LoginRun::new(
        style,
        "http://127.0.0.1:9".into(),
        "client-test".into(),
        ports,
        Duration::from_secs(2),
    )
}

/// A login that waits for a callback.
fn opened_run(style: LoginStyle, control: &mut LoginControl) -> LoginRun {
    let mut run = new_run(style, vec![PORT]);
    run.step(LoginEvent::Locked(Ok(())), control);
    run.step(LoginEvent::Bound(PORT), control);
    run.step(LoginEvent::Prepared(Ok(request())), control);
    run.step(LoginEvent::Opened(Ok(())), control);
    run
}

/// Runs a login whose browser sends these callbacks, and then nothing more. `free` tells
/// which ports can be had.
fn run_course<B: BrowserOpener, T: OAuthTransport>(
    mut run: LoginRun,
    free: impl Fn(u16) -> bool,
    browser: &B,
    transport: &T,
    callbacks: &[Vec<u8>],
    control: &mut LoginControl,
) -> Course {
    let mut waiting = callbacks.iter();
    let mut course =
        Course { pages: Vec::new(), progress: Vec::new(), commits: 0, result: Ok(status(false, 0)) };
    let mut action: LoginAction = run.begin();
    let mut current: &[u8] = &[];
    loop {
        course.pages.extend(action.page.iter().map(|page| page.status));
        course.progress.extend(action.progress);
        let event = match action.task {
            LoginTask::Lock => LoginEvent::Locked(Ok(())),
            LoginTask::Bind(port) if free(port) => LoginEvent::Bound(port),
            LoginTask::Bind(_) => LoginEvent::BindRefused,
            LoginTask::Prepare(port) => {
                LoginEvent::Prepared(Ok(request_for(&run.issuer, &run.client_id, port)))
            }
            LoginTask::Open { url, deadline } => {
                LoginEvent::Opened(browser.open(&url, deadline.time_left(Duration::from_millis(0))))
            }
            LoginTask::Accept => match waiting.next() {
                Some(head) => {
                    current = head;
                    LoginEvent::Accepted
                }
                None => LoginEvent::Deadline,
            },
            LoginTask::Read => {
                let state = run.request.as_ref().unwrap().state.as_str();
                LoginEvent::Callback(match run.style {
                    LoginStyle::Blocking => parse_callback(current, PORT, state),
                    LoginStyle::Cancellable => parse_callback_head(current, PORT, state),
                })
            }
            LoginTask::Exchange { code, redirect_uri, verifier, deadline } => {
                let left = deadline.time_left(Duration::from_millis(500));
                let tokens = transport.exchange_code(&code, &redirect_uri, &verifier, left);
                LoginEvent::Exchanged(tokens)
            }
            LoginTask::Commit(_) => {
                course.commits += 1;
                LoginEvent::Committed(Ok(status(true, 1)))
            }
            LoginTask::Finish(result) => {
                assert_eq!(run.phase, LoginPhase::Done);
                course.result = result;
                return course;
            }
        };
        action = run.step(event, control);
    }
}

fn run_login<T: OAuthTransport>(
    style: LoginStyle,
    browser: &Browser,
    transport: &T,
    callbacks: &[Vec<u8>],
    control: &mut LoginControl,
) -> Course {
    let run = new_run(style, vec![PORT]);
    run_course(run, |_| true, browser, transport, callbacks, control)
}

#[test]
fn full_login_uses_pkce_local_oauth_and_commits_only_after_callback() {
    let transport = CountingTransport { calls: Cell::new(0) };
    let course = run_login(
        LoginStyle::Blocking,
        &Browser(Ok(())),
        &transport,
        &[callback("code=authorization-code&state=expected-state", "localhost:1455")],
        &mut LoginControl::default(),
    );
    let status = course.result.unwrap();
    assert!(status.authenticated);
    assert_eq!(status.auth_generation, 1);
    assert_eq!(course.pages, [200]);
    assert_eq!(course.commits, 1);
    assert!(course.progress.is_empty());
}

#[test]
fn wrong_state_and_wrong_host_are_rejected_before_valid_callback() {
    let transport = CountingTransport { calls: Cell::new(0) };
    let course = run_login(
        LoginStyle::Blocking,
        &Browser(Ok(())),
        &transport,
        &[
            callback("code=bad&state=wrong", "localhost:1455"),
            callback("code=bad&state=expected-state", "example.com"),
            callback("code=good&state=expected-state", "localhost:1455"),
        ],
        &mut LoginControl::default(),
    );
    assert_eq!(course.pages, [400, 400, 200]);
    assert!(course.result.unwrap().authenticated);
}

#[test]
fn first_valid_callback_is_the_only_terminal_exchange() {
    let transport = CountingTransport { calls: Cell::new(0) };
    let course = run_login(
        LoginStyle::Blocking,
        &Browser(Ok(())),
        &transport,
        &[
            callback("code=first&state=expected-state", "localhost:1455"),
            callback("code=second&state=expected-state", "localhost:1455"),
        ],
        &mut LoginControl::default(),
    );
    let status = course.result.unwrap();
    assert!(status.authenticated);
    assert_eq!(status.auth_generation, 1);
    assert_eq!(transport.calls.get(), 1);
    assert_eq!(course.commits, 1);
}

#[test]
fn browser_failure_and_timeout_never_commit_credentials() {
    let failing = Browser(Err(OAuthFlowError::new(
        OAuthErrorCode::BrowserOpenFailed,
        true,
        "browser failed",
    )));
    let course = run_login(
        LoginStyle::Blocking,
        &failing,
        &NeverTransport,
        &[],
        &mut LoginControl::default(),
    );
    assert_eq!(course.result.unwrap_err().code, OAuthErrorCode::BrowserOpenFailed);
    assert_eq!(course.commits, 0);

    let course = run_login(
        LoginStyle::Blocking,
        &Browser(Ok(())),
        &NeverTransport,
        &[],
        &mut LoginControl::default(),
    );
    assert_eq!(course.result.unwrap_err().code, OAuthErrorCode::CallbackTimeout);
    assert_eq!(course.commits, 0);
}

#[test]
fn matching_oauth_error_is_terminal_and_does_not_exchange() {
    let course = run_login(
        LoginStyle::Blocking,
        &Browser(Ok(())),
        &NeverTransport,
        &[callback(
            "error=access_denied&error_description=private-upstream-description&state=expected-state",
            "localhost:1455",
        )],
        &mut LoginControl::default(),
    );
    assert_eq!(course.pages, [400]);
    let error = course.result.unwrap_err();
    assert_eq!(error.code, OAuthErrorCode::OAuthDenied);
    assert!(!format!("{error:?} {}", error.to_text()).contains("private-upstream-description"));
    assert_eq!(course.commits, 0);
}

#[test]
fn callback_uses_second_candidate_when_first_is_occupied() {
    let ports = [1455, 1457];
    assert_eq!(LoginStyle::Blocking.bind_callback(&ports, 0), Ok(1455));
    assert_eq!(LoginStyle::Blocking.bind_callback(&ports, 1), Ok(1457));
    let error = LoginStyle::Cancellable.bind_callback(&ports, 2).unwrap_err();
    assert_eq!(error.code, OAuthErrorCode::CallbackUnavailable);
    assert_eq!(error.stage, "callback_wait");
    assert_eq!(LoginStyle::Blocking.callback_fault(true).stage, "token_exchange");
}

#[test]
fn more_than_64_invalid_callbacks_terminate_without_exchange() {
    let invalid = vec![
        callback("state=wrong&code=bad", "localhost:1455");
        MAX_CALLBACK_REQUESTS + 1
    ];
    let course = run_login(
        LoginStyle::Blocking,
        &Browser(Ok(())),
        &NeverTransport,
        &invalid,
        &mut LoginControl::default(),
    );
    assert_eq!(course.result.unwrap_err().code, OAuthErrorCode::OAuthProtocol);
    assert_eq!(course.pages, vec![400; MAX_CALLBACK_REQUESTS]);
    assert_eq!(course.commits, 0);
}

#[test]
fn requests_are_random_and_bound_to_their_port() {
    let first = LoginRequest::fresh(CODEX_OAUTH_ISSUER, CODEX_OAUTH_CLIENT_ID, 1457).ok().unwrap();
    let second = LoginRequest::fresh(CODEX_OAUTH_ISSUER, CODEX_OAUTH_CLIENT_ID, 1457).ok().unwrap();
    assert_eq!(first.redirect_uri, "http://localhost:1457/auth/callback");
    assert_ne!(first.state, second.state);
    assert_ne!(first.verifier, second.verifier);
    assert!(!first.authorization_url.contains(&first.verifier));
    assert!(LoginRequest::fresh("no url", "client", 1).is_err());
}

#[test]
fn async_browser_flow_rejects_bad_host_and_state_then_exchanges_and_commits() {
    let transport = CountingTransport { calls: Cell::new(0) };
    let course = run_login(
        LoginStyle::Cancellable,
        &Browser(Ok(())),
        &transport,
        &[
            callback("code=authorization-code&state=expected-state", "attacker.invalid"),
            callback("code=authorization-code&state=wrong-state", "localhost:1455"),
            callback("code=authorization-code&state=expected-state", "localhost:1455"),
        ],
        &mut LoginControl::default(),
    );
    assert_eq!(course.pages, [400, 400, 200]);
    let status = course.result.unwrap();
    assert!(status.authenticated);
    assert_eq!(status.auth_generation, 1);
    assert_eq!(
        course.progress,
        [LoginProgress::Waiting, LoginProgress::Exchanging, LoginProgress::Committing]
    );
}

#[test]
fn async_browser_denial_and_timeout_never_commit() {
    let course = run_login(
        LoginStyle::Cancellable,
        &Browser(Ok(())),
        &NeverTransport,
        &[callback("error=access_denied&state=expected-state", "localhost:1455")],
        &mut LoginControl::default(),
    );
    assert_eq!(course.pages, [400]);
    assert_eq!(course.result.unwrap_err().code, OAuthErrorCode::OAuthDenied);
    assert_eq!(course.commits, 0);

    let course = run_login(
        LoginStyle::Cancellable,
        &Browser(Ok(())),
        &NeverTransport,
        &[],
        &mut LoginControl::default(),
    );
    assert_eq!(course.result.unwrap_err().code, OAuthErrorCode::CallbackTimeout);
    assert_eq!(course.commits, 0);
}

#[test]
fn cancelled_login_stores_nothing() {
    let mut control = LoginControl::default();
    assert_eq!(control.cancel(), CancelDisposition::Accepted);
    let transport = CountingTransport { calls: Cell::new(0) };
    let course = run_login(
        LoginStyle::Cancellable,
        &Browser(Ok(())),
        &transport,
        &[callback("code=authorization-code&state=expected-state", "localhost:1455")],
        &mut control,
    );
    assert_eq!(course.result.unwrap_err().code, OAuthErrorCode::AuthCancelled);
    assert_eq!(course.commits, 0);
    assert_eq!(course.pages, [500]);

    let mut run = opened_run(LoginStyle::Cancellable, &mut control);
    let action = run.step(LoginEvent::Cancelled, &mut control);
    assert!(matches!(action.task, LoginTask::Finish(Err(error))
        if error.code == OAuthErrorCode::AuthCancelled && error.stage == "callback_wait"));
}

#[test]
fn failed_exchange_and_failed_commit_show_an_error_page() {
    for style in [LoginStyle::Blocking, LoginStyle::Cancellable] {
        let mut control = LoginControl::default();
        let mut run = opened_run(style, &mut control);
        run.step(LoginEvent::Accepted, &mut control);
        let code = parse_callback(
            &callback("code=c&state=expected-state", "localhost:1455"),
            PORT,
            "expected-state",
        );
        run.step(LoginEvent::Callback(code), &mut control);
        run.step(LoginEvent::Exchanged(Ok(tokens())), &mut control);
        let action = run.step(LoginEvent::Committed(Err(StorageError::Busy)), &mut control);
        assert_eq!(action.page.unwrap().status, 500);
        let LoginTask::Finish(Err(error)) = action.task else {
            panic!("a failed commit ends the login")
        };
        assert_eq!(error.code, OAuthErrorCode::AuthBusy);
        assert_eq!(
            error.stage,
            match style {
                LoginStyle::Blocking => "token_exchange",
                LoginStyle::Cancellable => "credential_commit",
            }
        );
    }
    let mut control = LoginControl::default();
    let mut run = opened_run(LoginStyle::Blocking, &mut control);
    let action = run.step(LoginEvent::AcceptFailed, &mut control);
    assert!(matches!(action.task, LoginTask::Finish(Err(error))
        if error.code == OAuthErrorCode::CallbackUnavailable));
}

#[test]
fn production_login_needs_a_transport() {
    let login = run_production_login(HttpOAuthTransport::production(false)).ok().unwrap();
    assert_eq!(login.run.issuer, CODEX_OAUTH_ISSUER);
    assert_eq!(login.run.ports, [1455, 1457]);
    assert_eq!(login.run.deadline.timeout, Duration::from_secs(300));
    assert_eq!(login.run.phase, LoginPhase::Locking);
    assert_eq!(login.run.style, LoginStyle::Blocking);
    let failed = run_production_login(Err(OAuthFlowError::protocol("no route")));
    assert_eq!(failed.err().unwrap().message, "no route");
}

#[test]
fn cancel_and_commit_use_one_atomic_barrier() {
    let mut cancel_first = LoginControl::default();
    assert_eq!(cancel_first.cancel(), CancelDisposition::Accepted);
    assert_eq!(
        cancel_first.begin_commit().unwrap_err().code,
        OAuthErrorCode::AuthCancelled
    );

    let mut commit_first = LoginControl::default();
    commit_first.begin_commit().unwrap();
    assert_eq!(commit_first.cancel(), CancelDisposition::CommitInProgress);
}

#[test]
fn finished_login_can_be_neither_cancelled_nor_committed() {
    let mut control = LoginControl::default();
    control.finish();
    assert_eq!(control.cancel(), CancelDisposition::AlreadyTerminal);
    assert_eq!(control.cancel().as_str(), "already_terminal");
    assert!(control.begin_commit().is_err());
    assert!(!control.is_cancelled());
    let mut committed = LoginControl::default();
    assert!(committed.begin_commit().is_ok());
    assert!(committed.begin_commit().is_err());
    assert_eq!(CancelDisposition::Accepted.as_str(), "accepted");
    assert_eq!(CancelDisposition::CommitInProgress.as_str(), "commit_in_progress");
}

#[test]
fn browser_authorization_contract_keeps_pkce_state_and_scope() {
    let url = build_authorization_url(
        CODEX_OAUTH_ISSUER,
        CODEX_OAUTH_CLIENT_ID,
        "http://localhost:1455/auth/callback",
        "challenge",
        "state",
    )
    .unwrap();
    let parsed = url::Url::parse(&url).unwrap();
    let fields = parsed
        .query_pairs()
        .into_owned()
        .collect::<std::collections::HashMap<_, _>>();
    assert_eq!(
        fields.get("scope").map(String::as_str),
        Some(CODEX_OAUTH_SCOPE)
    );
    assert_eq!(fields.get("state").map(String::as_str), Some("state"));
    assert_eq!(
        fields.get("code_challenge_method").map(String::as_str),
        Some("S256")
    );
}

#[test]
fn headless_callback_port_policy_is_closed_and_exact() {
    assert!(validate_headless_callback_port(1455).is_ok());
    assert!(validate_headless_callback_port(1457).is_ok());
    for port in [0, 80, 1456, 3000, u16::MAX] {
        let error = validate_headless_callback_port(port).unwrap_err();
        assert_eq!(error.code, OAuthErrorCode::OAuthProtocol);
        assert_eq!(error.stage, "callback_bind");
    }

    let options = AsyncLoginOptions::headless(1455).ok().unwrap();
    assert_eq!(options.callback_ports, vec![1455]);
    assert_eq!(options.browser_timeout, Duration::from_secs(5 * 60));
}

/// Runs a login that shows its page elsewhere, and gives the pages that it showed.
fn headless_login(
    port: u16,
    free: bool,
) -> (Result<AuthStatus, OAuthFlowError>, Vec<String>, usize) {
    let noted = Noted(RefCell::new(Vec::new()));
    let options = match AsyncLoginOptions::headless(port) {
        Ok(options) => options,
        Err(error) => return (Err(error), Vec::new(), 0),
    };
    let run = LoginRun::new(
        LoginStyle::Cancellable,
        options.issuer,
        options.client_id,
        options.callback_ports,
        options.browser_timeout,
    );
    let mut control = LoginControl::default();
    let course = run_course(run, |_| free, &noted, &NeverTransport, &[], &mut control);
    let shown = noted.0.into_inner().into_iter().map(|(url, _)| url).collect();
    (course.result, shown, course.commits)
}

#[test]
fn production_headless_login_rejects_port_before_url_or_network_work() {
    let (result, shown, commits) = headless_login(1456, true);
    assert_eq!(result.err().unwrap().code, OAuthErrorCode::OAuthProtocol);
    assert!(shown.is_empty());
    assert_eq!(commits, 0);
    let (_, shown, _) = headless_login(1455, true);
    let page = request_for(CODEX_OAUTH_ISSUER, CODEX_OAUTH_CLIENT_ID, 1455).authorization_url;
    assert_eq!(shown, [page]);
}

#[test]
fn occupied_exact_port_emits_no_authorization_url() {
    let (result, shown, commits) = headless_login(1455, false);
    assert_eq!(result.err().unwrap().code, OAuthErrorCode::CallbackUnavailable);
    assert!(shown.is_empty());
    assert_eq!(commits, 0);
}

#[test]
fn login_tries_its_ports_in_order_and_shows_its_page_once() {
    let noted = Noted(RefCell::new(Vec::new()));
    let mut control = LoginControl::default();
    let run = new_run(LoginStyle::Blocking, vec![1400, PORT]);
    let course =
        run_course(run, |port| port == PORT, &noted, &NeverTransport, &[], &mut control);
    assert_eq!(course.result.err().unwrap().code, OAuthErrorCode::CallbackTimeout);
    assert_eq!(noted.0.borrow().len(), 1);

    let mut none = new_run(LoginStyle::Blocking, Vec::new());
    assert!(matches!(none.begin().task, LoginTask::Lock));
    let action = none.step(LoginEvent::Locked(Ok(())), &mut control);
    assert!(matches!(action.task, LoginTask::Finish(Err(error))
        if error.code == OAuthErrorCode::CallbackUnavailable));
    let mut busy = new_run(LoginStyle::Blocking, vec![PORT]);
    let action = busy.step(LoginEvent::Locked(Err(StorageError::Busy)), &mut control);
    assert!(matches!(action.task, LoginTask::Finish(Err(error))
        if error.code == OAuthErrorCode::AuthBusy));
    for address_unreadable in [true, false] {
        let mut run = new_run(LoginStyle::Cancellable, vec![PORT]);
        run.step(LoginEvent::Locked(Ok(())), &mut control);
        let action = run.step(LoginEvent::PortFault { address_unreadable }, &mut control);
        let wanted = LoginStyle::Cancellable.callback_fault(address_unreadable).message;
        assert!(matches!(action.task, LoginTask::Finish(Err(error)) if error.message == wanted));
    }
    let mut random = new_run(LoginStyle::Blocking, vec![PORT]);
    random.step(LoginEvent::Locked(Ok(())), &mut control);
    random.step(LoginEvent::Bound(PORT), &mut control);
    let refused = OAuthFlowError::protocol("The OAuth issuer is invalid");
    let action = random.step(LoginEvent::Prepared(Err(refused)), &mut control);
    assert!(matches!(action.task, LoginTask::Finish(Err(error))
        if error.message == "The OAuth issuer is invalid"));
}

fn head(status: u16, content_type: Option<&str>) -> ReplyHead {
    ReplyHead {
        status,
        challenge_header: None,
        content_type: content_type.map(str::to_string),
        content_length: None,
    }
}

#[test]
fn hung_header_and_slow_body_are_cancellable() {
    let error = send_request(SendEvent::Cancelled, false, "token_exchange").err().unwrap();
    assert_eq!(error.code, OAuthErrorCode::AuthCancelled);

    let reply = send_request(
        SendEvent::Replied(head(200, Some("application/json"))),
        false,
        "token_exchange",
    )
    .ok()
    .unwrap();
    let reader = ReplyReader::new(&reply);
    let ReadProgress::More(reader) =
        reader.read_response(ReadEvent::Chunk(b"{".to_vec()), "token_exchange").ok().unwrap()
    else {
        panic!("a chunk is not the end")
    };
    let error = reader.read_response(ReadEvent::Cancelled, "token_exchange").err().unwrap();
    assert_eq!(error.code, OAuthErrorCode::AuthCancelled);
}

#[test]
fn requests_without_a_reply_are_told_apart() {
    let late = send_request(SendEvent::TimedOut, false, "token_exchange").err().unwrap();
    assert_eq!(late.transport_kind, Some("timeout"));
    let failure = RequestFailure { timed_out: false, tls_failed: false, connect_failed: true };
    let failed = send_request(SendEvent::Failed(failure), true, "token_exchange").err().unwrap();
    assert_eq!(failed.code, OAuthErrorCode::ProxyConnectFailed);
    for event in [ReadEvent::Expired, ReadEvent::TimedOut, ReadEvent::Failed] {
        let reader = ReplyReader::new(&head(200, None));
        assert!(reader.read_response(event, "token_exchange").is_err());
    }
}

#[test]
fn replies_of_another_kind_are_refused() {
    let data = |status, kind, challenge| ResponseData { status, kind, challenge, body: Vec::new() };
    let challenged = data(403, "html", true).exchange_code(None, None, None).err().unwrap();
    assert_eq!(challenged.code, OAuthErrorCode::OAuthChallengeResponse);
    let html = data(200, "html", false).exchange_code(None, None, None).err().unwrap();
    assert_eq!(html.code, OAuthErrorCode::OAuthUnexpectedContentType);
    assert_eq!(html.response_kind, Some("html"));
    assert!(data(400, "json", false).require_json_success("token_exchange").is_err());
    assert!(data(200, "json", false).require_json_success("token_exchange").is_ok());
    assert!(data(200, "json", false).reject_challenge("token_exchange").is_ok());
    let malformed = data(200, "json", false).exchange_code(None, None, None).err().unwrap();
    assert_eq!(malformed.stage, "token_exchange");
    assert_eq!(malformed.upstream_status, Some(200));
}

fn failed(timed_out: bool, tls_failed: bool, connect_failed: bool) -> SendEvent {
    SendEvent::Failed(RequestFailure { timed_out, tls_failed, connect_failed })
}

#[test]
fn stable_rustls_source_is_classified_as_tls_failure() {
    let error = send_request(failed(false, true, true), false, "token_exchange").err().unwrap();
    assert_eq!(error.code, OAuthErrorCode::TlsFailed);
    assert_eq!(error.transport_kind, Some("tls"));
}

#[test]
fn unresponsive_connect_proxy_is_cancellable() {
    let error = send_request(SendEvent::Cancelled, true, "token_exchange").err().unwrap();
    assert_eq!(error.code, OAuthErrorCode::AuthCancelled);
    assert_eq!(error.stage, "token_exchange");
}

#[test]
fn refused_proxy_is_classified_without_exposing_url() {
    let error = send_request(failed(false, false, true), true, "token_exchange").err().unwrap();
    assert_eq!(error.code, OAuthErrorCode::ProxyConnectFailed);
    assert_eq!(error.transport_kind, Some("proxy_connect"));
    assert_eq!(error.to_text(), "The OAuth request could not connect");
}

#[test]
fn replies_are_shown_without_their_bodies() {
    let data = ResponseData {
        status: 200,
        kind: "json",
        challenge: false,
        body: b"{\"access_token\":\"secret\"}".to_vec(),
    };
    assert_eq!(
        data.debug_text(),
        "ResponseData { status: 200, kind: \"json\", challenge: false, body_len: 25 }"
    );
}

struct Noted(RefCell<Vec<(String, u64)>>);

impl BrowserOpener for Noted {
    fn open(&self, authorization_url: &str, time_left: Duration) -> Result<(), OAuthFlowError> {
        self.0.borrow_mut().push((authorization_url.to_string(), time_left.as_millis()));
        Ok(())
    }
}

impl OAuthTransport for Noted {
    fn exchange_code(
        &self,
        code: &str,
        redirect_uri: &str,
        code_verifier: &str,
        time_left: Duration,
    ) -> Result<NewOAuthTokens, OAuthFlowError> {
        let sent = format!("{code} {redirect_uri} {code_verifier}");
        self.0.borrow_mut().push((sent, time_left.as_millis()));
        Ok(tokens())
    }
}

#[test]
fn login_is_bound_to_its_verifier_and_to_one_time_limit() {
    let noted = Noted(RefCell::new(Vec::new()));
    let request = request();
    let deadline = LoginDeadline { timeout: Duration::from_secs(2) };
    let course = run_course(
        new_run(LoginStyle::Blocking, vec![PORT]),
        |_| true,
        &noted,
        &noted,
        &[callback("code=one-code&state=expected-state", "localhost:1455")],
        &mut LoginControl::default(),
    );
    assert!(course.result.is_ok());

    let noted = noted.0.borrow();
    let shown = url::Url::parse(&noted[0].0).unwrap();
    let fields: HashMap<_, _> = shown.query_pairs().into_owned().collect();
    let challenge = base64::engine::general_purpose::URL_SAFE_NO_PAD
        .encode(Sha256::digest(request.verifier.as_bytes()));
    assert_eq!(fields["code_challenge"], challenge);
    assert_eq!(fields["code_challenge_method"], "S256");
    assert_eq!(fields["redirect_uri"], "http://localhost:1455/auth/callback");
    assert_eq!(fields["state"], request.state);
    assert!(!noted[0].0.contains(&request.verifier));
    assert_eq!(
        noted[1].0,
        format!("one-code http://localhost:1455/auth/callback {}", request.verifier)
    );
    assert_eq!((noted[0].1, noted[1].1), (2_000, 1_500));
    assert_eq!(noted.len(), 2);
    assert!(!deadline.is_over(Duration::from_millis(1_999)));
    assert!(deadline.is_over(Duration::from_millis(2_000)));
    assert_eq!(deadline.time_left(Duration::from_millis(2_500)).as_millis(), 0);
}

#[test]
fn token_endpoint_follows_the_issuer() {
    assert_eq!(token_endpoint("https://auth.openai.com//"), "https://auth.openai.com/oauth/token");
    assert_eq!(AsyncLoginOptions::production().callback_ports, vec![1455, 1457]);
}
