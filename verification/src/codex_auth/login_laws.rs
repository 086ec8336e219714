//! What holds of every step of a login.

use vstd::prelude::*;

use crate::codex_auth::callback::CallbackAction;
use crate::codex_auth::callback_laws::is_protocol_error;
use crate::codex_auth::login::{
    LoginAction, LoginDeadline, LoginEvent, LoginPhase, LoginRequest, LoginRun, LoginStyle,
    LoginTask,
};
use crate::codex_auth::login_async::{ControlState, LoginControl, LoginProgress};
use crate::codex_auth::oauth::{
    is_endpoint, storage_failure, FlowError, LoginOptions, OAuthErrorCode, OAuthFlowError,
    PkceCodes,
};
use crate::codex_auth::storage::{AuthStatus, NewOAuthTokens, StorageError};
use crate::duration::Duration;
use crate::text::decimal;
use crate::web::{form_fields, form_text, url_at_path};
use vstd::utf8::*;

verus! {

/// The action ends the login with this failure.
pub open spec fn ends_with_error(
    action: LoginAction,
    code: OAuthErrorCode,
    retryable: bool,
    message: Seq<char>,
) -> bool {
    action@.task matches crate::codex_auth::login::Task::Finish(Err(error)) && error.code == code
        && error.retryable == retryable && error.message == message
}

/// The stage that a failure names while the callback is awaited: its own in a login that
/// can be cancelled.
pub open spec fn names_stage(action: LoginAction, stage: Seq<char>) -> bool {
    action@.task matches crate::codex_auth::login::Task::Finish(Err(error)) && error.stage == stage
}

/// The action shows this page.
pub open spec fn shows_page(action: LoginAction, status: u16, message: Seq<char>) -> bool {
    action@.page == Some((status, message))
}

/// Ports are tried in their order; when none is left, both kinds of login give up.
pub proof fn law_ports_are_tried_in_order(
    style: LoginStyle,
    ports: &[u16],
    refused: usize,
    unreadable: bool,
    port: Result<u16, OAuthFlowError>,
    fault: OAuthFlowError,
)
    requires
        call_ensures(LoginStyle::bind_callback, (style, ports, refused), port),
        call_ensures(LoginStyle::callback_fault, (style, unreadable), fault),
    ensures
        refused < ports@.len() ==> port == Ok::<u16, OAuthFlowError>(ports@[refused as int]),
        refused >= ports@.len() ==> port is Err && port->Err_0.code
            == OAuthErrorCode::CallbackUnavailable && port->Err_0.retryable && port->Err_0.message@
            == "OAuth callback ports 1455 and 1457 are unavailable"@,
        fault.code == OAuthErrorCode::CallbackUnavailable && fault.retryable,
        unreadable ==> fault.message@ == "The local OAuth callback address could not be read"@,
        !unreadable ==> fault.message@ == "The local OAuth callback could not be configured"@,
        style == LoginStyle::Cancellable ==> fault.stage@ == "callback_wait"@ && (port is Err
            ==> port->Err_0.stage@ == "callback_wait"@),
        style == LoginStyle::Blocking ==> fault.stage@ == "token_exchange"@,
{
}

/// A request sends the browser to the issuer with the challenge and the state, to come back
/// to this machine at this port, and keeps the verifier and the state.
pub proof fn law_login_requests(
    issuer: &str,
    client_id: &str,
    port: u16,
    codes: PkceCodes,
    state: String,
    request: Result<LoginRequest, OAuthFlowError>,
)
    requires
        call_ensures(LoginRequest::new, (issuer, client_id, port, codes, state), request),
    ensures
        request is Ok <==> is_endpoint(issuer@),
        request matches Err(error) ==> is_protocol_error(error, "The OAuth issuer is invalid"@),
        request matches Ok(made) ==> {
            let redirect = "http://localhost:"@ + decimal(port as nat) + "/auth/callback"@;
            &&& made.redirect_uri@ == redirect
            &&& made.verifier@ == codes.verifier@
            &&& made.state@ == state@
            &&& url_at_path(issuer@, "/oauth/authorize"@) matches Some(base)
                && made.authorization_url@ == base + "?"@ + form_text(
                seq![
                    ("response_type"@, "code"@),
                    ("client_id"@, client_id@),
                    ("redirect_uri"@, redirect),
                    ("scope"@, "openid profile email offline_access api.connectors.read api.connectors.invoke"@),
                    ("code_challenge"@, codes.challenge@),
                    ("code_challenge_method"@, "S256"@),
                    ("id_token_add_organizations"@, "true"@),
                    ("codex_cli_simplified_flow"@, "true"@),
                    ("state"@, state@),
                    ("originator"@, "codex_cli_rs"@),
                ],
            )
        },
{
}

/// The time of a login runs out once.
pub proof fn law_time_of_a_login(
    deadline: &LoginDeadline,
    elapsed: Duration,
    left: Duration,
    over: bool,
)
    requires
        call_ensures(LoginDeadline::time_left, (deadline, elapsed), left),
        call_ensures(LoginDeadline::is_over, (deadline, elapsed), over),
    ensures
        over <==> elapsed.millis >= deadline.timeout.millis,
        over ==> left.millis == 0,
        !over ==> left.millis + elapsed.millis == deadline.timeout.millis,
{
}

/// A login begins with the lock of the store.
pub proof fn law_logins_begin_with_the_lock(
    style: LoginStyle,
    options: LoginOptions,
    run: LoginRun,
    action: LoginAction,
)
    requires
        call_ensures(LoginRun::with_options, (style, options), run),
        call_ensures(LoginRun::begin, (&run,), action),
    ensures
        run.style == style,
        run.issuer@ == options.issuer@ && run.client_id@ == options.client_id@,
        run.ports@ == options.ports@,
        run.deadline.timeout == options.timeout,
        run.phase == LoginPhase::Locking,
        run.refused == 0 && run.requests == 0 && run.port is None && run.request is None,
        action.task is Lock && action.page is None && action.progress is None,
{
}

/// What a step leaves as it is.
pub proof fn law_steps_keep_the_options(
    run: &mut LoginRun,
    control: &mut LoginControl,
    event: LoginEvent,
    action: LoginAction,
)
    requires
        call_ensures(LoginRun::step, (run, event, control), action),
    ensures
        final(run).style == old(run).style && final(run).issuer == old(run).issuer && final(
            run).client_id == old(run).client_id && final(run).ports == old(run).ports && final(
            run).deadline == old(run).deadline,
        !(event is Exchanged) ==> final(control).state == old(control).state,
        action.task is Finish ==> final(run).phase == LoginPhase::Done,
{
}

/// With the lock the first port is bound, and after each that cannot be had the next.
pub proof fn law_logins_bind(
    run: &mut LoginRun,
    control: &mut LoginControl,
    event: LoginEvent,
    fault: StorageError,
    action: LoginAction,
)
    requires
        call_ensures(LoginRun::step, (run, event, control), action),
        old(run).refused < old(run).ports@.len() < usize::MAX,
    ensures
        (event matches LoginEvent::Locked(Ok(_))) ==> (action.task matches LoginTask::Bind(port)
            && port == old(run).ports@[old(run).refused as int]) && final(run).phase
            == LoginPhase::Binding,
        event is BindRefused && old(run).refused + 1 < old(run).ports@.len() ==> (
        action.task matches LoginTask::Bind(port) && port == old(run).ports@[old(run).refused + 1])
            && final(run).refused == old(run).refused + 1,
        event is BindRefused && old(run).refused + 1 == old(run).ports@.len() ==> ends_with_error(
            action,
            OAuthErrorCode::CallbackUnavailable,
            true,
            "OAuth callback ports 1455 and 1457 are unavailable"@,
        ),
        event matches LoginEvent::Bound(port) ==> action.task == LoginTask::Prepare(port) && final(
            run).port == Some(port) && final(run).phase == LoginPhase::Preparing,
        event == LoginEvent::Locked(Err(fault)) ==> action@.task
            == crate::codex_auth::login::Task::Finish(Err(storage_failure(fault)@)),
        event == (LoginEvent::PortFault { address_unreadable: true }) ==> ends_with_error(
            action,
            OAuthErrorCode::CallbackUnavailable,
            true,
            "The local OAuth callback address could not be read"@,
        ),
        event == (LoginEvent::PortFault { address_unreadable: false }) ==> ends_with_error(
            action,
            OAuthErrorCode::CallbackUnavailable,
            true,
            "The local OAuth callback could not be configured"@,
        ),
{
    lemma_action_view(action);
}

/// The request that was made is opened in the browser, and then the callback is awaited.
pub proof fn law_logins_open_the_browser(
    run: &mut LoginRun,
    control: &mut LoginControl,
    event: LoginEvent,
    action: LoginAction,
)
    requires
        call_ensures(LoginRun::step, (run, event, control), action),
    ensures
        event matches LoginEvent::Prepared(Ok(request)) ==> (action.task matches LoginTask::Open {
            url,
            deadline,
        } && url@ == request.authorization_url@ && deadline == old(run).deadline) && final(
            run).request == Some(request) && final(run).phase == LoginPhase::Opening,
        event matches LoginEvent::Prepared(Err(error)) ==> action@.task
            == crate::codex_auth::login::Task::Finish(Err(error@)),
        (event matches LoginEvent::Opened(Ok(_))) ==> action.task is Accept && action.page is None
            && final(run).phase == LoginPhase::Waiting && action.progress == (if old(run).style
            == LoginStyle::Cancellable {
            Some(LoginProgress::Waiting)
        } else {
            None
        }),
        event matches LoginEvent::Opened(Err(error)) ==> action@.task
            == crate::codex_auth::login::Task::Finish(Err(error@)),
{
    lemma_action_view(action);
}

/// While the callback is awaited, each request is read, up to sixty-four; the time may run
/// out, the login be cancelled, or the page break down.
pub proof fn law_logins_wait(
    run: &mut LoginRun,
    control: &mut LoginControl,
    event: LoginEvent,
    action: LoginAction,
)
    requires
        call_ensures(LoginRun::step, (run, event, control), action),
    ensures
        event is Accepted && old(run).requests < 64 ==> action.task is Read && final(run).requests
            == old(run).requests + 1 && final(run).phase == LoginPhase::Reading,
        event is Accepted && old(run).requests >= 64 ==> ends_with_error(
            action,
            OAuthErrorCode::OAuthProtocol,
            false,
            if old(run).style == LoginStyle::Blocking {
                "Too many invalid OAuth callback requests were received"@
            } else {
                "Too many OAuth callbacks"@
            },
        ),
        event is Deadline ==> ends_with_error(
            action,
            OAuthErrorCode::CallbackTimeout,
            true,
            "Codex sign-in timed out"@,
        ),
        event is Cancelled ==> ends_with_error(
            action,
            OAuthErrorCode::AuthCancelled,
            true,
            "Codex sign-in was cancelled"@,
        ) && names_stage(action, "callback_wait"@),
        event is AcceptFailed ==> ends_with_error(
            action,
            OAuthErrorCode::CallbackUnavailable,
            true,
            "The local OAuth callback stopped unexpectedly"@,
        ),
        old(run).style == LoginStyle::Cancellable && (event is Deadline || event is AcceptFailed)
            ==> names_stage(action, "callback_wait"@),
        old(run).style == LoginStyle::Blocking && (event is Deadline || event is AcceptFailed)
            ==> names_stage(action, "token_exchange"@),
{
    lemma_action_view(action);
}

/// A code is traded with the redirect and the verifier of its request; a request that says
/// nothing of use is rejected and the next awaited; a denial ends the login.
pub proof fn law_logins_are_called_back(
    run: &mut LoginRun,
    control: &mut LoginControl,
    event: LoginEvent,
    action: LoginAction,
)
    requires
        old(run).request is Some,
        call_ensures(LoginRun::step, (run, event, control), action),
    ensures
        event matches LoginEvent::Callback(Ok(CallbackAction::Code(code))) ==> (
        action.task matches LoginTask::Exchange { code: sent, redirect_uri, verifier, deadline }
            && sent@ == code@ && redirect_uri@ == old(run).request->Some_0.redirect_uri@
            && verifier@ == old(run).request->Some_0.verifier@ && deadline == old(run).deadline)
            && final(run).phase == LoginPhase::Exchanging && action.progress == (if old(run).style
            == LoginStyle::Cancellable {
            Some(LoginProgress::Exchanging)
        } else {
            None
        }),
        event matches LoginEvent::Callback(Ok(CallbackAction::Ignore(status))) ==> shows_page(
            action,
            status,
            "Sign-in request rejected"@,
        ) && action.task is Accept && final(run).phase == LoginPhase::Waiting,
        (event matches LoginEvent::Callback(Ok(CallbackAction::Denied))) ==> shows_page(
            action,
            400,
            "Sign-in was not completed"@,
        ) && ends_with_error(
            action,
            OAuthErrorCode::OAuthDenied,
            false,
            "Codex sign-in was denied or cancelled"@,
        ),
        event matches LoginEvent::Callback(Err(error)) ==> {
            &&& old(run).style == LoginStyle::Blocking || error.code
                != OAuthErrorCode::AuthCancelled ==> shows_page(
                action,
                400,
                "Sign-in request rejected"@,
            ) && action.task is Accept && final(run).phase == LoginPhase::Waiting
            &&& old(run).style == LoginStyle::Cancellable && error.code
                == OAuthErrorCode::AuthCancelled ==> action@.task
                == crate::codex_auth::login::Task::Finish(Err(error@)) && action.page is None
        },
{
    lemma_action_view(action);
}

/// The tokens of a code are stored, unless the login was cancelled before; the browser is
/// told how it ended.
pub proof fn law_logins_store_the_tokens(
    run: &mut LoginRun,
    control: &mut LoginControl,
    event: LoginEvent,
    action: LoginAction,
)
    requires
        call_ensures(LoginRun::step, (run, event, control), action),
    ensures
        event matches LoginEvent::Exchanged(Ok(tokens)) ==> {
            let stores = old(run).style == LoginStyle::Blocking || old(control).state
                == ControlState::Running;
            &&& stores ==> action.task == LoginTask::Commit(tokens) && final(run).phase
                == LoginPhase::Committing
            &&& !stores ==> shows_page(action, 500, "Codex sign-in could not be completed safely."@)
                && ends_with_error(
                action,
                OAuthErrorCode::AuthCancelled,
                true,
                "Codex sign-in was cancelled"@,
            ) && names_stage(action, "cancelled"@)
            &&& old(run).style == LoginStyle::Cancellable && old(control).state
                == ControlState::Running ==> final(control).state == ControlState::Committing
                && action.progress == Some(LoginProgress::Committing)
        },
        event matches LoginEvent::Exchanged(Err(error)) ==> shows_page(
            action,
            500,
            "Codex sign-in could not be completed safely."@,
        ) && action@.task == crate::codex_auth::login::Task::Finish(Err(error@)),
        event matches LoginEvent::Committed(Ok(status)) ==> shows_page(
            action,
            200,
            "Codex sign-in completed. You can close this window."@,
        ) && action.task == LoginTask::Finish(Ok(status)) && final(run).phase == LoginPhase::Done,
        event matches LoginEvent::Committed(Err(fault)) ==> shows_page(
            action,
            500,
            "Codex sign-in could not be completed safely."@,
        ) && (action@.task matches crate::codex_auth::login::Task::Finish(Err(told)) && told.code
            == storage_failure(fault).code && told.message == storage_failure(fault).message@
            && told.retryable == storage_failure(fault).retryable && (old(run).style
            == LoginStyle::Cancellable ==> told.stage == "credential_commit"@)),
{
    lemma_action_view(action);
}

proof fn lemma_action_view(action: LoginAction)
    ensures
        action@.task == action.task@,
        action@.progress == action.progress,
        action@.page is None <==> action.page is None,
{
}

} // verus!
