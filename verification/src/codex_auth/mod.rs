//! Sign-in to the Codex account: browser login, refresh, logout and the command line.

use vstd::prelude::*;

use crate::codex_auth::login::{LoginRun, LoginStyle};
use crate::codex_auth::oauth::{
    storage_failure, FlowError, HttpOAuthTransport, LoginOptions, OAuthFlowError,
    CODEX_OAUTH_CLIENT_ID, CODEX_OAUTH_ISSUER,
};
use crate::codex_auth::storage::{
    AuthStatus, RefreshSnapshot, RefreshUpdate, RevokeToken, StorageError,
};
use crate::text::append_bytes;
use vstd::string::*;
use vstd::utf8::*;

pub mod callback;
pub mod callback_laws;
pub mod cli;
pub mod cli_laws;
pub mod courses;
pub mod login;
pub mod login_async;
pub mod login_laws;
pub mod oauth;
pub mod oauth_laws;
pub mod oauth_reply_laws;
pub mod storage;

verus! {

/// The directory of the gateway's state under the user's home.
pub const CODEX_STATE_DIR_NAME: &'static str = ".csswitch";

/// The same directory in a build for acceptance tests, which leaves a user's own state alone.
pub const ACCEPTANCE_STATE_DIR_NAME: &'static str = ".csswitch-acceptance";

pub open spec fn state_dir_name(acceptance_build: bool) -> Seq<char> {
    if acceptance_build {
        ACCEPTANCE_STATE_DIR_NAME@
    } else {
        CODEX_STATE_DIR_NAME@
    }
}

/// A path below `home`. It gets a separator of its own where `home` does not end with one.
pub open spec fn state_root_of(home: Seq<u8>, acceptance_build: bool) -> Seq<u8> {
    let separator = if home.len() > 0 && home.last() != 47 {
        seq![47u8]
    } else {
        Seq::empty()
    };
    home + separator + encode_utf8(state_dir_name(acceptance_build))
}

pub fn state_root_from_home(home: &[u8], acceptance_build: bool) -> (root: Vec<u8>)
    ensures
        root@ == state_root_of(home@, acceptance_build),
{
    let mut root: Vec<u8> = Vec::new();
    append_bytes(&mut root, home);
    assert(root@ =~= home@);
    let count: usize = home.len();
    if count > 0 && home[count - 1] != 47 {
        root.push(47);
    }
    let name = if acceptance_build {
        ACCEPTANCE_STATE_DIR_NAME
    } else {
        CODEX_STATE_DIR_NAME
    };
    append_bytes(&mut root, name.as_bytes());
    root
}

/// What a caller is told of an answer of the credential store.
pub open spec fn told(answer: Result<AuthStatus, StorageError>) -> Result<AuthStatus, FlowError> {
    match answer {
        Ok(status) => Ok(status),
        Err(error) => Err(storage_failure(error)@),
    }
}

pub open spec fn result_view(result: Result<AuthStatus, OAuthFlowError>) -> Result<
    AuthStatus,
    FlowError,
> {
    match result {
        Ok(status) => Ok(status),
        Err(error) => Err(error@),
    }
}

/// Reports what the credential store says of itself.
pub fn production_status(answer: Result<AuthStatus, StorageError>) -> (result: Result<
    AuthStatus,
    OAuthFlowError,
>)
    ensures
        result_view(result) == told(answer),
{
    match answer {
        Ok(status) => Ok(status),
        Err(error) => Err(OAuthFlowError::from(error)),
    }
}

/// A login with the pinned options.
pub struct ProductionLogin {
    pub transport: HttpOAuthTransport,
    pub run: LoginRun,
}

/// Starts a login, where a transport could be had.
pub fn run_production_login(transport: Result<HttpOAuthTransport, OAuthFlowError>) -> (login:
    Result<ProductionLogin, OAuthFlowError>)
    ensures
        match login {
            Ok(login) => {
                &&& transport == Ok::<HttpOAuthTransport, OAuthFlowError>(login.transport)
                &&& login.run.style is Blocking
                &&& login.run.is_new()
                &&& login.run.wf()
                &&& login.run.issuer@ == CODEX_OAUTH_ISSUER@
                &&& login.run.client_id@ == CODEX_OAUTH_CLIENT_ID@
                &&& login.run.ports@ == seq![1455u16, 1457u16]
                &&& login.run.deadline.timeout.millis == 300_000
            },
            Err(error) => transport == Err::<HttpOAuthTransport, OAuthFlowError>(error),
        },
{
    match transport {
        Ok(transport) => Ok(
            ProductionLogin {
                transport,
                run: LoginRun::with_options(LoginStyle::Blocking, LoginOptions::production()),
            },
        ),
        Err(error) => Err(error),
    }
}

/// What came back during a refresh.
pub enum RefreshEvent {
    Transport(Result<(), OAuthFlowError>),
    Locked(Result<(), StorageError>),
    Snapshot(Result<RefreshSnapshot, StorageError>),
    Refreshed(Result<RefreshUpdate, OAuthFlowError>),
    Status(Result<AuthStatus, StorageError>),
    Committed(Result<AuthStatus, StorageError>),
}

/// What a refresh does next.
pub enum RefreshTask {
    Lock,
    TakeSnapshot,
    ReadStatus,
    Refresh { refresh_token: String },
    Commit(RefreshUpdate),
    Finish(Result<AuthStatus, OAuthFlowError>),
}

/// What a [`RefreshTask`] says.
pub ghost enum Refresh {
    Lock,
    TakeSnapshot,
    ReadStatus,
    Refresh(Seq<char>),
    Commit(RefreshUpdate),
    Finish(Result<AuthStatus, FlowError>),
}

impl View for RefreshTask {
    type V = Refresh;

    open spec fn view(&self) -> Refresh {
        match *self {
            RefreshTask::Lock => Refresh::Lock,
            RefreshTask::TakeSnapshot => Refresh::TakeSnapshot,
            RefreshTask::ReadStatus => Refresh::ReadStatus,
            RefreshTask::Refresh { refresh_token } => Refresh::Refresh(refresh_token@),
            RefreshTask::Commit(update) => Refresh::Commit(update),
            RefreshTask::Finish(result) => Refresh::Finish(result_view(result)),
        }
    }
}

/// What a refresh of the expected generation does after an event.
pub open spec fn refresh_step(expected_generation: u64, event: RefreshEvent) -> Refresh {
    match event {
        RefreshEvent::Transport(Ok(_)) => Refresh::Lock,
        RefreshEvent::Transport(Err(error)) => Refresh::Finish(Err(error@)),
        RefreshEvent::Locked(Ok(_)) => Refresh::TakeSnapshot,
        RefreshEvent::Locked(Err(error)) => Refresh::Finish(Err(storage_failure(error)@)),
        RefreshEvent::Snapshot(Ok(snapshot)) => if snapshot.auth_generation
            != expected_generation {
            Refresh::ReadStatus
        } else {
            Refresh::Refresh(snapshot.refresh_token@)
        },
        RefreshEvent::Snapshot(Err(error)) => Refresh::Finish(Err(storage_failure(error)@)),
        RefreshEvent::Refreshed(Ok(update)) => Refresh::Commit(update),
        RefreshEvent::Refreshed(Err(error)) => Refresh::Finish(Err(error@)),
        RefreshEvent::Status(answer) | RefreshEvent::Committed(answer) => Refresh::Finish(
            told(answer),
        ),
    }
}

/// Says what a refresh does after an event. A generation that is no longer the expected
/// one was refreshed by somebody else: its status is reported and nothing is sent.
pub fn refresh_production_for_generation(expected_generation: u64, event: RefreshEvent) -> (task:
    RefreshTask)
    ensures
        task@ == refresh_step(expected_generation, event),
{
    match event {
        RefreshEvent::Transport(Ok(_)) => RefreshTask::Lock,
        RefreshEvent::Transport(Err(error)) => RefreshTask::Finish(Err(error)),
        RefreshEvent::Locked(Ok(_)) => RefreshTask::TakeSnapshot,
        RefreshEvent::Locked(Err(error)) => RefreshTask::Finish(Err(OAuthFlowError::from(error))),
        RefreshEvent::Snapshot(Ok(snapshot)) => {
            if snapshot.auth_generation != expected_generation {
                RefreshTask::ReadStatus
            } else {
                RefreshTask::Refresh { refresh_token: snapshot.refresh_token }
            }
        },
        RefreshEvent::Snapshot(Err(error)) => RefreshTask::Finish(Err(OAuthFlowError::from(error))),
        RefreshEvent::Refreshed(Ok(update)) => RefreshTask::Commit(update),
        RefreshEvent::Refreshed(Err(error)) => RefreshTask::Finish(Err(error)),
        RefreshEvent::Status(answer) | RefreshEvent::Committed(answer) => RefreshTask::Finish(
            production_status(answer),
        ),
    }
}

/// What came back during a logout.
pub enum LogoutEvent {
    Locked(Result<(), StorageError>),
    Token(Result<Option<RevokeToken>, StorageError>),
    Revoked(Result<(), OAuthFlowError>),
    Committed(Result<AuthStatus, StorageError>),
}

/// What a logout does next.
pub enum LogoutTask {
    FindToken,
    Revoke(RevokeToken),
    Commit,
    Finish(Result<AuthStatus, OAuthFlowError>),
}

/// What a [`LogoutTask`] says.
pub ghost enum Logout {
    FindToken,
    Revoke(RevokeToken),
    Commit,
    Finish(Result<AuthStatus, FlowError>),
}

impl View for LogoutTask {
    type V = Logout;

    open spec fn view(&self) -> Logout {
        match *self {
            LogoutTask::FindToken => Logout::FindToken,
            LogoutTask::Revoke(token) => Logout::Revoke(token),
            LogoutTask::Commit => Logout::Commit,
            LogoutTask::Finish(result) => Logout::Finish(result_view(result)),
        }
    }
}

/// What a logout does after an event. `can_revoke` tells whether a transport could be
/// had.
pub open spec fn logout_step(can_revoke: bool, event: LogoutEvent) -> Logout {
    match event {
        LogoutEvent::Locked(Ok(_)) => if can_revoke {
            Logout::FindToken
        } else {
            Logout::Commit
        },
        LogoutEvent::Locked(Err(error)) => Logout::Finish(Err(storage_failure(error)@)),
        LogoutEvent::Token(Ok(Some(token))) => Logout::Revoke(token),
        LogoutEvent::Token(_) => Logout::Commit,
        LogoutEvent::Revoked(_) => Logout::Commit,
        LogoutEvent::Committed(answer) => Logout::Finish(told(answer)),
    }
}

/// Says what a logout does after an event.
pub fn run_production_logout(can_revoke: bool, event: LogoutEvent) -> (task: LogoutTask)
    ensures
        task@ == logout_step(can_revoke, event),
{
    match event {
        LogoutEvent::Locked(Ok(_)) => {
            if can_revoke {
                LogoutTask::FindToken
            } else {
                LogoutTask::Commit
            }
        },
        LogoutEvent::Locked(Err(error)) => LogoutTask::Finish(Err(OAuthFlowError::from(error))),
        LogoutEvent::Token(Ok(Some(token))) => LogoutTask::Revoke(token),
        LogoutEvent::Token(_) => LogoutTask::Commit,
        LogoutEvent::Revoked(_) => LogoutTask::Commit,
        LogoutEvent::Committed(answer) => LogoutTask::Finish(production_status(answer)),
    }
}

/// Says what a logout that revokes nothing does after an event.
pub fn run_production_logout_local(event: LogoutEvent) -> (task: LogoutTask)
    ensures
        task@ == logout_step(false, event),
{
    run_production_logout(false, event)
}

/// Once a logout holds the lock it always reaches the local removal: whatever token is
/// found, and whether or not its revocation succeeds.
pub proof fn law_revocation_never_blocks_logout(
    can_revoke: bool,
    found: Result<Option<RevokeToken>, StorageError>,
    revoked: Result<(), OAuthFlowError>,
)
    ensures
        ({
            let first = logout_step(can_revoke, LogoutEvent::Locked(Ok(())));
            let second = logout_step(can_revoke, LogoutEvent::Token(found));
            let third = logout_step(can_revoke, LogoutEvent::Revoked(revoked));
            ||| first is Commit
            ||| first is FindToken && second is Commit
            ||| first is FindToken && second is Revoke && third is Commit
        }),
{
}

/// A refresh is sent only for the generation that the caller saw, with the token of that
/// generation; the second of two callers that saw the same one sends nothing once the
/// first has moved it on.
pub proof fn law_one_refresh_per_generation(
    expected_generation: u64,
    snapshot: RefreshSnapshot,
)
    ensures
        refresh_step(expected_generation, RefreshEvent::Snapshot(Ok(snapshot))) is Refresh
            <==> snapshot.auth_generation == expected_generation,
        snapshot.auth_generation != expected_generation ==> refresh_step(
            expected_generation,
            RefreshEvent::Snapshot(Ok(snapshot)),
        ) == Refresh::ReadStatus,
{
}

} // verus!
